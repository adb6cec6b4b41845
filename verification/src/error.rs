//! Error taxonomy of the decoder.
//!
//! Container-level failures abort the whole decode; entity-level failures are
//! fatal only to the one record being extracted.

use vstd::prelude::*;
use crate::bspfile::{Header, LumpEntry, LumpType};

verus! {

/// A failure while decoding the container or one of its lumps.
#[derive(Clone, Copy, Debug, PartialEq, Eq, Structural)]
pub enum BspError {
    /// The magic tag or the format version of the file header is not the
    /// supported one; carries the offending header bytes.
    UnexpectedHeader(Header),
    /// The buffer ends before a required fixed-size region is complete.
    Truncated,
    /// A directory entry points outside the source buffer; carries the entry.
    LumpOutOfBounds(LumpEntry),
    /// A lump's byte length is not a multiple of its element size.
    InvalidLumpSize { lump: LumpType, element_size: usize, lump_size: usize },
    /// A compressed lump payload could not be decompressed.
    Decompression,
}

/// A failure while mapping one entity property bag onto a typed record.
#[derive(Clone, Debug, PartialEq, Eq)]
pub enum EntityParseError {
    /// A required property is absent; carries the property name looked up.
    NoSuchProperty(Vec<u8>),
    /// An array-valued property holds fewer tokens than its declared arity.
    ElementCount,
    /// A numeric property value has a value outside a closed enumeration;
    /// carries the enumeration's name.
    InvalidEnumValue(&'static str),
    /// A property value is not a well-formed number of the declared width.
    ParseInt,
}

} // verus!
