//! The generic typed lump-decoding layer: turns a lump's byte buffer into
//! a homogeneous sequence of fixed-size records.

use vstd::prelude::*;
use vstd::slice::slice_subrange;
use crate::bspfile::LumpType;
use crate::error::BspError;
use crate::bytes::le32;
use crate::vis::VisData;

verus! {

/// A lump-specific version value handed to version-dependent decoders.
#[derive(Debug, Clone, Copy, PartialEq, Eq, Structural)]
pub struct Version(pub u32);

/// A record with one fixed on-disk layout: a declared byte width and a
/// total decoding function over exactly that many bytes.
pub trait LumpRecord: Sized {
    /// Declared on-disk byte width of one record.
    spec fn disk_size_spec() -> int;

    /// The record denoted by `s`, which holds exactly one record's bytes.
    spec fn decode_spec(s: Seq<u8>) -> Self;

    /// Executable form of `disk_size_spec`.
    fn disk_size() -> (n: usize)
        ensures
            n as int == Self::disk_size_spec(),
            1 <= n,
    ;

    /// Decodes the one record held by `data`.
    fn decode(data: &[u8]) -> (r: Self)
        requires
            data@.len() == Self::disk_size_spec(),
        ensures
            r == Self::decode_spec(data@),
    ;
}

/// A record whose on-disk layout depends on the lump's directory version.
pub trait VersionedLumpRecord: Sized {
    /// Declared on-disk byte width of one record under `version`.
    spec fn disk_size_ver_spec(version: u32) -> int;

    /// The record denoted by `s` under `version`.
    spec fn decode_ver_spec(s: Seq<u8>, version: u32) -> Self;

    /// Executable form of `disk_size_ver_spec`.
    fn disk_size_ver(version: Version) -> (n: usize)
        ensures
            n as int == Self::disk_size_ver_spec(version.0),
            1 <= n,
    ;

    /// Decodes the one record held by `data` under `version`.
    fn decode_ver(data: &[u8], version: Version) -> (r: Self)
        requires
            data@.len() == Self::disk_size_ver_spec(version.0),
        ensures
            r == Self::decode_ver_spec(data@, version.0),
    ;
}

/// The records of a lump whose byte length divides evenly, in file order.
pub open spec fn records_spec<T: LumpRecord>(s: Seq<u8>) -> Seq<T> {
    Seq::new(
        (s.len() as int / T::disk_size_spec()) as nat,
        |i: int| T::decode_spec(s.subrange(i * T::disk_size_spec(), (i + 1) * T::disk_size_spec())),
    )
}

/// As `records_spec`, for version-dependent records.
pub open spec fn records_ver_spec<T: VersionedLumpRecord>(s: Seq<u8>, version: u32) -> Seq<T> {
    Seq::new(
        (s.len() as int / T::disk_size_ver_spec(version)) as nat,
        |i: int| T::decode_ver_spec(
            s.subrange(i * T::disk_size_ver_spec(version), (i + 1) * T::disk_size_ver_spec(version)),
            version,
        ),
    )
}

/// A byte cursorless view of one resolved lump: its bytes, its directory
/// version, and which slot it came from.
pub struct LumpReader {
    pub(crate) data: Vec<u8>,
    pub(crate) version: Version,
    pub(crate) lump: LumpType,
}

impl LumpReader {
    /// The lump's byte buffer.
    pub closed spec fn bytes(self) -> Seq<u8> {
        self.data@
    }

    /// The lump's directory version value.
    pub closed spec fn version_spec(self) -> u32 {
        self.version.0
    }

    /// The directory slot the lump came from.
    pub closed spec fn lump_spec(self) -> LumpType {
        self.lump
    }

    /// Wraps one resolved lump for decoding.
    pub fn new(data: Vec<u8>, version: u32, lump: LumpType) -> (r: Self)
        ensures
            r.bytes() == data@,
            r.version_spec() == version,
            r.lump_spec() == lump,
    {
        LumpReader { data, version: Version(version), lump }
    }

    /// Gives the lump's bytes back.
    pub fn into_data(self) -> (r: Vec<u8>)
        ensures
            r@ == self.bytes(),
    {
        self.data
    }

    /// Reads the whole lump as free text: the entities blob.
    pub fn read_entities(self) -> (r: crate::entity::Entities)
        ensures
            r.entities@ == self.bytes(),
    {
        crate::entity::Entities { entities: self.data }
    }

    /// Decodes the lump as a list of fixed-size records.  The lump's byte
    /// length must be an exact multiple of the record's on-disk size;
    /// otherwise the decode fails, naming the lump, the element size and
    /// the lump's length.
    pub fn read_vec<T: LumpRecord>(&self) -> (r: Result<Vec<T>, BspError>)
        ensures
            r is Ok <==> self.bytes().len() as int % T::disk_size_spec() == 0,
            r matches Ok(v) ==> v@ == records_spec::<T>(self.bytes()),
            r matches Err(e) ==> e == (BspError::InvalidLumpSize {
                lump: self.lump_spec(),
                element_size: T::disk_size_spec() as usize,
                lump_size: self.bytes().len() as usize,
            }),
    {
        let size = T::disk_size();
        if self.data.len() % size != 0 {
            return Err(BspError::InvalidLumpSize {
                lump: self.lump,
                element_size: size,
                lump_size: self.data.len(),
            });
        }
        let count = self.data.len() / size;
        proof {
            vstd::arithmetic::div_mod::lemma_fundamental_div_mod(
                self.bytes().len() as int,
                size as int,
            );
            assert(count * size == self.bytes().len()) by (nonlinear_arith)
                requires
                    count as int == self.bytes().len() as int / (size as int),
                    self.bytes().len() as int == size as int * (self.bytes().len() as int / (size as int)) + self.bytes().len() as int % (size as int),
                    self.bytes().len() as int % (size as int) == 0;
        }
        let mut out: Vec<T> = Vec::new();
        let mut i: usize = 0;
        while i < count
            invariant
                0 <= i <= count,
                count == self.bytes().len() as int / T::disk_size_spec(),
                self.bytes().len() as int % T::disk_size_spec() == 0,
                size == T::disk_size_spec(),
                1 <= size,
                count * size == self.bytes().len(),
                self.bytes().len() <= usize::MAX,
                out@.len() == i,
                forall|k: int| 0 <= k < i ==> out@[k] == records_spec::<T>(self.bytes())[k],
            decreases count - i,
        {
            proof {
                assert(i * size + size <= count * size && 0 <= i * size
                    && (i + 1) * size == i * size + size) by (nonlinear_arith)
                    requires 0 <= i < count, 1 <= size;
            }
            let piece = slice_subrange(self.data.as_slice(), i * size, i * size + size);
            let record = T::decode(piece);
            proof {
                assert(piece@ == self.bytes().subrange(
                    i as int * T::disk_size_spec(),
                    (i as int + 1) * T::disk_size_spec(),
                ));
            }
            out.push(record);
            i = i + 1;
        }
        proof {
            assert(out@ =~= records_spec::<T>(self.bytes()));
        }
        Ok(out)
    }

    /// As `read_vec`, but each record decoder additionally receives the
    /// lump's directory version, for version-dependent record layouts.
    pub fn read_vec_ver<T: VersionedLumpRecord>(&self) -> (r: Result<Vec<T>, BspError>)
        ensures
            r is Ok <==> self.bytes().len() as int % T::disk_size_ver_spec(self.version_spec()) == 0,
            r matches Ok(v) ==> v@ == records_ver_spec::<T>(self.bytes(), self.version_spec()),
            r matches Err(e) ==> e == (BspError::InvalidLumpSize {
                lump: self.lump_spec(),
                element_size: T::disk_size_ver_spec(self.version_spec()) as usize,
                lump_size: self.bytes().len() as usize,
            }),
    {
        let size = T::disk_size_ver(self.version);
        if self.data.len() % size != 0 {
            return Err(BspError::InvalidLumpSize {
                lump: self.lump,
                element_size: size,
                lump_size: self.data.len(),
            });
        }
        let count = self.data.len() / size;
        proof {
            vstd::arithmetic::div_mod::lemma_fundamental_div_mod(
                self.bytes().len() as int,
                size as int,
            );
            assert(count * size == self.bytes().len()) by (nonlinear_arith)
                requires
                    count as int == self.bytes().len() as int / (size as int),
                    self.bytes().len() as int == size as int * (self.bytes().len() as int / (size as int)) + self.bytes().len() as int % (size as int),
                    self.bytes().len() as int % (size as int) == 0;
        }
        let mut out: Vec<T> = Vec::new();
        let mut i: usize = 0;
        while i < count
            invariant
                0 <= i <= count,
                count == self.bytes().len() as int / T::disk_size_ver_spec(self.version_spec()),
                self.bytes().len() as int % T::disk_size_ver_spec(self.version_spec()) == 0,
                size == T::disk_size_ver_spec(self.version_spec()),
                1 <= size,
                count * size == self.bytes().len(),
                self.bytes().len() <= usize::MAX,
                out@.len() == i,
                forall|k: int| 0 <= k < i ==> out@[k] == records_ver_spec::<T>(
                    self.bytes(),
                    self.version_spec(),
                )[k],
            decreases count - i,
        {
            proof {
                assert(i * size + size <= count * size && 0 <= i * size
                    && (i + 1) * size == i * size + size) by (nonlinear_arith)
                    requires 0 <= i < count, 1 <= size;
            }
            let piece = slice_subrange(self.data.as_slice(), i * size, i * size + size);
            let record = T::decode_ver(piece, self.version);
            proof {
                assert(piece@ == self.bytes().subrange(
                    i as int * T::disk_size_ver_spec(self.version_spec()),
                    (i as int + 1) * T::disk_size_ver_spec(self.version_spec()),
                ));
            }
            out.push(record);
            i = i + 1;
        }
        proof {
            assert(out@ =~= records_ver_spec::<T>(self.bytes(), self.version_spec()));
        }
        Ok(out)
    }

    /// Decodes one record out of the lump, starting at byte `at`.
    pub fn read<T: LumpRecord>(&self, at: usize) -> (r: Result<T, BspError>)
        ensures
            r is Ok <==> at + T::disk_size_spec() <= self.bytes().len(),
            r matches Ok(v) ==> v == T::decode_spec(
                self.bytes().subrange(at as int, at + T::disk_size_spec()),
            ),
            r is Err ==> r == Err::<T, BspError>(BspError::Truncated),
    {
        let size = T::disk_size();
        if at > self.data.len() || size > self.data.len() - at {
            return Err(BspError::Truncated);
        }
        let piece = slice_subrange(self.data.as_slice(), at, at + size);
        Ok(T::decode(piece))
    }

    /// Decodes one version-dependent record out of the lump, starting at
    /// byte `at`, under an explicitly supplied version argument.
    pub fn read_args<T: VersionedLumpRecord>(&self, at: usize, args: Version) -> (r: Result<T, BspError>)
        ensures
            r is Ok <==> at + T::disk_size_ver_spec(args.0) <= self.bytes().len(),
            r matches Ok(v) ==> v == T::decode_ver_spec(
                self.bytes().subrange(at as int, at + T::disk_size_ver_spec(args.0)),
                args.0,
            ),
            r is Err ==> r == Err::<T, BspError>(BspError::Truncated),
    {
        let size = T::disk_size_ver(args);
        if at > self.data.len() || size > self.data.len() - at {
            return Err(BspError::Truncated);
        }
        let piece = slice_subrange(self.data.as_slice(), at, at + size);
        Ok(T::decode_ver(piece, args))
    }
}

impl LumpReader {
    /// Decodes the visibility lump: a leading cluster count, one pair of
    /// offsets per cluster, and the trailing bit blob.  A lump smaller
    /// than two integers stands for an omitted visibility set and yields
    /// the empty default.
    pub fn read_visdata(&self) -> (r: Result<VisData, BspError>)
        ensures
            r is Ok <==> (self.bytes().len() < 8
                || 4 + 8 * le32(self.bytes(), 0) <= self.bytes().len()),
            r matches Ok(v) ==> crate::vis::visdata_decodes(v, self.bytes()) && v.wf(),
            r is Err ==> r == Err::<VisData, BspError>(BspError::Truncated),
    {
        let n = self.data.len();
        if n < 8 {
            return Ok(VisData::default());
        }
        let cluster_count = crate::bytes::read_u32(self.data.as_slice(), 0);
        let cc = cluster_count as usize;
        proof {
            vstd::arithmetic::div_mod::lemma_fundamental_div_mod((n - 4) as int, 8);
            vstd::arithmetic::div_mod::lemma_mod_bound((n - 4) as int, 8);
        }
        if cc > (n - 4) / 8 {
            proof {
                assert(4 + 8 * (cluster_count as int) > self.bytes().len());
            }
            return Err(BspError::Truncated);
        }
        proof {
            assert(4 + 8 * (cluster_count as int) <= self.bytes().len());
        }
        let mut pvs_offsets: Vec<u32> = Vec::new();
        let mut pas_offsets: Vec<u32> = Vec::new();
        let mut i: usize = 0;
        while i < cc
            invariant
                0 <= i <= cc,
                4 + 8 * (cc as int) <= self.bytes().len(),
                self.bytes().len() <= usize::MAX,
                pvs_offsets@.len() == i,
                pas_offsets@.len() == i,
                forall|k: int| 0 <= k < i ==> pvs_offsets@[k] == le32(self.bytes(), 4 + 8 * k),
                forall|k: int| 0 <= k < i ==> pas_offsets@[k] == le32(self.bytes(), 4 + 8 * k + 4),
            decreases cc - i,
        {
            pvs_offsets.push(crate::bytes::read_u32(self.data.as_slice(), 4 + 8 * i));
            pas_offsets.push(crate::bytes::read_u32(self.data.as_slice(), 4 + 8 * i + 4));
            i = i + 1;
        }
        let data = crate::bytes::copy_range(self.data.as_slice(), 4 + 8 * cc, n - (4 + 8 * cc));
        Ok(VisData { cluster_count, pvs_offsets, pas_offsets, data })
    }
}

} // verus!
