//! The binary container: header validation and the fixed-size lump directory.

use vstd::prelude::*;
use crate::bytes::{copy_range, le32, read_u8, read_u32};
use crate::error::BspError;
use crate::lzma::decompress_spec;

verus! {

/// The four magic bytes that open every supported file.
#[derive(Clone, Copy, Debug, PartialEq, Eq, Structural)]
pub struct Header {
    pub v: u8,
    pub b: u8,
    pub s: u8,
    pub p: u8,
}

/// One slot of the lump directory: a byte range into the source buffer,
/// a lump-specific version, and a compression id (0 = stored raw).
#[derive(Clone, Copy, Debug, PartialEq, Eq, Structural)]
pub struct LumpEntry {
    pub offset: u32,
    pub length: u32,
    pub version: u32,
    pub ident: u32,
}

/// The closed, order-significant enumeration of the 64 directory slots.
#[derive(Clone, Copy, Debug, PartialEq, Eq, Structural, Hash)]
pub enum LumpType {
    Entities,
    Planes,
    TextureData,
    Vertices,
    Visibility,
    Nodes,
    TextureInfo,
    Faces,
    Lighting,
    Occlusion,
    Leaves,
    FaceIds,
    Edges,
    SurfaceEdges,
    Models,
    WorldLights,
    LeafFaces,
    LeafBrushes,
    Brushes,
    BrushSides,
    Areas,
    AreaPortals,
    Unused0,
    Unused1,
    Unused2,
    Unused3,
    DisplacementInfo,
    OriginalFaces,
    PhysDisplacement,
    PhysCollide,
    VertNormals,
    VertNormalIndices,
    DisplacementLightMapAlphas,
    DisplacementVertices,
    DisplacementLightMapSamplePositions,
    GameLump,
    LeafWaterData,
    Primitives,
    PrimVertices,
    PrimIndices,
    PakFile,
    ClipPortalVertices,
    CubeMaps,
    TextureDataStringData,
    TextureDataStringTable,
    Overlays,
    LeafMinimumDistanceToWater,
    FaceMacroTextureInfo,
    DisplacementTris,
    PhysicsCollideSurface,
    WaterOverlays,
    LeafAmbientIndexHdr,
    LeafAmbientIndex,
    LightingHdr,
    WorldLightsHdr,
    LeafAmbientLightingHdr,
    LeafAmbientLighting,
    XZipPakFile,
    FacesHdr,
    MapFlags,
    OverlayFades,
    OverlaySystemLevels,
    PhysLevel,
    DisplacementMultiBlend,
}

/// Position of a lump's slot in the directory.
pub open spec fn lump_index_spec(l: LumpType) -> int {
    match l {
        LumpType::Entities => 0,
        LumpType::Planes => 1,
        LumpType::TextureData => 2,
        LumpType::Vertices => 3,
        LumpType::Visibility => 4,
        LumpType::Nodes => 5,
        LumpType::TextureInfo => 6,
        LumpType::Faces => 7,
        LumpType::Lighting => 8,
        LumpType::Occlusion => 9,
        LumpType::Leaves => 10,
        LumpType::FaceIds => 11,
        LumpType::Edges => 12,
        LumpType::SurfaceEdges => 13,
        LumpType::Models => 14,
        LumpType::WorldLights => 15,
        LumpType::LeafFaces => 16,
        LumpType::LeafBrushes => 17,
        LumpType::Brushes => 18,
        LumpType::BrushSides => 19,
        LumpType::Areas => 20,
        LumpType::AreaPortals => 21,
        LumpType::Unused0 => 22,
        LumpType::Unused1 => 23,
        LumpType::Unused2 => 24,
        LumpType::Unused3 => 25,
        LumpType::DisplacementInfo => 26,
        LumpType::OriginalFaces => 27,
        LumpType::PhysDisplacement => 28,
        LumpType::PhysCollide => 29,
        LumpType::VertNormals => 30,
        LumpType::VertNormalIndices => 31,
        LumpType::DisplacementLightMapAlphas => 32,
        LumpType::DisplacementVertices => 33,
        LumpType::DisplacementLightMapSamplePositions => 34,
        LumpType::GameLump => 35,
        LumpType::LeafWaterData => 36,
        LumpType::Primitives => 37,
        LumpType::PrimVertices => 38,
        LumpType::PrimIndices => 39,
        LumpType::PakFile => 40,
        LumpType::ClipPortalVertices => 41,
        LumpType::CubeMaps => 42,
        LumpType::TextureDataStringData => 43,
        LumpType::TextureDataStringTable => 44,
        LumpType::Overlays => 45,
        LumpType::LeafMinimumDistanceToWater => 46,
        LumpType::FaceMacroTextureInfo => 47,
        LumpType::DisplacementTris => 48,
        LumpType::PhysicsCollideSurface => 49,
        LumpType::WaterOverlays => 50,
        LumpType::LeafAmbientIndexHdr => 51,
        LumpType::LeafAmbientIndex => 52,
        LumpType::LightingHdr => 53,
        LumpType::WorldLightsHdr => 54,
        LumpType::LeafAmbientLightingHdr => 55,
        LumpType::LeafAmbientLighting => 56,
        LumpType::XZipPakFile => 57,
        LumpType::FacesHdr => 58,
        LumpType::MapFlags => 59,
        LumpType::OverlayFades => 60,
        LumpType::OverlaySystemLevels => 61,
        LumpType::PhysLevel => 62,
        LumpType::DisplacementMultiBlend => 63,
    }
}

/// Executable form of `lump_index_spec`.
pub fn lump_index(l: LumpType) -> (i: usize)
    ensures
        i as int == lump_index_spec(l),
        i < 64,
{
    match l {
        LumpType::Entities => 0,
        LumpType::Planes => 1,
        LumpType::TextureData => 2,
        LumpType::Vertices => 3,
        LumpType::Visibility => 4,
        LumpType::Nodes => 5,
        LumpType::TextureInfo => 6,
        LumpType::Faces => 7,
        LumpType::Lighting => 8,
        LumpType::Occlusion => 9,
        LumpType::Leaves => 10,
        LumpType::FaceIds => 11,
        LumpType::Edges => 12,
        LumpType::SurfaceEdges => 13,
        LumpType::Models => 14,
        LumpType::WorldLights => 15,
        LumpType::LeafFaces => 16,
        LumpType::LeafBrushes => 17,
        LumpType::Brushes => 18,
        LumpType::BrushSides => 19,
        LumpType::Areas => 20,
        LumpType::AreaPortals => 21,
        LumpType::Unused0 => 22,
        LumpType::Unused1 => 23,
        LumpType::Unused2 => 24,
        LumpType::Unused3 => 25,
        LumpType::DisplacementInfo => 26,
        LumpType::OriginalFaces => 27,
        LumpType::PhysDisplacement => 28,
        LumpType::PhysCollide => 29,
        LumpType::VertNormals => 30,
        LumpType::VertNormalIndices => 31,
        LumpType::DisplacementLightMapAlphas => 32,
        LumpType::DisplacementVertices => 33,
        LumpType::DisplacementLightMapSamplePositions => 34,
        LumpType::GameLump => 35,
        LumpType::LeafWaterData => 36,
        LumpType::Primitives => 37,
        LumpType::PrimVertices => 38,
        LumpType::PrimIndices => 39,
        LumpType::PakFile => 40,
        LumpType::ClipPortalVertices => 41,
        LumpType::CubeMaps => 42,
        LumpType::TextureDataStringData => 43,
        LumpType::TextureDataStringTable => 44,
        LumpType::Overlays => 45,
        LumpType::LeafMinimumDistanceToWater => 46,
        LumpType::FaceMacroTextureInfo => 47,
        LumpType::DisplacementTris => 48,
        LumpType::PhysicsCollideSurface => 49,
        LumpType::WaterOverlays => 50,
        LumpType::LeafAmbientIndexHdr => 51,
        LumpType::LeafAmbientIndex => 52,
        LumpType::LightingHdr => 53,
        LumpType::WorldLightsHdr => 54,
        LumpType::LeafAmbientLightingHdr => 55,
        LumpType::LeafAmbientLighting => 56,
        LumpType::XZipPakFile => 57,
        LumpType::FacesHdr => 58,
        LumpType::MapFlags => 59,
        LumpType::OverlayFades => 60,
        LumpType::OverlaySystemLevels => 61,
        LumpType::PhysLevel => 62,
        LumpType::DisplacementMultiBlend => 63,
    }
}

/// Bytes taken by the header, the directory and the trailing map revision.
pub open spec fn container_head_len() -> int {
    8 + 64 * 16 + 4int
}

/// The expected magic tag and version stand at the head of the buffer.
pub open spec fn magic_ok(s: Seq<u8>) -> bool {
    &&& s.len() >= 8
    &&& s[0] == 86u8  // 'V'
    &&& s[1] == 66u8  // 'B'
    &&& s[2] == 83u8  // 'S'
    &&& s[3] == 80u8  // 'P'
    &&& le32(s, 4) == 0x14
}

/// The four magic bytes of the buffer, as read by the header check.
pub open spec fn header_of(s: Seq<u8>) -> Header {
    Header { v: s[0], b: s[1], s: s[2], p: s[3] }
}

/// The directory entry in slot `i`, decoded from the buffer.
pub open spec fn entry_spec(s: Seq<u8>, i: int) -> LumpEntry {
    LumpEntry {
        offset: le32(s, 8 + 16 * i) as u32,
        length: le32(s, 8 + 16 * i + 4) as u32,
        version: le32(s, 8 + 16 * i + 8) as u32,
        ident: le32(s, 8 + 16 * i + 12) as u32,
    }
}

/// A buffer opens as a container exactly when the magic tag and version
/// match and the fixed-size head fits.
pub open spec fn container_ok(s: Seq<u8>) -> bool {
    magic_ok(s) && s.len() >= container_head_len()
}

/// A validated container: the source buffer, its directory, and its header.
pub struct BspFile<'a> {
    pub(crate) data: &'a [u8],
    pub(crate) directories: Vec<LumpEntry>,
    pub(crate) header: Header,
    pub(crate) map_revision: u32,
}

impl<'a> BspFile<'a> {
    /// The source buffer the container was opened over.
    pub closed spec fn src(self) -> Seq<u8> {
        self.data@
    }

    /// The decoded lump directory.
    pub closed spec fn dir(self) -> Seq<LumpEntry> {
        self.directories@
    }

    /// The header bytes kept by the container.
    pub closed spec fn hdr(self) -> Header {
        self.header
    }

    /// The trailing map revision integer.
    pub closed spec fn revision(self) -> u32 {
        self.map_revision
    }

    /// The directory holds one entry per slot and mirrors the buffer.
    pub open spec fn wf(self) -> bool {
        &&& self.dir().len() == 64
        &&& forall|i: int| 0 <= i < 64 ==> self.dir()[i] == entry_spec(self.src(), i)
        &&& container_ok(self.src())
    }

    /// Validates the magic tag and version, then reads the 64-entry lump
    /// directory and the trailing map revision.
    pub fn new(data: &'a [u8]) -> (r: Result<Self, BspError>)
        ensures
            r is Ok <==> container_ok(data@),
            data@.len() < 8 ==> r == Err::<Self, BspError>(BspError::Truncated),
            data@.len() >= 8 && !magic_ok(data@) ==> r == Err::<Self, BspError>(
                BspError::UnexpectedHeader(header_of(data@)),
            ),
            magic_ok(data@) && data@.len() < container_head_len() ==> r == Err::<Self, BspError>(
                BspError::Truncated,
            ),
            r matches Ok(f) ==> {
                &&& f.wf()
                &&& f.src() == data@
                &&& f.hdr() == header_of(data@)
                &&& f.revision() == le32(data@, 8 + 64 * 16int)
            },
    {
        if data.len() < 8 {
            return Err(BspError::Truncated);
        }
        let header = Header {
            v: read_u8(data, 0),
            b: read_u8(data, 1),
            s: read_u8(data, 2),
            p: read_u8(data, 3),
        };
        let version = read_u32(data, 4);
        if !(header.v == 86 && header.b == 66 && header.s == 83 && header.p == 80)
            || version != 0x14 {
            return Err(BspError::UnexpectedHeader(header));
        }
        if data.len() < 8 + 64 * 16 + 4 {
            return Err(BspError::Truncated);
        }
        let mut directories: Vec<LumpEntry> = Vec::new();
        let mut i: usize = 0;
        while i < 64
            invariant
                0 <= i <= 64,
                directories@.len() == i,
                forall|k: int| 0 <= k < i ==> directories@[k] == entry_spec(data@, k),
                data@.len() >= container_head_len(),
            decreases 64 - i,
        {
            let base = 8 + 16 * i;
            let entry = LumpEntry {
                offset: read_u32(data, base),
                length: read_u32(data, base + 4),
                version: read_u32(data, base + 8),
                ident: read_u32(data, base + 12),
            };
            directories.push(entry);
            i = i + 1;
        }
        let map_revision = read_u32(data, 8 + 64 * 16);
        Ok(BspFile { data, directories, header, map_revision })
    }

    /// The validated header bytes.
    pub fn header(&self) -> (h: &Header)
        ensures
            h == self.hdr(),
    {
        &self.header
    }

    /// Resolves a lump and wraps it for record decoding.
    pub fn lump_reader(&self, lump: LumpType) -> (r: Result<crate::reader::LumpReader, BspError>)
        requires
            self.wf(),
        ensures
            ({
                let entry = entry_spec(self.src(), lump_index_spec(lump));
                &&& r is Ok <==> lump_data_spec(self.src(), entry) is Some
                &&& r matches Ok(lr) ==> Some(lr.bytes()) == lump_data_spec(self.src(), entry)
                    && lr.version_spec() == entry.version && lr.lump_spec() == lump
                &&& entry.offset + entry.length > self.src().len() ==> r
                    == Err::<crate::reader::LumpReader, BspError>(BspError::LumpOutOfBounds(entry))
                &&& entry.offset + entry.length <= self.src().len() && entry.ident != 0
                    && decompress_spec(lump_raw_spec(self.src(), entry)) is None ==> r
                    == Err::<crate::reader::LumpReader, BspError>(BspError::Decompression)
            }),
    {
        match self.get_lump(lump) {
            Ok((version, data)) => Ok(crate::reader::LumpReader::new(data, version, lump)),
            Err(e) => Err(e),
        }
    }

    /// Resolves a lump: slices the directory-addressed byte range out of
    /// the source buffer and, for a nonzero compression id, decompresses
    /// the payload.  Both branches return one owned byte buffer, so
    /// callers are agnostic to which happened.
    pub fn get_lump(&self, lump_t: LumpType) -> (r: Result<(u32, Vec<u8>), BspError>)
        requires
            self.wf(),
        ensures
            ({
                let entry = entry_spec(self.src(), lump_index_spec(lump_t));
                &&& r is Ok <==> lump_data_spec(self.src(), entry) is Some
                &&& r matches Ok(v) ==> Some(v.1@) == lump_data_spec(self.src(), entry)
                    && v.0 == entry.version
                &&& entry.offset + entry.length > self.src().len() ==> r == Err::<(u32, Vec<u8>), BspError>(
                    BspError::LumpOutOfBounds(entry),
                )
                &&& entry.offset + entry.length <= self.src().len() && entry.ident != 0
                    && decompress_spec(lump_raw_spec(self.src(), entry)) is None
                    ==> r == Err::<(u32, Vec<u8>), BspError>(BspError::Decompression)
            }),
    {
        let idx = lump_index(lump_t);
        let entry = self.directories[idx];
        proof {
            assert(entry == entry_spec(self.src(), lump_index_spec(lump_t)));
        }
        if entry.offset as u64 + entry.length as u64 > self.data.len() as u64 {
            return Err(BspError::LumpOutOfBounds(entry));
        }
        let raw = copy_range(self.data, entry.offset as usize, entry.length as usize);
        if entry.ident == 0 {
            Ok((entry.version, raw))
        } else {
            match crate::lzma::decompress_lump(raw.as_slice()) {
                Ok(data) => Ok((entry.version, data)),
                Err(e) => Err(e),
            }
        }
    }
}

/// Resolving a lump stored with compression id 0 gives back exactly the
/// byte range its directory entry addresses: the identity round trip.
pub proof fn lemma_stored_lump_identity(src: Seq<u8>, entry: LumpEntry)
    requires
        entry.ident == 0,
        entry.offset + entry.length <= src.len(),
    ensures
        lump_data_spec(src, entry) == Some(src.subrange(entry.offset as int, entry.offset + entry.length)),
{
}

/// The raw byte range a directory entry addresses.
pub open spec fn lump_raw_spec(src: Seq<u8>, entry: LumpEntry) -> Seq<u8> {
    src.subrange(entry.offset as int, entry.offset + entry.length)
}

/// What resolving a lump yields: `None` where the directory entry runs
/// outside the buffer or the compressed payload is rejected; otherwise the
/// stored bytes (compression id 0) or the decompressed bytes.
pub open spec fn lump_data_spec(src: Seq<u8>, entry: LumpEntry) -> Option<Seq<u8>> {
    if entry.offset + entry.length > src.len() {
        None
    } else if entry.ident == 0 {
        Some(lump_raw_spec(src, entry))
    } else {
        decompress_spec(lump_raw_spec(src, entry))
    }
}

} // verus!
