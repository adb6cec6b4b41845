//! The typed records held by the lumps, with their fixed on-disk layouts.
//!
//! Every multi-byte field is little-endian and packed: a record consumes
//! exactly its declared byte width, with no implicit alignment.

use vstd::prelude::*;
use crate::bytes::{le16, le32, le16_signed, le32_signed, read_u8, read_u16, read_u32, read_i16, read_i32};
use crate::reader::{LumpRecord, Version, VersionedLumpRecord};

verus! {

/// A three-component point or direction with integer coordinates.
#[derive(Clone, Copy, Debug, PartialEq, Eq, Structural)]
pub struct Vector {
    pub x: i32,
    pub y: i32,
    pub z: i32,
}

/// The vector packed at offset `at` of `s`: three signed 32-bit fields.
pub open spec fn vector_spec(s: Seq<u8>, at: int) -> Vector {
    Vector {
        x: le32_signed(s, at) as i32,
        y: le32_signed(s, at + 4) as i32,
        z: le32_signed(s, at + 8) as i32,
    }
}

/// Reads the three packed coordinates of a vector.
pub fn read_vector(data: &[u8], at: usize) -> (r: Vector)
    requires
        at + 12 <= data@.len(),
    ensures
        r == vector_spec(data@, at as int),
{
    let n = data.len();
    Vector {
        x: read_i32(data, at),
        y: read_i32(data, at + 4),
        z: read_i32(data, at + 8),
    }
}

/// A splitting plane: a normal direction and a distance along it.
#[derive(Clone, Copy, Debug, PartialEq, Eq, Structural)]
pub struct Plane {
    pub normal: Vector,
    pub dist: i32,
    pub plane_type: i32,
}

impl LumpRecord for Plane {
    open spec fn disk_size_spec() -> int {
        20
    }

    open spec fn decode_spec(s: Seq<u8>) -> Self {
        Plane {
            normal: vector_spec(s, 0),
            dist: le32_signed(s, 12) as i32,
            plane_type: le32_signed(s, 16) as i32,
        }
    }

    fn disk_size() -> usize {
        20
    }

    fn decode(data: &[u8]) -> Self {
        Plane {
            normal: read_vector(data, 0),
            dist: read_i32(data, 12),
            plane_type: read_i32(data, 16),
        }
    }
}

/// One map vertex.
#[derive(Clone, Copy, Debug, PartialEq, Eq, Structural)]
pub struct Vertex {
    pub position: Vector,
}

impl LumpRecord for Vertex {
    open spec fn disk_size_spec() -> int {
        12
    }

    open spec fn decode_spec(s: Seq<u8>) -> Self {
        Vertex { position: vector_spec(s, 0) }
    }

    fn disk_size() -> usize {
        12
    }

    fn decode(data: &[u8]) -> Self {
        Vertex { position: read_vector(data, 0) }
    }
}

/// One edge: the two vertex indices it joins.
#[derive(Clone, Copy, Debug, PartialEq, Eq, Structural)]
pub struct Edge {
    pub start_index: u16,
    pub end_index: u16,
}

impl LumpRecord for Edge {
    open spec fn disk_size_spec() -> int {
        4
    }

    open spec fn decode_spec(s: Seq<u8>) -> Self {
        Edge {
            start_index: le16(s, 0) as u16,
            end_index: le16(s, 2) as u16,
        }
    }

    fn disk_size() -> usize {
        4
    }

    fn decode(data: &[u8]) -> Self {
        Edge {
            start_index: read_u16(data, 0),
            end_index: read_u16(data, 2),
        }
    }
}

/// One surface-edge: a signed reference into the edge array.
#[derive(Clone, Copy, Debug, PartialEq, Eq, Structural)]
pub struct SurfaceEdge {
    pub edge: i32,
}

impl LumpRecord for SurfaceEdge {
    open spec fn disk_size_spec() -> int {
        4
    }

    open spec fn decode_spec(s: Seq<u8>) -> Self {
        SurfaceEdge { edge: le32_signed(s, 0) as i32 }
    }

    fn disk_size() -> usize {
        4
    }

    fn decode(data: &[u8]) -> Self {
        SurfaceEdge { edge: read_i32(data, 0) }
    }
}

/// One leaf-face cross reference.
#[derive(Clone, Copy, Debug, PartialEq, Eq, Structural)]
pub struct LeafFace {
    pub face: u16,
}

impl LumpRecord for LeafFace {
    open spec fn disk_size_spec() -> int {
        2
    }

    open spec fn decode_spec(s: Seq<u8>) -> Self {
        LeafFace { face: le16(s, 0) as u16 }
    }

    fn disk_size() -> usize {
        2
    }

    fn decode(data: &[u8]) -> Self {
        LeafFace { face: read_u16(data, 0) }
    }
}

/// One leaf-brush cross reference.
#[derive(Clone, Copy, Debug, PartialEq, Eq, Structural)]
pub struct LeafBrush {
    pub brush: u16,
}

impl LumpRecord for LeafBrush {
    open spec fn disk_size_spec() -> int {
        2
    }

    open spec fn decode_spec(s: Seq<u8>) -> Self {
        LeafBrush { brush: le16(s, 0) as u16 }
    }

    fn disk_size() -> usize {
        2
    }

    fn decode(data: &[u8]) -> Self {
        LeafBrush { brush: read_u16(data, 0) }
    }
}

/// One brush: a run of brush sides and a contents mask.
#[derive(Clone, Copy, Debug, PartialEq, Eq, Structural)]
pub struct Brush {
    pub first_side: i32,
    pub side_count: i32,
    pub contents: i32,
}

impl LumpRecord for Brush {
    open spec fn disk_size_spec() -> int {
        12
    }

    open spec fn decode_spec(s: Seq<u8>) -> Self {
        Brush {
            first_side: le32_signed(s, 0) as i32,
            side_count: le32_signed(s, 4) as i32,
            contents: le32_signed(s, 8) as i32,
        }
    }

    fn disk_size() -> usize {
        12
    }

    fn decode(data: &[u8]) -> Self {
        Brush {
            first_side: read_i32(data, 0),
            side_count: read_i32(data, 4),
            contents: read_i32(data, 8),
        }
    }
}

/// One brush side.
#[derive(Clone, Copy, Debug, PartialEq, Eq, Structural)]
pub struct BrushSide {
    pub plane: u16,
    pub texture_info: i16,
    pub displacement_info: i16,
    pub bevel: i16,
}

impl LumpRecord for BrushSide {
    open spec fn disk_size_spec() -> int {
        8
    }

    open spec fn decode_spec(s: Seq<u8>) -> Self {
        BrushSide {
            plane: le16(s, 0) as u16,
            texture_info: le16_signed(s, 2) as i16,
            displacement_info: le16_signed(s, 4) as i16,
            bevel: le16_signed(s, 6) as i16,
        }
    }

    fn disk_size() -> usize {
        8
    }

    fn decode(data: &[u8]) -> Self {
        BrushSide {
            plane: read_u16(data, 0),
            texture_info: read_i16(data, 2),
            displacement_info: read_i16(data, 4),
            bevel: read_i16(data, 6),
        }
    }
}

/// One model: a bounding box, a tree root, and a run of faces.
#[derive(Clone, Copy, Debug, PartialEq, Eq, Structural)]
pub struct Model {
    pub mins: Vector,
    pub maxs: Vector,
    pub origin: Vector,
    pub head_node: i32,
    pub first_face: i32,
    pub face_count: i32,
}

impl LumpRecord for Model {
    open spec fn disk_size_spec() -> int {
        48
    }

    open spec fn decode_spec(s: Seq<u8>) -> Self {
        Model {
            mins: vector_spec(s, 0),
            maxs: vector_spec(s, 12),
            origin: vector_spec(s, 24),
            head_node: le32_signed(s, 36) as i32,
            first_face: le32_signed(s, 40) as i32,
            face_count: le32_signed(s, 44) as i32,
        }
    }

    fn disk_size() -> usize {
        48
    }

    fn decode(data: &[u8]) -> Self {
        Model {
            mins: read_vector(data, 0),
            maxs: read_vector(data, 12),
            origin: read_vector(data, 24),
            head_node: read_i32(data, 36),
            first_face: read_i32(data, 40),
            face_count: read_i32(data, 44),
        }
    }
}

/// One internal node of the spatial tree.  A non-negative child value is
/// a node index; a negative child value encodes a leaf index as its
/// bitwise complement.
#[derive(Clone, Copy, Debug, PartialEq, Eq)]
pub struct Node {
    pub plane_index: i32,
    pub children: [i32; 2],
    pub mins: [i16; 3],
    pub maxs: [i16; 3],
    pub first_face: u16,
    pub face_count: u16,
    pub area: i16,
    pub padding: i16,
}

impl LumpRecord for Node {
    open spec fn disk_size_spec() -> int {
        32
    }

    open spec fn decode_spec(s: Seq<u8>) -> Self {
        Node {
            plane_index: le32_signed(s, 0) as i32,
            children: [le32_signed(s, 4) as i32, le32_signed(s, 8) as i32],
            mins: [le16_signed(s, 12) as i16, le16_signed(s, 14) as i16, le16_signed(s, 16) as i16],
            maxs: [le16_signed(s, 18) as i16, le16_signed(s, 20) as i16, le16_signed(s, 22) as i16],
            first_face: le16(s, 24) as u16,
            face_count: le16(s, 26) as u16,
            area: le16_signed(s, 28) as i16,
            padding: le16_signed(s, 30) as i16,
        }
    }

    fn disk_size() -> usize {
        32
    }

    fn decode(data: &[u8]) -> Self {
        Node {
            plane_index: read_i32(data, 0),
            children: [read_i32(data, 4), read_i32(data, 8)],
            mins: [read_i16(data, 12), read_i16(data, 14), read_i16(data, 16)],
            maxs: [read_i16(data, 18), read_i16(data, 20), read_i16(data, 22)],
            first_face: read_u16(data, 24),
            face_count: read_u16(data, 26),
            area: read_i16(data, 28),
            padding: read_i16(data, 30),
        }
    }
}

/// One terminal leaf of the spatial tree: its visibility cluster and its
/// runs of referencing faces and brushes.
#[derive(Clone, Copy, Debug, PartialEq, Eq)]
pub struct Leaf {
    pub contents: i32,
    pub cluster: i16,
    pub area_flags: i16,
    pub mins: [i16; 3],
    pub maxs: [i16; 3],
    pub first_leaf_face: u16,
    pub leaf_face_count: u16,
    pub first_leaf_brush: u16,
    pub leaf_brush_count: u16,
    pub leaf_water_data_id: i16,
    pub padding: i16,
}

impl Default for Leaf {
    /// A leaf with every field zero.
    fn default() -> (r: Self)
        ensures
            r == (Leaf {
                contents: 0,
                cluster: 0,
                area_flags: 0,
                mins: [0, 0, 0],
                maxs: [0, 0, 0],
                first_leaf_face: 0,
                leaf_face_count: 0,
                first_leaf_brush: 0,
                leaf_brush_count: 0,
                leaf_water_data_id: 0,
                padding: 0,
            }),
    {
        Leaf {
            contents: 0,
            cluster: 0,
            area_flags: 0,
            mins: [0, 0, 0],
            maxs: [0, 0, 0],
            first_leaf_face: 0,
            leaf_face_count: 0,
            first_leaf_brush: 0,
            leaf_brush_count: 0,
            leaf_water_data_id: 0,
            padding: 0,
        }
    }
}

/// The leaf fields shared by every layout version.
pub open spec fn leaf_fields_spec(s: Seq<u8>) -> Leaf {
    Leaf {
        contents: le32_signed(s, 0) as i32,
        cluster: le16_signed(s, 4) as i16,
        area_flags: le16_signed(s, 6) as i16,
        mins: [le16_signed(s, 8) as i16, le16_signed(s, 10) as i16, le16_signed(s, 12) as i16],
        maxs: [le16_signed(s, 14) as i16, le16_signed(s, 16) as i16, le16_signed(s, 18) as i16],
        first_leaf_face: le16(s, 20) as u16,
        leaf_face_count: le16(s, 22) as u16,
        first_leaf_brush: le16(s, 24) as u16,
        leaf_brush_count: le16(s, 26) as u16,
        leaf_water_data_id: le16_signed(s, 28) as i16,
        padding: le16_signed(s, 30) as i16,
    }
}

impl VersionedLumpRecord for Leaf {
    /// Version 0 leaves additionally carry packed ambient lighting, read
    /// past and discarded; later versions are 32 bytes.
    open spec fn disk_size_ver_spec(version: u32) -> int {
        if version == 0 {
            56
        } else {
            32
        }
    }

    open spec fn decode_ver_spec(s: Seq<u8>, version: u32) -> Self {
        leaf_fields_spec(s)
    }

    fn disk_size_ver(version: Version) -> usize {
        if version.0 == 0 {
            56
        } else {
            32
        }
    }

    fn decode_ver(data: &[u8], version: Version) -> Self {
        Leaf {
            contents: read_i32(data, 0),
            cluster: read_i16(data, 4),
            area_flags: read_i16(data, 6),
            mins: [read_i16(data, 8), read_i16(data, 10), read_i16(data, 12)],
            maxs: [read_i16(data, 14), read_i16(data, 16), read_i16(data, 18)],
            first_leaf_face: read_u16(data, 20),
            leaf_face_count: read_u16(data, 22),
            first_leaf_brush: read_u16(data, 24),
            leaf_brush_count: read_u16(data, 26),
            leaf_water_data_id: read_i16(data, 28),
            padding: read_i16(data, 30),
        }
    }
}

/// One face: its plane, its run of surface edges, and its lighting data.
#[derive(Clone, Copy, Debug, PartialEq, Eq)]
pub struct Face {
    pub plane_index: u16,
    pub side: u8,
    pub on_node: u8,
    pub first_edge: i32,
    pub edge_count: i16,
    pub texture_info: i16,
    pub displacement_info: i16,
    pub surface_fog_volume_id: i16,
    pub styles: [u8; 4],
    pub light_offset: i32,
    pub area: i32,
    pub lightmap_texture_mins: [i32; 2],
    pub lightmap_texture_size: [i32; 2],
    pub original_face: i32,
    pub primitive_count: u16,
    pub first_primitive: u16,
    pub smoothing_groups: u32,
}

impl LumpRecord for Face {
    open spec fn disk_size_spec() -> int {
        56
    }

    open spec fn decode_spec(s: Seq<u8>) -> Self {
        Face {
            plane_index: le16(s, 0) as u16,
            side: s[2],
            on_node: s[3],
            first_edge: le32_signed(s, 4) as i32,
            edge_count: le16_signed(s, 8) as i16,
            texture_info: le16_signed(s, 10) as i16,
            displacement_info: le16_signed(s, 12) as i16,
            surface_fog_volume_id: le16_signed(s, 14) as i16,
            styles: [s[16], s[17], s[18], s[19]],
            light_offset: le32_signed(s, 20) as i32,
            area: le32_signed(s, 24) as i32,
            lightmap_texture_mins: [le32_signed(s, 28) as i32, le32_signed(s, 32) as i32],
            lightmap_texture_size: [le32_signed(s, 36) as i32, le32_signed(s, 40) as i32],
            original_face: le32_signed(s, 44) as i32,
            primitive_count: le16(s, 48) as u16,
            first_primitive: le16(s, 50) as u16,
            smoothing_groups: le32(s, 52) as u32,
        }
    }

    fn disk_size() -> usize {
        56
    }

    fn decode(data: &[u8]) -> Self {
        Face {
            plane_index: read_u16(data, 0),
            side: read_u8(data, 2),
            on_node: read_u8(data, 3),
            first_edge: read_i32(data, 4),
            edge_count: read_i16(data, 8),
            texture_info: read_i16(data, 10),
            displacement_info: read_i16(data, 12),
            surface_fog_volume_id: read_i16(data, 14),
            styles: [read_u8(data, 16), read_u8(data, 17), read_u8(data, 18), read_u8(data, 19)],
            light_offset: read_i32(data, 20),
            area: read_i32(data, 24),
            lightmap_texture_mins: [read_i32(data, 28), read_i32(data, 32)],
            lightmap_texture_size: [read_i32(data, 36), read_i32(data, 40)],
            original_face: read_i32(data, 44),
            primitive_count: read_u16(data, 48),
            first_primitive: read_u16(data, 50),
            smoothing_groups: read_u32(data, 52),
        }
    }
}

/// A four-component projection row of a texture mapping.
#[derive(Clone, Copy, Debug, PartialEq, Eq, Structural)]
pub struct TextureAxis {
    pub x: i32,
    pub y: i32,
    pub z: i32,
    pub w: i32,
}

/// The axis packed at offset `at` of `s`: four signed 32-bit fields.
pub open spec fn texture_axis_spec(s: Seq<u8>, at: int) -> TextureAxis {
    TextureAxis {
        x: le32_signed(s, at) as i32,
        y: le32_signed(s, at + 4) as i32,
        z: le32_signed(s, at + 8) as i32,
        w: le32_signed(s, at + 12) as i32,
    }
}

fn read_texture_axis(data: &[u8], at: usize) -> (r: TextureAxis)
    requires
        at + 16 <= data@.len(),
    ensures
        r == texture_axis_spec(data@, at as int),
{
    let n = data.len();
    TextureAxis {
        x: read_i32(data, at),
        y: read_i32(data, at + 4),
        z: read_i32(data, at + 8),
        w: read_i32(data, at + 12),
    }
}

/// One texture-info record: mapping axes, surface flags, and a reference
/// into the texture-data array.
#[derive(Clone, Copy, Debug, PartialEq, Eq, Structural)]
pub struct TextureInfo {
    pub texture_s: TextureAxis,
    pub texture_t: TextureAxis,
    pub lightmap_s: TextureAxis,
    pub lightmap_t: TextureAxis,
    pub flags: u32,
    pub texture_data_index: i32,
}

impl LumpRecord for TextureInfo {
    open spec fn disk_size_spec() -> int {
        72
    }

    open spec fn decode_spec(s: Seq<u8>) -> Self {
        TextureInfo {
            texture_s: texture_axis_spec(s, 0),
            texture_t: texture_axis_spec(s, 16),
            lightmap_s: texture_axis_spec(s, 32),
            lightmap_t: texture_axis_spec(s, 48),
            flags: le32(s, 64) as u32,
            texture_data_index: le32_signed(s, 68) as i32,
        }
    }

    fn disk_size() -> usize {
        72
    }

    fn decode(data: &[u8]) -> Self {
        TextureInfo {
            texture_s: read_texture_axis(data, 0),
            texture_t: read_texture_axis(data, 16),
            lightmap_s: read_texture_axis(data, 32),
            lightmap_t: read_texture_axis(data, 48),
            flags: read_u32(data, 64),
            texture_data_index: read_i32(data, 68),
        }
    }
}

/// One texture-data record: its reflectivity, its sizes, and a reference
/// into the shared name string table.
#[derive(Clone, Copy, Debug, PartialEq, Eq, Structural)]
pub struct TextureData {
    pub reflectivity: Vector,
    pub name_string_table_id: i32,
    pub width: i32,
    pub height: i32,
    pub view_width: i32,
    pub view_height: i32,
}

impl LumpRecord for TextureData {
    open spec fn disk_size_spec() -> int {
        32
    }

    open spec fn decode_spec(s: Seq<u8>) -> Self {
        TextureData {
            reflectivity: vector_spec(s, 0),
            name_string_table_id: le32_signed(s, 12) as i32,
            width: le32_signed(s, 16) as i32,
            height: le32_signed(s, 20) as i32,
            view_width: le32_signed(s, 24) as i32,
            view_height: le32_signed(s, 28) as i32,
        }
    }

    fn disk_size() -> usize {
        32
    }

    fn decode(data: &[u8]) -> Self {
        TextureData {
            reflectivity: read_vector(data, 0),
            name_string_table_id: read_i32(data, 12),
            width: read_i32(data, 16),
            height: read_i32(data, 20),
            view_width: read_i32(data, 24),
            view_height: read_i32(data, 28),
        }
    }
}

/// One displacement-info record; only the leading cross references are
/// decoded, the neighbour tables are read past and discarded.
#[derive(Clone, Copy, Debug, PartialEq, Eq, Structural)]
pub struct DisplacementInfo {
    pub start_position: Vector,
    pub disp_vert_start: i32,
    pub disp_tri_start: i32,
    pub power: i32,
    pub min_tess: i32,
    pub smoothing_angle: i32,
    pub contents: i32,
    pub map_face: u16,
    pub lightmap_alpha_start: i32,
    pub lightmap_sample_position_start: i32,
}

impl LumpRecord for DisplacementInfo {
    open spec fn disk_size_spec() -> int {
        176
    }

    open spec fn decode_spec(s: Seq<u8>) -> Self {
        DisplacementInfo {
            start_position: vector_spec(s, 0),
            disp_vert_start: le32_signed(s, 12) as i32,
            disp_tri_start: le32_signed(s, 16) as i32,
            power: le32_signed(s, 20) as i32,
            min_tess: le32_signed(s, 24) as i32,
            smoothing_angle: le32_signed(s, 28) as i32,
            contents: le32_signed(s, 32) as i32,
            map_face: le16(s, 36) as u16,
            lightmap_alpha_start: le32_signed(s, 40) as i32,
            lightmap_sample_position_start: le32_signed(s, 44) as i32,
        }
    }

    fn disk_size() -> usize {
        176
    }

    fn decode(data: &[u8]) -> Self {
        DisplacementInfo {
            start_position: read_vector(data, 0),
            disp_vert_start: read_i32(data, 12),
            disp_tri_start: read_i32(data, 16),
            power: read_i32(data, 20),
            min_tess: read_i32(data, 24),
            smoothing_angle: read_i32(data, 28),
            contents: read_i32(data, 32),
            map_face: read_u16(data, 36),
            lightmap_alpha_start: read_i32(data, 40),
            lightmap_sample_position_start: read_i32(data, 44),
        }
    }
}

/// One entry of the texture name string table: a byte offset into the
/// shared name string blob.
#[derive(Clone, Copy, Debug, PartialEq, Eq, Structural)]
pub struct TextureStringTableEntry {
    pub offset: u32,
}

impl LumpRecord for TextureStringTableEntry {
    open spec fn disk_size_spec() -> int {
        4
    }

    open spec fn decode_spec(s: Seq<u8>) -> Self {
        TextureStringTableEntry { offset: le32(s, 0) as u32 }
    }

    fn disk_size() -> usize {
        4
    }

    fn decode(data: &[u8]) -> Self {
        TextureStringTableEntry { offset: read_u32(data, 0) }
    }
}

} // verus!
