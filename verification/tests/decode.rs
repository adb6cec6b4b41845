use vbsp::{Bsp, BspError, BspFile, Header, Leaf, Leaves, LumpType, VisData};
use vbsp::entity::Entities;
use vbsp::data::{Node, Plane, TextureData, TextureStringTableEntry, Vector};
use vbsp::reader::LumpReader;

const HEAD_LEN: usize = 8 + 64 * 16 + 4;

/// Builds a container whose directory holds the given lumps, each a
/// `(slot, payload, version, compression id)` tuple.
fn build_container(lumps: &[(usize, Vec<u8>, u32, u32)]) -> Vec<u8> {
    let mut data = vec![0u8; HEAD_LEN];
    data[0] = b'V';
    data[1] = b'B';
    data[2] = b'S';
    data[3] = b'P';
    data[4..8].copy_from_slice(&0x14u32.to_le_bytes());
    for (slot, payload, version, ident) in lumps {
        let offset = data.len() as u32;
        let base = 8 + 16 * slot;
        data.extend_from_slice(payload);
        let dir = &mut data[base..base + 16];
        dir[0..4].copy_from_slice(&offset.to_le_bytes());
        dir[4..8].copy_from_slice(&(payload.len() as u32).to_le_bytes());
        dir[8..12].copy_from_slice(&version.to_le_bytes());
        dir[12..16].copy_from_slice(&ident.to_le_bytes());
    }
    data
}

fn minimal_file() -> Vec<u8> {
    build_container(&[])
}

#[test]
fn decode_succeeds_on_minimal_valid_file() {
    let bsp = Bsp::read(&minimal_file()).unwrap();
    assert_eq!(
        bsp.header,
        Header { v: b'V', b: b'B', s: b'S', p: b'P' }
    );
    assert!(bsp.planes.is_empty());
    assert!(bsp.nodes.is_empty());
    assert_eq!(bsp.vis_data.cluster_count, 0);
}

#[test]
fn decode_rejects_every_single_byte_header_corruption() {
    for pos in 0..8 {
        let mut data = minimal_file();
        data[pos] ^= 0x40;
        match Bsp::read(&data) {
            Err(BspError::UnexpectedHeader(h)) => {
                let expected = Header {
                    v: data[0],
                    b: data[1],
                    s: data[2],
                    p: data[3],
                };
                assert_eq!(h, expected);
            }
            other => panic!("corruption at {} not detected: {:?}", pos, other),
        }
    }
}

#[test]
fn decode_rejects_truncated_buffers() {
    assert!(matches!(Bsp::read(&[]), Err(BspError::Truncated)));
    let data = minimal_file();
    assert!(matches!(Bsp::read(&data[..5]), Err(BspError::Truncated)));
    assert!(matches!(Bsp::read(&data[..100]), Err(BspError::Truncated)));
}

#[test]
fn lump_size_mismatch_names_lump_size_and_length() {
    // a planes lump of 7 bytes is not a multiple of the 20-byte record
    let data = build_container(&[(1, vec![0u8; 7], 0, 0)]);
    match Bsp::read(&data) {
        Err(BspError::InvalidLumpSize { lump, element_size, lump_size }) => {
            assert_eq!(lump, LumpType::Planes);
            assert_eq!(element_size, 20);
            assert_eq!(lump_size, 7);
        }
        other => panic!("expected size mismatch, got {:?}", other),
    }
}

#[test]
fn lump_size_mismatch_through_reader_for_other_lumps() {
    let reader = LumpReader::new(vec![0u8; 33], 0, LumpType::Nodes);
    match reader.read_vec::<Node>() {
        Err(BspError::InvalidLumpSize { lump, element_size, lump_size }) => {
            assert_eq!(lump, LumpType::Nodes);
            assert_eq!(element_size, 32);
            assert_eq!(lump_size, 33);
        }
        other => panic!("expected size mismatch, got {:?}", other),
    }
    let reader = LumpReader::new(vec![0u8; 3], 0, LumpType::TextureData);
    match reader.read_vec::<TextureData>() {
        Err(BspError::InvalidLumpSize { lump, element_size, lump_size }) => {
            assert_eq!(lump, LumpType::TextureData);
            assert_eq!(element_size, 32);
            assert_eq!(lump_size, 3);
        }
        other => panic!("expected size mismatch, got {:?}", other),
    }
}

#[test]
fn stored_lump_round_trips_exactly() {
    let payload = b"hello lump bytes".to_vec();
    let data = build_container(&[(0, payload.clone(), 9, 0)]);
    let file = BspFile::new(&data).unwrap();
    let (version, bytes) = file.get_lump(LumpType::Entities).unwrap();
    assert_eq!(version, 9);
    assert_eq!(bytes, payload);
}

#[test]
fn out_of_bounds_lump_is_reported_per_entry() {
    let mut data = minimal_file();
    // entry 1 (planes): offset far beyond the buffer
    let base = 8 + 16;
    data[base..base + 4].copy_from_slice(&0xffff_0000u32.to_le_bytes());
    data[base + 4..base + 8].copy_from_slice(&32u32.to_le_bytes());
    let file = BspFile::new(&data).unwrap();
    match file.get_lump(LumpType::Planes) {
        Err(BspError::LumpOutOfBounds(entry)) => {
            assert_eq!(entry.offset, 0xffff_0000);
            assert_eq!(entry.length, 32);
        }
        other => panic!("expected out-of-bounds, got {:?}", other),
    }
}

#[test]
fn compressed_lump_decompresses_through_the_codec() {
    let original: Vec<u8> = (0..200u32).map(|i| (i % 7) as u8).collect();
    let mut stream = Vec::new();
    lzma_rs::lzma_compress(&mut original.as_slice(), &mut stream).unwrap();
    // stream: 5 property bytes, 8-byte unpacked size, payload
    let mut payload = Vec::new();
    payload.extend_from_slice(b"LZMA");
    payload.extend_from_slice(&(original.len() as u32).to_le_bytes());
    payload.extend_from_slice(&((stream.len() - 13) as u32).to_le_bytes());
    payload.extend_from_slice(&stream[0..5]);
    payload.extend_from_slice(&stream[13..]);
    let data = build_container(&[(0, payload, 0, 1)]);
    let file = BspFile::new(&data).unwrap();
    let (_, bytes) = file.get_lump(LumpType::Entities).unwrap();
    assert_eq!(bytes, original);
}

#[test]
fn malformed_compressed_lump_fails_decompression() {
    let data = build_container(&[(0, b"LZMAxxxxyyyyzzzzz___garbage".to_vec(), 0, 1)]);
    let file = BspFile::new(&data).unwrap();
    assert!(matches!(
        file.get_lump(LumpType::Entities),
        Err(BspError::Decompression)
    ));
    // too short for the fixed header
    let data = build_container(&[(0, b"LZ".to_vec(), 0, 1)]);
    let file = BspFile::new(&data).unwrap();
    assert!(matches!(
        file.get_lump(LumpType::Entities),
        Err(BspError::Decompression)
    ));
}

#[test]
fn planes_lump_decodes_fields_little_endian() {
    let mut lump = Vec::new();
    lump.extend_from_slice(&1i32.to_le_bytes());
    lump.extend_from_slice(&(-2i32).to_le_bytes());
    lump.extend_from_slice(&3i32.to_le_bytes());
    lump.extend_from_slice(&40i32.to_le_bytes());
    lump.extend_from_slice(&2i32.to_le_bytes());
    let data = build_container(&[(1, lump, 0, 0)]);
    let bsp = Bsp::read(&data).unwrap();
    assert_eq!(bsp.planes.len(), 1);
    let plane = &bsp.planes[0];
    assert_eq!(plane.normal, Vector { x: 1, y: -2, z: 3 });
    assert_eq!(plane.dist, 40);
    assert_eq!(plane.plane_type, 2);
}

fn leaf_lump_bytes(cluster: i16, pad_to: usize) -> Vec<u8> {
    let mut one = Vec::new();
    one.extend_from_slice(&7i32.to_le_bytes()); // contents
    one.extend_from_slice(&cluster.to_le_bytes());
    one.resize(pad_to, 0);
    one
}

#[test]
fn leaves_lump_is_version_dependent() {
    // version 1: 32-byte records
    let data = build_container(&[(10, leaf_lump_bytes(3, 32), 1, 0)]);
    let bsp = Bsp::read(&data).unwrap();
    assert_eq!(bsp.leaves.len(), 1);
    assert_eq!(bsp.leaves.get(0).unwrap().cluster, 3);
    // version 0: 56-byte records carrying ambient light, read past
    let data = build_container(&[(10, leaf_lump_bytes(5, 56), 0, 0)]);
    let bsp = Bsp::read(&data).unwrap();
    assert_eq!(bsp.leaves.len(), 1);
    assert_eq!(bsp.leaves.get(0).unwrap().cluster, 5);
    // a 56-byte lump under version 1 is not a whole number of records
    let data = build_container(&[(10, leaf_lump_bytes(5, 56), 1, 0)]);
    assert!(matches!(
        Bsp::read(&data),
        Err(BspError::InvalidLumpSize { lump: LumpType::Leaves, element_size: 32, lump_size: 56 })
    ));
}

#[test]
fn visibility_lump_smaller_than_two_integers_is_empty_default() {
    let data = build_container(&[(4, vec![1, 2, 3], 0, 0)]);
    let bsp = Bsp::read(&data).unwrap();
    assert_eq!(bsp.vis_data.cluster_count, 0);
    assert!(bsp.vis_data.pvs_offsets.is_empty());
    assert!(bsp.vis_data.data.is_empty());
}

#[test]
fn visibility_lump_parses_offset_pairs_and_blob() {
    let mut lump = Vec::new();
    lump.extend_from_slice(&2u32.to_le_bytes());
    lump.extend_from_slice(&0u32.to_le_bytes()); // pvs of cluster 0
    lump.extend_from_slice(&1u32.to_le_bytes()); // pas of cluster 0
    lump.extend_from_slice(&1u32.to_le_bytes()); // pvs of cluster 1
    lump.extend_from_slice(&0u32.to_le_bytes()); // pas of cluster 1
    lump.extend_from_slice(&[0x03, 0x01]);
    let data = build_container(&[(4, lump, 0, 0)]);
    let bsp = Bsp::read(&data).unwrap();
    assert_eq!(bsp.vis_data.cluster_count, 2);
    assert_eq!(bsp.vis_data.pvs_offsets, vec![0, 1]);
    assert_eq!(bsp.vis_data.pas_offsets, vec![1, 0]);
    assert_eq!(bsp.vis_data.data, vec![0x03, 0x01]);
    // cluster 0 reads mask 0x03: clusters 0 and 1 visible
    assert_eq!(bsp.vis_data.visible_clusters(0), vec![true, true]);
    // cluster 1 reads mask 0x01: only cluster 0 visible
    assert_eq!(bsp.vis_data.visible_clusters(1), vec![true, false]);
}

#[test]
fn visibility_zero_byte_skips_groups_of_eight() {
    let vis = VisData {
        cluster_count: 10,
        pvs_offsets: vec![0; 10],
        pas_offsets: vec![0; 10],
        // zero byte + count 1: eight not-visible clusters, then mask 0x02
        data: vec![0x00, 0x01, 0x02],
    };
    let bits = vis.visible_clusters(0);
    let mut expected = vec![false; 10];
    expected[9] = true;
    assert_eq!(bits, expected);
}

fn empty_bsp() -> Bsp {
    Bsp::read(&minimal_file()).unwrap()
}

fn two_leaf_bsp() -> Bsp {
    let mut bsp = empty_bsp();
    bsp.planes = vec![Plane {
        normal: Vector { x: 0, y: 0, z: 1 },
        dist: 5,
        plane_type: 0,
    }];
    bsp.nodes = vec![Node {
        plane_index: 0,
        children: [-1, -2],
        mins: [0; 3],
        maxs: [0; 3],
        first_face: 0,
        face_count: 0,
        area: 0,
        padding: 0,
    }];
    bsp.leaves = Leaves::new(vec![
        Leaf { contents: 100, cluster: 0, ..Default::default() },
        Leaf { contents: 200, cluster: 1, ..Default::default() },
    ]);
    bsp
}

#[test]
fn point_classification_two_node_tree() {
    let bsp = two_leaf_bsp();
    // strictly above the plane: the front leaf
    let front = bsp.leaf_at(Vector { x: 0, y: 0, z: 6 }).unwrap();
    assert_eq!(front.data().contents, 100);
    // strictly below the plane: the back leaf
    let back = bsp.leaf_at(Vector { x: 0, y: 0, z: 4 }).unwrap();
    assert_eq!(back.data().contents, 200);
    // exactly on the plane: counts as front
    let on_plane = bsp.leaf_at(Vector { x: 0, y: 0, z: 5 }).unwrap();
    assert_eq!(on_plane.data().contents, 100);
}

#[test]
fn point_classification_without_root_is_no_result() {
    let bsp = empty_bsp();
    assert!(bsp.leaf_at(Vector { x: 0, y: 0, z: 0 }).is_none());
    assert!(bsp.root_node().is_none());
}

#[test]
fn accessors_check_bounds() {
    let bsp = two_leaf_bsp();
    assert!(bsp.leaf(0).is_some());
    assert!(bsp.leaf(2).is_none());
    assert!(bsp.plane(0).is_some());
    assert!(bsp.plane(1).is_none());
    assert!(bsp.node(0).is_some());
    assert!(bsp.node(1).is_none());
    assert!(bsp.face(0).is_none());
    assert!(bsp.displacement(0).is_none());
    assert_eq!(bsp.models().len(), 0);
    assert_eq!(bsp.original_faces().len(), 0);
}

#[test]
fn texture_name_resolves_string_table_offset() {
    let mut bsp = empty_bsp();
    bsp.texture_string_data = b"first\0second\0".to_vec();
    bsp.texture_string_tables = vec![
        TextureStringTableEntry { offset: 0 },
        TextureStringTableEntry { offset: 6 },
    ];
    bsp.textures_data = vec![TextureData {
        reflectivity: Vector { x: 0, y: 0, z: 0 },
        name_string_table_id: 1,
        width: 64,
        height: 64,
        view_width: 64,
        view_height: 64,
    }];
    let handle = vbsp::Handle::new(&bsp, &bsp.textures_data[0]);
    assert_eq!(handle.name().unwrap(), b"second".to_vec());
}

#[test]
fn map_revision_and_header_are_read() {
    let mut data = minimal_file();
    let rev_at = HEAD_LEN - 4;
    data[rev_at..].copy_from_slice(&77u32.to_le_bytes());
    let file = BspFile::new(&data).unwrap();
    assert_eq!(*file.header(), Header { v: b'V', b: b'B', s: b'S', p: b'P' });
}

#[test]
fn entities_lump_reaches_the_model_unchanged() {
    let text = b"{\"classname\" \"worldspawn\"}".to_vec();
    let data = build_container(&[(0, text.clone(), 0, 0)]);
    let bsp = Bsp::read(&data).unwrap();
    let entities: Entities = bsp.entities;
    assert_eq!(entities.entities, text);
}
