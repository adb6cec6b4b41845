use vbsp::data::{Face, LeafFace, Model, Node, Plane, TextureData, TextureInfo, TextureAxis, Vector};
use vbsp::handle::{node_leaf, NodeOrLeaf};
use vbsp::{Bsp, Handle, Leaf, Leaves, VisData};

fn base_bsp() -> Bsp {
    let mut head = vec![0u8; 8 + 64 * 16 + 4];
    head[0] = b'V';
    head[1] = b'B';
    head[2] = b'S';
    head[3] = b'P';
    head[4..8].copy_from_slice(&0x14u32.to_le_bytes());
    Bsp::read(&head).unwrap()
}

fn face_with(plane_index: u16) -> Face {
    Face {
        plane_index,
        side: 0,
        on_node: 0,
        first_edge: 0,
        edge_count: 0,
        texture_info: 0,
        displacement_info: 0,
        surface_fog_volume_id: 0,
        styles: [0; 4],
        light_offset: 0,
        area: 0,
        lightmap_texture_mins: [0; 2],
        lightmap_texture_size: [0; 2],
        original_face: 0,
        primitive_count: 0,
        first_primitive: 0,
        smoothing_groups: 0,
    }
}

#[test]
fn model_faces_are_the_declared_contiguous_run() {
    let mut bsp = base_bsp();
    bsp.faces = vec![face_with(0), face_with(1), face_with(2), face_with(3)];
    bsp.models = vec![Model {
        mins: Vector { x: 0, y: 0, z: 0 },
        maxs: Vector { x: 0, y: 0, z: 0 },
        origin: Vector { x: 0, y: 0, z: 0 },
        head_node: 0,
        first_face: 1,
        face_count: 2,
    }];
    let models = bsp.models();
    let faces = models[0].faces();
    let indices: Vec<u16> = faces.iter().map(|f| f.data().plane_index).collect();
    assert_eq!(indices, vec![1, 2]);
}

#[test]
fn model_faces_out_of_range_run_is_empty() {
    let mut bsp = base_bsp();
    bsp.faces = vec![face_with(0)];
    bsp.models = vec![Model {
        mins: Vector { x: 0, y: 0, z: 0 },
        maxs: Vector { x: 0, y: 0, z: 0 },
        origin: Vector { x: 0, y: 0, z: 0 },
        head_node: 0,
        first_face: 0,
        face_count: 5,
    }];
    let models = bsp.models();
    assert!(models[0].faces().is_empty());
}

#[test]
fn leaf_faces_resolve_in_order_skipping_bad_references() {
    let mut bsp = base_bsp();
    bsp.faces = vec![face_with(7), face_with(8)];
    bsp.leaf_faces = vec![
        LeafFace { face: 1 },
        LeafFace { face: 9 }, // out of range: skipped
        LeafFace { face: 0 },
    ];
    bsp.leaves = Leaves::new(vec![Leaf {
        first_leaf_face: 0,
        leaf_face_count: 3,
        ..Default::default()
    }]);
    let leaf = bsp.leaf(0).unwrap();
    let got: Vec<u16> = leaf.faces().iter().map(|f| f.data().plane_index).collect();
    assert_eq!(got, vec![8, 7]);
}

#[test]
fn node_children_decode_node_and_leaf_references() {
    let mut bsp = base_bsp();
    bsp.planes = vec![Plane {
        normal: Vector { x: 1, y: 0, z: 0 },
        dist: 0,
        plane_type: 0,
    }];
    bsp.nodes = vec![
        Node {
            plane_index: 0,
            children: [1, -1],
            mins: [0; 3],
            maxs: [0; 3],
            first_face: 0,
            face_count: 0,
            area: 0,
            padding: 0,
        },
        Node {
            plane_index: 0,
            children: [-1, -2],
            mins: [0; 3],
            maxs: [0; 3],
            first_face: 0,
            face_count: 0,
            area: 0,
            padding: 0,
        },
    ];
    bsp.leaves = Leaves::new(vec![Leaf::default(), Leaf::default()]);
    let root = bsp.root_node().unwrap();
    assert!(root.plane().is_some());
    let [front, back] = root.children();
    assert!(matches!(front, Some(NodeOrLeaf::Node(_))));
    assert!(matches!(back, Some(NodeOrLeaf::Leaf(_))));
    // a leaf reference is the bitwise complement of the leaf index
    assert!(matches!(node_leaf(&bsp, -2), Some(NodeOrLeaf::Leaf(_))));
    // out of range either way: no result
    assert!(node_leaf(&bsp, 5).is_none());
    assert!(node_leaf(&bsp, -7).is_none());
}

#[test]
fn texture_info_resolves_texture_data_and_name() {
    let mut bsp = base_bsp();
    bsp.texture_string_data = b"brick/wall01\0concrete/floor\0".to_vec();
    bsp.texture_string_tables = vec![
        vbsp::TextureStringTableEntry { offset: 0 },
        vbsp::TextureStringTableEntry { offset: 13 },
    ];
    let axis = TextureAxis { x: 0, y: 0, z: 0, w: 0 };
    bsp.textures_data = vec![TextureData {
        reflectivity: Vector { x: 0, y: 0, z: 0 },
        name_string_table_id: 1,
        width: 128,
        height: 128,
        view_width: 128,
        view_height: 128,
    }];
    bsp.textures_info = vec![TextureInfo {
        texture_s: axis,
        texture_t: axis,
        lightmap_s: axis,
        lightmap_t: axis,
        flags: 0,
        texture_data_index: 0,
    }];
    let info = Handle::new(&bsp, &bsp.textures_info[0]);
    let data = info.texture().unwrap();
    assert_eq!(data.data().width, 128);
    assert_eq!(info.name().unwrap(), b"concrete/floor".to_vec());
    // an out-of-range reference yields nothing instead of failing
    let mut bad = TextureInfo {
        texture_s: axis,
        texture_t: axis,
        lightmap_s: axis,
        lightmap_t: axis,
        flags: 0,
        texture_data_index: 3,
    };
    bad.texture_data_index = 3;
    let bad_info = Handle::new(&bsp, &bad);
    assert!(bad_info.texture().is_none());
    assert!(bad_info.name().is_none());
}

fn visibility_bsp() -> Bsp {
    let mut bsp = base_bsp();
    // cluster 0 sees only itself (mask 0x01); cluster 1 sees both (0x03)
    bsp.vis_data = VisData {
        cluster_count: 2,
        pvs_offsets: vec![0, 1],
        pas_offsets: vec![0, 1],
        data: vec![0x01, 0x03],
    };
    bsp.leaves = Leaves::new(vec![
        Leaf { contents: 0, cluster: -1, ..Default::default() },
        Leaf { contents: 1, cluster: 0, ..Default::default() },
        Leaf { contents: 2, cluster: 1, ..Default::default() },
    ]);
    bsp
}

#[test]
fn visible_set_excludes_unset_bits_and_negative_clusters() {
    let bsp = visibility_bsp();
    // the cluster-0 leaf is at position 1 after the sort by cluster
    let leaf0 = bsp.leaf(1).unwrap();
    assert_eq!(leaf0.data().cluster, 0);
    let visible: Vec<i32> = leaf0
        .visible_set()
        .unwrap()
        .iter()
        .map(|h| h.data().contents)
        .collect();
    // own cluster included; cluster 1's bit unset: excluded; negative: never
    assert_eq!(visible, vec![1]);

    let leaf1 = bsp.leaf(2).unwrap();
    assert_eq!(leaf1.data().cluster, 1);
    let visible: Vec<i32> = leaf1
        .visible_set()
        .unwrap()
        .iter()
        .map(|h| h.data().contents)
        .collect();
    // sees cluster 0 by its bit and itself trivially; never the negative one
    assert_eq!(visible, vec![1, 2]);
}

#[test]
fn outside_world_leaf_has_no_visible_set() {
    let bsp = visibility_bsp();
    let outside = bsp.leaf(0).unwrap();
    assert_eq!(outside.data().cluster, -1);
    assert!(outside.visible_set().is_none());
}

#[test]
fn handle_carries_its_element() {
    let bsp = base_bsp();
    let plane = Plane {
        normal: Vector { x: 1, y: 2, z: 3 },
        dist: 4,
        plane_type: 5,
    };
    let handle = Handle::new(&bsp, &plane);
    assert_eq!(handle.data().dist, 4);
}
