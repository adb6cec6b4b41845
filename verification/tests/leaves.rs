use vbsp::{Leaf, Leaves};

fn leaf_with(contents: i32, cluster: i16) -> Leaf {
    Leaf {
        contents,
        cluster,
        ..Default::default()
    }
}

#[test]
fn test_leaf_clusters() {
    let leaves: Leaves = Leaves::new(vec![
        Leaf {
            contents: 0,
            cluster: 0,
            ..Default::default()
        },
        Leaf {
            contents: 1,
            cluster: 0,
            ..Default::default()
        },
        Leaf {
            contents: 2,
            cluster: 1,
            ..Default::default()
        },
        Leaf {
            contents: 3,
            cluster: 2,
            ..Default::default()
        },
        Leaf {
            contents: 4,
            cluster: 2,
            ..Default::default()
        },
    ]);

    let clustered: Vec<Vec<i32>> = leaves
        .clusters()
        .into_iter()
        .map(|cluster| cluster.into_iter().map(|leaf| leaf.contents).collect())
        .collect();
    assert_eq!(vec![vec![0, 1], vec![2], vec![3, 4],], clustered);
}

#[test]
fn leaves_sorted_by_cluster_after_construction() {
    let leaves = Leaves::new(vec![
        leaf_with(0, 7),
        leaf_with(1, -2),
        leaf_with(2, 3),
        leaf_with(3, 0),
        leaf_with(4, 3),
    ]);
    let inner = leaves.into_inner();
    for pair in inner.windows(2) {
        assert!(pair[0].cluster <= pair[1].cluster);
    }
    assert_eq!(inner.len(), 5);
    // stable: equal clusters keep their given order
    let contents: Vec<i32> = inner.iter().map(|l| l.contents).collect();
    assert_eq!(contents, vec![1, 3, 2, 4, 0]);
}

#[test]
fn leaves_len_get_iter() {
    let leaves = Leaves::new(vec![leaf_with(9, 1), leaf_with(8, 0)]);
    assert_eq!(leaves.len(), 2);
    assert_eq!(leaves.get(0).unwrap().contents, 8);
    assert_eq!(leaves.get(1).unwrap().contents, 9);
    assert!(leaves.get(2).is_none());
    let copies = leaves.iter();
    assert_eq!(copies.len(), 2);
    assert_eq!(copies[0].contents, 8);
}

#[test]
fn clusters_of_empty_and_single() {
    let empty = Leaves::new(vec![]);
    assert!(empty.clusters().is_empty());

    let one = Leaves::new(vec![leaf_with(5, 3)]);
    let groups = one.clusters();
    assert_eq!(groups.len(), 1);
    assert_eq!(groups[0].len(), 1);
    assert_eq!(groups[0][0].contents, 5);
}
