use rand::rngs::StdRng;
use rand::SeedableRng;
use raytracer::bvh::{sort_span, BoxKeys, BvhTree};

fn leaves(t: &BvhTree, out: &mut Vec<usize>) {
    match t {
        BvhTree::Leaf { object } => out.push(*object),
        BvhTree::Node { left, right, .. } => {
            leaves(left, out);
            leaves(right, out);
        }
    }
}

fn key(k: &BoxKeys, axis: usize) -> i64 {
    k.axis(axis)
}

fn check_ordered(t: &BvhTree, keys: &[BoxKeys]) {
    if let BvhTree::Node { axis, left, right } = t {
        assert!(*axis < 3);
        let mut l = Vec::new();
        let mut r = Vec::new();
        leaves(left, &mut l);
        leaves(right, &mut r);
        for a in &l {
            for b in &r {
                assert!(key(&keys[*a], *axis) <= key(&keys[*b], *axis));
            }
        }
        check_ordered(left, keys);
        check_ordered(right, keys);
    }
}

fn sample_keys(n: usize) -> Vec<BoxKeys> {
    (0..n as i64)
        .map(|i| BoxKeys { x: (i * 37) % 11 - 5, y: (i * 13) % 7, z: 100 - i })
        .collect()
}

#[test]
fn axis_selects_component() {
    let k = BoxKeys { x: 1, y: 2, z: 3 };
    assert_eq!(k.axis(0), 1);
    assert_eq!(k.axis(1), 2);
    assert_eq!(k.axis(2), 3);
    assert_eq!(k.axis(7), 1);
}

#[test]
fn sort_span_orders_only_the_span() {
    let keys = sample_keys(10);
    let mut objects: Vec<usize> = (0..10).rev().collect();
    sort_span(&mut objects, 2, 8, &keys, 2);
    assert_eq!(&objects[..2], &[9, 8]);
    assert_eq!(&objects[8..], &[1, 0]);
    let mut mid = objects[2..8].to_vec();
    for w in mid.windows(2) {
        assert!(keys[w[0]].z <= keys[w[1]].z);
    }
    mid.sort();
    assert_eq!(mid, vec![2, 3, 4, 5, 6, 7]);
}

#[test]
fn empty_list_has_no_tree() {
    let mut rng = StdRng::seed_from_u64(0);
    assert!(BvhTree::new_list(&Vec::new(), &mut rng).is_none());
}

#[test]
fn single_object_is_on_both_sides() {
    let mut rng = StdRng::seed_from_u64(0);
    let t = BvhTree::new_list(&sample_keys(1), &mut rng).unwrap();
    let mut l = Vec::new();
    leaves(&t, &mut l);
    assert_eq!(l, vec![0, 0]);
}

#[test]
fn two_objects_in_key_order() {
    let keys = vec![BoxKeys { x: 5, y: 5, z: 5 }, BoxKeys { x: 1, y: 1, z: 1 }];
    let mut rng = StdRng::seed_from_u64(4);
    let t = BvhTree::new_list(&keys, &mut rng).unwrap();
    let mut l = Vec::new();
    leaves(&t, &mut l);
    assert_eq!(l, vec![1, 0]);
}

#[test]
fn tree_holds_every_object_and_is_ordered() {
    for seed in 0..20 {
        let keys = sample_keys(37);
        let mut rng = StdRng::seed_from_u64(seed);
        let t = BvhTree::new_list(&keys, &mut rng).unwrap();
        let mut l = Vec::new();
        leaves(&t, &mut l);
        l.sort();
        l.dedup();
        assert_eq!(l, (0..37).collect::<Vec<usize>>());
        check_ordered(&t, &keys);
    }
}

#[test]
fn tree_over_equal_keys() {
    let keys = vec![BoxKeys { x: 0, y: 0, z: 0 }; 9];
    let mut rng = StdRng::seed_from_u64(2);
    let t = BvhTree::new_list(&keys, &mut rng).unwrap();
    let mut l = Vec::new();
    leaves(&t, &mut l);
    l.sort();
    l.dedup();
    assert_eq!(l, (0..9).collect::<Vec<usize>>());
}

#[test]
fn three_objects_split_after_the_first_in_key_order() {
    let keys = vec![
        BoxKeys { x: 5, y: 5, z: 5 },
        BoxKeys { x: 1, y: 1, z: 1 },
        BoxKeys { x: 3, y: 3, z: 3 },
    ];
    let mut rng = StdRng::seed_from_u64(9);
    let t = BvhTree::new_list(&keys, &mut rng).unwrap();
    match t {
        BvhTree::Node { left, right, .. } => {
            match *left {
                BvhTree::Node { left: l, right: r, .. } => {
                    assert!(matches!(*l, BvhTree::Leaf { object: 1 }));
                    assert!(matches!(*r, BvhTree::Leaf { object: 1 }));
                }
                _ => panic!("expected a node over one object"),
            }
            match *right {
                BvhTree::Node { left: l, right: r, .. } => {
                    assert!(matches!(*l, BvhTree::Leaf { object: 2 }));
                    assert!(matches!(*r, BvhTree::Leaf { object: 0 }));
                }
                _ => panic!("expected a node over two objects"),
            }
        }
        _ => panic!("expected a node"),
    }
}

#[test]
fn new_over_a_span_reorders_only_the_span() {
    let keys = sample_keys(8);
    let mut objects: Vec<usize> = (0..8).collect();
    let mut rng = StdRng::seed_from_u64(1);
    let t = BvhTree::new(&mut objects, 2, 6, &keys, &mut rng);
    assert_eq!(&objects[..2], &[0, 1]);
    assert_eq!(&objects[6..], &[6, 7]);
    let mut l = Vec::new();
    leaves(&t, &mut l);
    assert_eq!(l, objects[2..6].to_vec());
}
