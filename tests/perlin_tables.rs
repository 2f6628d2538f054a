use rand::rngs::StdRng;
use rand::SeedableRng;
use raytracer::perlin::{Perlin, POINT_COUNT};

fn sorted(v: &[i32]) -> Vec<i32> {
    let mut s = v.to_vec();
    s.sort();
    s
}

#[test]
fn generated_table_is_a_permutation() {
    let mut rng = StdRng::seed_from_u64(1);
    let p = Perlin::perlin_generate_perm(&mut rng);
    assert_eq!(p.len(), POINT_COUNT);
    assert_eq!(sorted(&p), (0..256).collect::<Vec<i32>>());
}

#[test]
fn generated_table_is_shuffled() {
    let mut rng = StdRng::seed_from_u64(2);
    let p = Perlin::perlin_generate_perm(&mut rng);
    assert_ne!(p, (0..256).collect::<Vec<i32>>());
}

#[test]
fn permute_keeps_entries_and_tail() {
    let mut rng = StdRng::seed_from_u64(3);
    let mut p: Vec<i32> = (0..20).map(|i| i * 3).collect();
    Perlin::permute(&mut p, 10, &mut rng);
    assert_eq!(sorted(&p[..10]), (0..10).map(|i| i * 3).collect::<Vec<i32>>());
    assert_eq!(&p[10..], &(10..20).map(|i| i * 3).collect::<Vec<i32>>()[..]);
}

#[test]
fn permute_of_one_entry_changes_nothing() {
    let mut rng = StdRng::seed_from_u64(4);
    let mut p = vec![7, 8, 9];
    Perlin::permute(&mut p, 1, &mut rng);
    assert_eq!(p, vec![7, 8, 9]);
}

#[test]
fn hash_combines_tables_by_xor() {
    let mut rng = StdRng::seed_from_u64(5);
    let t = Perlin::new(&mut rng);
    for (i, j, k) in [(0, 0, 0), (1, 2, 3), (-1, 255, 256), (1000, -1000, 77)] {
        let h = t.hash(i, j, k);
        assert!(h < POINT_COUNT);
        let expect = t.perm_x[(i & 255) as usize] ^ t.perm_y[(j & 255) as usize] ^ t.perm_z[(k & 255) as usize];
        assert_eq!(h, expect as usize);
    }
}

#[test]
fn hash_is_periodic_and_deterministic() {
    let mut rng = StdRng::seed_from_u64(6);
    let t = Perlin::new(&mut rng);
    assert_eq!(t.hash(3, 4, 5), t.hash(3 + 256, 4 - 512, 5 + 1024));
    assert_eq!(t.hash(3, 4, 5), t.hash(3, 4, 5));
}

#[test]
fn same_seed_gives_same_tables() {
    let a = Perlin::new(&mut StdRng::seed_from_u64(9));
    let b = Perlin::new(&mut StdRng::seed_from_u64(9));
    assert_eq!(format!("{:?}", a), format!("{:?}", b));
}

#[test]
fn permute_with_swaps_from_the_top_down() {
    let mut p = vec![0, 1, 2, 3];
    Perlin::permute_with(&mut p, 4, &vec![0, 0, 1, 0]);
    assert_eq!(p, vec![2, 3, 1, 0]);
}

#[test]
fn permute_with_self_draws_changes_nothing() {
    let mut p = vec![10, 20, 30, 40, 50];
    Perlin::permute_with(&mut p, 5, &vec![0, 1, 2, 3, 4]);
    assert_eq!(p, vec![10, 20, 30, 40, 50]);
}

#[test]
fn permute_with_leaves_the_tail() {
    let mut p = vec![0, 1, 2, 3, 4];
    Perlin::permute_with(&mut p, 3, &vec![0, 0, 0]);
    assert_eq!(p, vec![1, 2, 0, 3, 4]);
}
