//! The permutation tables of a Perlin gradient-noise generator.
use vstd::prelude::*;
use rand::rngs::StdRng;
use crate::random::random_int;

verus! {

broadcast use vstd::seq_lib::group_to_multiset_ensures;

/// Number of lattice points, and of entries in each table.
pub const POINT_COUNT: usize = 256;

/// The identity table `0, 1, ..., n - 1`.
pub open spec fn identity(n: int) -> Seq<i32> {
    Seq::new(n as nat, |i: int| i as i32)
}

/// `s` holds each of `0..POINT_COUNT` exactly once.
pub open spec fn is_perm(s: Seq<i32>) -> bool {
    s.to_multiset() == identity(POINT_COUNT as int).to_multiset()
}

/// `s` with entries `i` and `j` exchanged.
pub open spec fn swap<A>(s: Seq<A>, i: int, j: int) -> Seq<A> {
    s.update(i, s[j]).update(j, s[i])
}

/// `s` after swapping entry `k` with entry `d[k]` for each `k` from `hi - 1`
/// down to 1, in that order.
pub open spec fn swaps_down<A>(s: Seq<A>, d: Seq<usize>, hi: int) -> Seq<A>
    decreases hi,
{
    if hi <= 1 {
        s
    } else {
        swaps_down(swap(s, hi - 1, d[hi - 1] as int), d, hi - 1)
    }
}

/// The Fisher-Yates shuffle of the first `n` entries of `s` by the draws `d`.
pub open spec fn shuffled<A>(s: Seq<A>, d: Seq<usize>, n: int) -> Seq<A> {
    swaps_down(s, d, n)
}

/// One draw per index below `n`, draw `i` in `0..=i` for each `i >= 1`.
pub open spec fn draws_ok(d: Seq<usize>, n: int) -> bool {
    &&& d.len() == n
    &&& forall|i: int| 1 <= i < n ==> #[trigger] d[i] <= i
}

/// `s` is `0..POINT_COUNT` shuffled by some valid draws.
pub open spec fn shuffled_identity(s: Seq<i32>) -> bool {
    exists|d: Seq<usize>|
        draws_ok(d, POINT_COUNT as int) && s == #[trigger] shuffled(
            identity(POINT_COUNT as int),
            d,
            POINT_COUNT as int,
        )
}

/// Swapping two entries keeps the multiset of a sequence.
pub proof fn lemma_swap_multiset<A>(s: Seq<A>, i: int, t: int)
    requires
        0 <= i < s.len(),
        0 <= t < s.len(),
    ensures
        s.update(i, s[t]).update(t, s[i]).to_multiset() == s.to_multiset(),
{
    broadcast use vstd::multiset::group_multiset_axioms;

    let s1 = s.update(i, s[t]);
    vstd::seq_lib::to_multiset_update(s, i, s[t]);
    vstd::seq_lib::to_multiset_update(s1, t, s[i]);
    assert(s1[t] == s[t]);
    assert(s.to_multiset().count(s[i]) > 0);
    assert(s.to_multiset().count(s[t]) > 0);
    assert(s1.update(t, s[i]).to_multiset() =~= s.to_multiset());
}

/// Every entry of a permutation table lies in `0..POINT_COUNT`.
pub proof fn lemma_perm_entry(s: Seq<i32>, k: int)
    requires
        is_perm(s),
        0 <= k < s.len(),
    ensures
        0 <= s[k] < POINT_COUNT,
{
    assert(s.contains(s[k]));
    s.to_multiset_ensures();
    identity(POINT_COUNT as int).to_multiset_ensures();
    assert(s.to_multiset().count(s[k]) > 0);
    assert(identity(POINT_COUNT as int).to_multiset().count(s[k]) > 0);
    assert(identity(POINT_COUNT as int).contains(s[k]));
    let j = choose|j: int| 0 <= j < POINT_COUNT && identity(POINT_COUNT as int)[j] == s[k];
    assert(s[k] == j);
}

/// Three independent permutation tables, one per axis.
#[derive(Debug)]
pub struct Perlin {
    pub perm_x: Vec<i32>,
    pub perm_y: Vec<i32>,
    pub perm_z: Vec<i32>,
}

impl Perlin {
    pub open spec fn wf(&self) -> bool {
        &&& self.perm_x@.len() == POINT_COUNT
        &&& self.perm_y@.len() == POINT_COUNT
        &&& self.perm_z@.len() == POINT_COUNT
        &&& is_perm(self.perm_x@)
        &&& is_perm(self.perm_y@)
        &&& is_perm(self.perm_z@)
    }

    /// Index of the gradient at lattice point `(i, j, k)`: the three tables,
    /// each read at its coordinate modulo 256, combined by exclusive or.
    pub open spec fn spec_hash(&self, i: i32, j: i32, k: i32) -> int {
        (self.perm_x@[(i & 255) as int] ^ self.perm_y@[(j & 255) as int] ^ self.perm_z@[(k
            & 255) as int]) as int
    }

    pub fn new(rng: &mut StdRng) -> (r: Perlin)
        ensures
            r.wf(),
            shuffled_identity(r.perm_x@),
            shuffled_identity(r.perm_y@),
            shuffled_identity(r.perm_z@),
    {
        let perm_x = Perlin::perlin_generate_perm(rng);
        let perm_y = Perlin::perlin_generate_perm(rng);
        let perm_z = Perlin::perlin_generate_perm(rng);
        Perlin { perm_x, perm_y, perm_z }
    }

    /// `0..POINT_COUNT`, shuffled by `permute`.
    pub fn perlin_generate_perm(rng: &mut StdRng) -> (r: Vec<i32>)
        ensures
            r@.len() == POINT_COUNT,
            is_perm(r@),
            shuffled_identity(r@),
    {
        let mut p: Vec<i32> = Vec::new();
        let mut i: usize = 0;
        while i < POINT_COUNT
            invariant
                i <= POINT_COUNT,
                p@ == identity(i as int),
            decreases POINT_COUNT - i,
        {
            p.push(i as i32);
            i = i + 1;
            assert(p@ =~= identity(i as int));
        }
        Perlin::permute(&mut p, POINT_COUNT, rng);
        p
    }

    /// Shuffles the first `n` entries of `p` as `permute_with` does, with
    /// each draw `draws[i]` taken from `0..=i` as `i` runs from `n - 1` down
    /// to 1.
    pub fn permute(p: &mut Vec<i32>, n: usize, rng: &mut StdRng)
        requires
            n <= old(p)@.len(),
            n <= i32::MAX,
        ensures
            exists|d: Seq<usize>| draws_ok(d, n as int) && final(p)@ == #[trigger] shuffled(old(p)@, d, n as int),
            final(p)@.len() == old(p)@.len(),
            final(p)@.to_multiset() == old(p)@.to_multiset(),
            forall|k: int| n <= k < old(p)@.len() ==> final(p)@[k] == old(p)@[k],
    {
        let mut draws: Vec<usize> = Vec::new();
        while draws.len() < n
            invariant
                draws@.len() <= n,
                forall|k: int| 0 <= k < draws@.len() ==> #[trigger] draws@[k] == 0,
            decreases n - draws@.len(),
        {
            draws.push(0);
        }
        let mut i: usize = n;
        while i > 1
            invariant
                i <= n,
                n <= i32::MAX,
                draws@.len() == n,
                forall|k: int| 1 <= k < i ==> #[trigger] draws@[k] == 0,
                forall|k: int| i <= k < n ==> #[trigger] draws@[k] <= k,
            decreases i,
        {
            i = i - 1;
            let target = random_int(rng, 0, i as i32) as usize;
            draws[i] = target;
        }
        Perlin::permute_with(p, n, &draws);
    }

    /// Swaps entry `i` of `p` with entry `draws[i]`, for each `i` from `n - 1`
    /// down to 1.
    pub fn permute_with(p: &mut Vec<i32>, n: usize, draws: &Vec<usize>)
        requires
            n <= old(p)@.len(),
            draws_ok(draws@, n as int),
        ensures
            final(p)@ == shuffled(old(p)@, draws@, n as int),
            final(p)@.len() == old(p)@.len(),
            final(p)@.to_multiset() == old(p)@.to_multiset(),
            forall|k: int| n <= k < old(p)@.len() ==> final(p)@[k] == old(p)@[k],
    {
        let mut i: usize = n;
        while i > 1
            invariant
                i <= n,
                n <= p@.len(),
                draws_ok(draws@, n as int),
                p@.len() == old(p)@.len(),
                p@.to_multiset() == old(p)@.to_multiset(),
                forall|k: int| n <= k < old(p)@.len() ==> p@[k] == old(p)@[k],
                swaps_down(p@, draws@, i as int) == shuffled(old(p)@, draws@, n as int),
            decreases i,
        {
            i = i - 1;
            let target = draws[i];
            let ghost before = p@;
            let a = p[i];
            let b = p[target];
            p[i] = b;
            p[target] = a;
            proof {
                lemma_swap_multiset(before, i as int, target as int);
                assert(p@ == swap(before, i as int, target as int));
            }
        }
        proof {
            if n == 0 {
                assert(swaps_down(p@, draws@, 0) == p@);
            }
        }
    }

    /// Index of the gradient at lattice point `(i, j, k)`.
    pub fn hash(&self, i: i32, j: i32, k: i32) -> (r: usize)
        requires
            self.wf(),
        ensures
            r == self.spec_hash(i, j, k),
            r < POINT_COUNT,
    {
        let xi = (i & 255) as usize;
        let yi = (j & 255) as usize;
        let zi = (k & 255) as usize;
        assert(0 <= (i & 255) < 256) by (bit_vector);
        assert(0 <= (j & 255) < 256) by (bit_vector);
        assert(0 <= (k & 255) < 256) by (bit_vector);
        let a = self.perm_x[xi];
        let b = self.perm_y[yi];
        let c = self.perm_z[zi];
        proof {
            lemma_perm_entry(self.perm_x@, xi as int);
            lemma_perm_entry(self.perm_y@, yi as int);
            lemma_perm_entry(self.perm_z@, zi as int);
        }
        assert(0 <= a ^ b ^ c < 256) by (bit_vector)
            requires
                0 <= a < 256,
                0 <= b < 256,
                0 <= c < 256,
        ;
        (a ^ b ^ c) as usize
    }
}

} // verus!
