//! The shape of a bounding-volume hierarchy: which objects go left and
//! which go right at each node.
use vstd::prelude::*;
use rand::rngs::StdRng;
use crate::random::random_int;
use crate::perlin::lemma_swap_multiset;

verus! {

broadcast use vstd::seq_lib::group_to_multiset_ensures;

/// Where an object's bounding box starts along each axis, as integers that
/// order as the coordinates do.
#[derive(Clone, Copy, Debug, PartialEq, Eq, Structural)]
pub struct BoxKeys {
    pub x: i64,
    pub y: i64,
    pub z: i64,
}

impl BoxKeys {
    pub open spec fn spec_axis(&self, n: int) -> int {
        if n == 1 {
            self.y as int
        } else if n == 2 {
            self.z as int
        } else {
            self.x as int
        }
    }

    /// The key along axis `n`: 1 is y, 2 is z, anything else x.
    pub fn axis(&self, n: usize) -> (r: i64)
        ensures
            r == self.spec_axis(n as int),
    {
        if n == 1 {
            self.y
        } else if n == 2 {
            self.z
        } else {
            self.x
        }
    }
}

/// Key of object `o` along `axis`.
pub open spec fn key_of(keys: Seq<BoxKeys>, o: usize, axis: int) -> int {
    keys[o as int].spec_axis(axis)
}

/// Every entry of `s` names one of `n` objects.
pub open spec fn indices_ok(s: Seq<usize>, n: int) -> bool {
    forall|i: int| 0 <= i < s.len() ==> #[trigger] s[i] < n
}

/// Entries `start..end` of `s` are in order of their keys along `axis`.
pub open spec fn sorted_span(s: Seq<usize>, keys: Seq<BoxKeys>, axis: int, start: int, end: int) -> bool {
    forall|p: int, q: int|
        start <= p < q < end ==> key_of(keys, #[trigger] s[p], axis) <= key_of(keys, #[trigger] s[q], axis)
}

pub enum BvhTree {
    Leaf { object: usize },
    /// A node that split its objects along `axis`.
    Node { axis: usize, left: Box<BvhTree>, right: Box<BvhTree> },
}

impl BvhTree {
    /// The objects at the leaves.
    pub open spec fn objects(&self) -> Set<usize>
        decreases self,
    {
        match self {
            BvhTree::Leaf { object } => set![*object],
            BvhTree::Node { left, right, .. } => left.objects().union(right.objects()),
        }
    }

    /// `self` is the tree built over the span `s`: one object sits on both
    /// sides of a node, two sit one on each side in order, and more are
    /// split at the middle, the first half going left.
    pub open spec fn covers(&self, s: Seq<usize>) -> bool
        decreases s.len(),
    {
        match self {
            BvhTree::Leaf { .. } => false,
            BvhTree::Node { left, right, .. } => if s.len() == 1 {
                *left == BvhTree::Leaf { object: s[0] } && *right == BvhTree::Leaf { object: s[0] }
            } else if s.len() == 2 {
                *left == BvhTree::Leaf { object: s[0] } && *right == BvhTree::Leaf { object: s[1] }
            } else if s.len() > 2 {
                left.covers(s.subrange(0, s.len() as int / 2)) && right.covers(
                    s.subrange(s.len() as int / 2, s.len() as int),
                )
            } else {
                false
            },
        }
    }

    /// At every node, no object on the left starts after an object on the
    /// right along the node's axis.
    pub open spec fn ordered(&self, keys: Seq<BoxKeys>) -> bool
        decreases self,
    {
        match self {
            BvhTree::Leaf { .. } => true,
            BvhTree::Node { axis, left, right } => {
                &&& *axis < 3
                &&& left.ordered(keys)
                &&& right.ordered(keys)
                &&& forall|a: usize, b: usize|
                    #![trigger left.objects().contains(a), right.objects().contains(b)]
                    left.objects().contains(a) && right.objects().contains(b) ==> key_of(
                        keys,
                        a,
                        *axis as int,
                    ) <= key_of(keys, b, *axis as int)
            },
        }
    }
}

/// Sorts `objects[start..end]` by the keys of the objects along `axis`,
/// leaving the rest of `objects` alone.
pub fn sort_span(objects: &mut Vec<usize>, start: usize, end: usize, keys: &Vec<BoxKeys>, axis: usize)
    requires
        start <= end <= old(objects)@.len(),
        indices_ok(old(objects)@, keys@.len() as int),
        axis < 3,
    ensures
        final(objects)@.len() == old(objects)@.len(),
        indices_ok(final(objects)@, keys@.len() as int),
        forall|i: int|
            0 <= i < old(objects)@.len() && !(start <= i < end) ==> final(objects)@[i] == old(
                objects,
            )@[i],
        final(objects)@.subrange(start as int, end as int).to_multiset() == old(
            objects,
        )@.subrange(start as int, end as int).to_multiset(),
        sorted_span(final(objects)@, keys@, axis as int, start as int, end as int),
{
    if end - start < 2 {
        return;
    }
    let ghost ks = keys@;
    let ghost ax = axis as int;
    let mut i: usize = start + 1;
    while i < end
        invariant
            start < i <= end,
            end <= objects@.len(),
            axis < 3,
            ks == keys@,
            ax == axis as int,
            objects@.len() == old(objects)@.len(),
            indices_ok(objects@, keys@.len() as int),
            forall|x: int|
                0 <= x < old(objects)@.len() && !(start <= x < end) ==> objects@[x] == old(
                    objects,
                )@[x],
            objects@.subrange(start as int, end as int).to_multiset() == old(objects)@.subrange(
                start as int,
                end as int,
            ).to_multiset(),
            sorted_span(objects@, ks, ax, start as int, i as int),
        decreases end - i,
    {
        let mut j: usize = i;
        while j > start && keys[objects[j - 1]].axis(axis) > keys[objects[j]].axis(axis)
            invariant
                start <= j <= i < end,
                end <= objects@.len(),
                axis < 3,
                ks == keys@,
                ax == axis as int,
                objects@.len() == old(objects)@.len(),
                indices_ok(objects@, keys@.len() as int),
                forall|x: int|
                    0 <= x < old(objects)@.len() && !(start <= x < end) ==> objects@[x] == old(
                        objects,
                    )@[x],
                objects@.subrange(start as int, end as int).to_multiset() == old(
                    objects,
                )@.subrange(start as int, end as int).to_multiset(),
                forall|p: int, q: int|
                    start <= p < q <= i && p != j && q != j ==> key_of(ks, #[trigger] objects@[p], ax)
                        <= key_of(ks, #[trigger] objects@[q], ax),
                forall|q: int|
                    j < q <= i ==> key_of(ks, objects@[j as int], ax) < key_of(
                        ks,
                        #[trigger] objects@[q],
                        ax,
                    ),
            decreases j,
        {
            let ghost before = objects@;
            let a = objects[j - 1];
            let b = objects[j];
            objects[j - 1] = b;
            objects[j] = a;
            proof {
                let sub = before.subrange(start as int, end as int);
                lemma_swap_multiset(sub, j - 1 - start, j - start);
                assert(objects@.subrange(start as int, end as int) =~= sub.update(
                    j - 1 - start,
                    sub[j - start],
                ).update(j - start, sub[j - 1 - start]));
            }
            j = j - 1;
        }
        i = i + 1;
    }
}

/// Sequences with the same multiset hold the same elements.
proof fn lemma_same_multiset_same_set(a: Seq<usize>, b: Seq<usize>)
    requires
        a.to_multiset() == b.to_multiset(),
    ensures
        a.to_set() == b.to_set(),
{
    a.to_multiset_ensures();
    b.to_multiset_ensures();
    assert forall|x: usize| a.to_set().contains(x) <==> b.to_set().contains(x) by {
        assert(a.contains(x) <==> a.to_multiset().count(x) > 0);
        assert(b.contains(x) <==> b.to_multiset().count(x) > 0);
    }
    assert(a.to_set() =~= b.to_set());
}

/// Splitting a span splits its elements and its multiset.
proof fn lemma_split_span(s: Seq<usize>, lo: int, mid: int, hi: int)
    requires
        0 <= lo <= mid <= hi <= s.len(),
    ensures
        s.subrange(lo, hi).to_set() == s.subrange(lo, mid).to_set().union(s.subrange(mid, hi).to_set()),
        s.subrange(lo, hi).to_multiset() == s.subrange(lo, mid).to_multiset().add(
            s.subrange(mid, hi).to_multiset(),
        ),
{
    let l = s.subrange(lo, mid);
    let r = s.subrange(mid, hi);
    assert(s.subrange(lo, hi) =~= l + r);
    vstd::seq_lib::lemma_multiset_commutative(l, r);
    assert forall|x: usize| (l + r).contains(x) <==> l.contains(x) || r.contains(x) by {
        if l.contains(x) {
            let i = choose|i: int| 0 <= i < l.len() && l[i] == x;
            assert((l + r)[i] == x);
        }
        if r.contains(x) {
            let i = choose|i: int| 0 <= i < r.len() && r[i] == x;
            assert((l + r)[l.len() + i] == x);
        }
        if (l + r).contains(x) {
            let i = choose|i: int| 0 <= i < (l + r).len() && (l + r)[i] == x;
            if i < l.len() {
                assert(l[i] == x);
            } else {
                assert(r[i - l.len()] == x);
            }
        }
    }
    assert(s.subrange(lo, hi).to_set() =~= l.to_set().union(r.to_set()));
}

impl BvhTree {
    /// Builds a tree over `objects[start..end]` on an axis drawn at random:
    /// one object goes to both sides, two are put in key order, and more
    /// are sorted by key and split at the middle. Only that span of
    /// `objects` is reordered.
    pub fn new(
        objects: &mut Vec<usize>,
        start: usize,
        end: usize,
        keys: &Vec<BoxKeys>,
        rng: &mut StdRng,
    ) -> (r: BvhTree)
        requires
            start < end <= old(objects)@.len(),
            indices_ok(old(objects)@, keys@.len() as int),
        ensures
            final(objects)@.len() == old(objects)@.len(),
            indices_ok(final(objects)@, keys@.len() as int),
            forall|i: int|
                0 <= i < old(objects)@.len() && !(start <= i < end) ==> final(objects)@[i] == old(
                    objects,
                )@[i],
            final(objects)@.subrange(start as int, end as int).to_multiset() == old(
                objects,
            )@.subrange(start as int, end as int).to_multiset(),
            r.objects() == old(objects)@.subrange(start as int, end as int).to_set(),
            r.ordered(keys@),
            r.covers(final(objects)@.subrange(start as int, end as int)),
        decreases end - start,
    {
        let axis = random_int(rng, 0, 2) as usize;
        let span = end - start;
        if span == 1 {
            let o = objects[start];
            proof {
                let sub = objects@.subrange(start as int, end as int);
                assert(sub[0] == o);
                assert(sub.to_set() =~= set![o]);
            }
            let leaf = BvhTree::Leaf { object: o };
            assert(leaf.objects() == set![o]);
            let r = BvhTree::Node { axis, left: Box::new(leaf), right: Box::new(BvhTree::Leaf { object: o }) };
            assert(r.objects() =~= set![o]);
            assert(objects@.subrange(start as int, end as int)[0] == o);
            assert(leaf.ordered(keys@));
            assert(BvhTree::Leaf { object: o }.ordered(keys@));
            return r;
        }
        if span == 2 {
            let a = objects[start];
            let b = objects[start + 1];
            proof {
                let sub = objects@.subrange(start as int, end as int);
                assert(sub[0] == a && sub[1] == b);
                assert(sub.to_set() =~= set![a, b]);
            }
            assert(BvhTree::Leaf { object: a }.objects() == set![a]);
            assert(BvhTree::Leaf { object: b }.objects() == set![b]);
            assert(BvhTree::Leaf { object: a }.ordered(keys@));
            assert(BvhTree::Leaf { object: b }.ordered(keys@));
            if keys[a].axis(axis) < keys[b].axis(axis) {
                let r = BvhTree::Node {
                    axis,
                    left: Box::new(BvhTree::Leaf { object: a }),
                    right: Box::new(BvhTree::Leaf { object: b }),
                };
                assert(r.objects() =~= set![a, b]);
                assert(objects@.subrange(start as int, end as int)[1] == b);
                return r;
            } else {
                let ghost before = objects@;
                objects[start] = b;
                objects[start + 1] = a;
                proof {
                    let sub = before.subrange(start as int, end as int);
                    lemma_swap_multiset(sub, 0, 1);
                    assert(objects@.subrange(start as int, end as int) =~= sub.update(0, sub[1]).update(
                        1,
                        sub[0],
                    ));
                    assert(objects@.subrange(start as int, end as int)[0] == b);
                    assert(objects@.subrange(start as int, end as int)[1] == a);
                }
                let r = BvhTree::Node {
                    axis,
                    left: Box::new(BvhTree::Leaf { object: b }),
                    right: Box::new(BvhTree::Leaf { object: a }),
                };
                assert(r.objects() =~= set![a, b]);
                return r;
            }
        }
        sort_span(objects, start, end, keys, axis);
        let ghost s1 = objects@;
        let mid = start + span / 2;
        let left = BvhTree::new(objects, start, mid, keys, rng);
        let ghost s2 = objects@;
        let right = BvhTree::new(objects, mid, end, keys, rng);
        let ghost s3 = objects@;
        proof {
            let (lo, md, hi) = (start as int, mid as int, end as int);
            assert(s2.subrange(md, hi) =~= s1.subrange(md, hi));
            assert(s3.subrange(lo, md) =~= s2.subrange(lo, md));
            lemma_split_span(s1, lo, md, hi);
            lemma_split_span(s3, lo, md, hi);
            lemma_same_multiset_same_set(s2.subrange(lo, md), s1.subrange(lo, md));
            lemma_same_multiset_same_set(s1.subrange(lo, hi), old(objects)@.subrange(lo, hi));
            assert(left.objects() == s1.subrange(lo, md).to_set());
            assert(right.objects() == s1.subrange(md, hi).to_set());
            assert forall|a: usize, b: usize|
                left.objects().contains(a) && right.objects().contains(b) implies key_of(
                    keys@,
                    a,
                    axis as int,
                ) <= key_of(keys@, b, axis as int) by {
                let sl = s1.subrange(lo, md);
                let sr = s1.subrange(md, hi);
                assert(sl.contains(a));
                assert(sr.contains(b));
                let p = choose|p: int| 0 <= p < sl.len() && sl[p] == a;
                let q = choose|q: int| 0 <= q < sr.len() && sr[q] == b;
                assert(s1[lo + p] == a);
                assert(s1[md + q] == b);
            }
        }
        let r = BvhTree::Node { axis, left: Box::new(left), right: Box::new(right) };
        proof {
            let (lo, md, hi) = (start as int, mid as int, end as int);
            let fin = s3.subrange(lo, hi);
            assert(fin.subrange(0, fin.len() as int / 2) =~= s2.subrange(lo, md));
            assert(fin.subrange(fin.len() as int / 2, fin.len() as int) =~= s3.subrange(md, hi));
            assert(r.objects() =~= old(objects)@.subrange(start as int, end as int).to_set());
        }
        r
    }

    /// A tree over objects `0..keys.len()`, or `None` when there are none.
    pub fn new_list(keys: &Vec<BoxKeys>, rng: &mut StdRng) -> (r: Option<BvhTree>)
        ensures
            (match r {
                Some(t) => {
                    &&& keys@.len() > 0
                    &&& t.objects() == Set::new(|o: usize| o < keys@.len())
                    &&& t.ordered(keys@)
                    &&& exists|order: Seq<usize>|
                        order.to_multiset() == Seq::new(keys@.len(), |k: int| k as usize).to_multiset()
                            && #[trigger] t.covers(order)
                },
                None => keys@.len() == 0,
            }),
    {
        let n = keys.len();
        if n == 0 {
            return None;
        }
        let mut objects: Vec<usize> = Vec::new();
        let mut i: usize = 0;
        while i < n
            invariant
                i <= n,
                n == keys@.len(),
                objects@ == Seq::new(i as nat, |k: int| k as usize),
            decreases n - i,
        {
            objects.push(i);
            i = i + 1;
            assert(objects@ =~= Seq::new(i as nat, |k: int| k as usize));
        }
        let ghost all = objects@;
        let t = BvhTree::new(&mut objects, 0, n, keys, rng);
        proof {
            assert(objects@.subrange(0, n as int) =~= objects@);
            assert(all.subrange(0, n as int) =~= all);
            assert(all =~= Seq::new(keys@.len(), |k: int| k as usize));
            assert(objects@.to_multiset() == Seq::new(keys@.len(), |k: int| k as usize).to_multiset()
                && t.covers(objects@));
            assert(all.subrange(0, n as int) =~= all);
            assert forall|o: usize| all.to_set().contains(o) <==> o < n by {
                if o < n {
                    assert(all[o as int] == o);
                }
            }
            assert(all.to_set() =~= Set::new(|o: usize| o < keys@.len()));
        }
        Some(t)
    }
}

} // verus!
