//! Stable sorting by a strict weak order: equivalent elements keep the order
//! in which they came, as `slice::sort_by` does.

use vstd::prelude::*;
use vstd::set_lib::{lemma_int_range, lemma_subset_equality, set_int_range};

verus! {

/// A strict weak order on values: `before` is irreflexive and transitive, and
/// whatever lies between two ordered values is ordered against one of them.
pub trait StableOrder: Sized {
    /// `self` sorts strictly before `other`.
    spec fn before(self, other: Self) -> bool;

    fn is_before(&self, other: &Self) -> (r: bool)
        ensures
            r == self.before(*other),
    ;

    proof fn lemma_irreflexive(a: Self)
        ensures
            !a.before(a),
    ;

    proof fn lemma_transitive(a: Self, b: Self, c: Self)
        requires
            a.before(b),
            b.before(c),
        ensures
            a.before(c),
    ;

    proof fn lemma_split(a: Self, b: Self, c: Self)
        requires
            a.before(b),
        ensures
            a.before(c) || c.before(b),
    ;
}

/// `out` is `inp` rearranged by the index map `p` (`out[i] == inp[p[i]]`),
/// sorted, with equivalent elements in their original order.
pub open spec fn is_stable_sort<T: StableOrder>(out: Seq<T>, inp: Seq<T>, p: Seq<int>) -> bool {
    &&& out.len() == inp.len()
    &&& p.len() == inp.len()
    &&& forall|i: int| 0 <= i < p.len() ==> 0 <= #[trigger] p[i] < inp.len()
    &&& forall|i: int, j: int| 0 <= i < j < p.len() ==> #[trigger] p[i] != #[trigger] p[j]
    &&& forall|i: int| 0 <= i < out.len() ==> #[trigger] out[i] == inp[p[i]]
    &&& forall|i: int, j: int| 0 <= i < j < out.len() ==> !(#[trigger] out[j]).before(#[trigger] out[i])
    &&& forall|i: int, j: int|
        0 <= i < j < out.len() && !(#[trigger] out[i]).before(#[trigger] out[j]) ==> p[i] < p[j]
}

/// `out` is the stable sort of `inp`.
pub open spec fn stably_sorted_from<T: StableOrder>(out: Seq<T>, inp: Seq<T>) -> bool {
    exists|p: Seq<int>| is_stable_sort(out, inp, p)
}

proof fn lemma_insert_keeps_stable_sort<T: StableOrder>(out: Seq<T>, inp: Seq<T>, p: Seq<int>, x: T, pos: int)
    requires
        is_stable_sort(out, inp, p),
        0 <= pos <= out.len(),
        forall|j: int| 0 <= j < pos ==> !x.before(#[trigger] out[j]),
        pos < out.len() ==> x.before(out[pos]),
    ensures
        is_stable_sort(out.insert(pos, x), inp.push(x), p.insert(pos, inp.len() as int)),
{
    let o2 = out.insert(pos, x);
    let p2 = p.insert(pos, inp.len() as int);
    let i2 = inp.push(x);
    let n = inp.len() as int;
    assert forall|i: int| 0 <= i < p2.len() implies 0 <= #[trigger] p2[i] < i2.len() by {
        if i < pos {
            assert(p2[i] == p[i]);
        } else if i > pos {
            assert(p2[i] == p[i - 1]);
        }
    }
    assert forall|i: int, j: int| 0 <= i < j < p2.len() implies #[trigger] p2[i] != #[trigger] p2[j] by {
        if i != pos && j != pos {
            let i0 = if i < pos { i } else { i - 1 };
            let j0 = if j < pos { j } else { j - 1 };
            assert(p2[i] == p[i0] && p2[j] == p[j0]);
            assert(p[i0] != p[j0]);
        } else if i == pos {
            assert(p2[j] == p[j - 1]);
        } else {
            assert(p2[i] == p[i]);
        }
    }
    assert forall|i: int| 0 <= i < o2.len() implies #[trigger] o2[i] == i2[p2[i]] by {
        if i < pos {
            assert(o2[i] == out[i] && p2[i] == p[i]);
        } else if i > pos {
            assert(o2[i] == out[i - 1] && p2[i] == p[i - 1]);
        }
    }
    assert forall|i: int, j: int| 0 <= i < j < o2.len() implies !(#[trigger] o2[j]).before(#[trigger] o2[i]) by {
        if i != pos && j != pos {
            let i0 = if i < pos { i } else { i - 1 };
            let j0 = if j < pos { j } else { j - 1 };
            assert(o2[i] == out[i0] && o2[j] == out[j0]);
            assert(!out[j0].before(out[i0]));
        } else if i == pos {
            let j0 = j - 1;
            assert(o2[j] == out[j0]);
            if out[j0].before(x) {
                T::lemma_transitive(out[j0], x, out[pos]);
                if j0 == pos {
                    T::lemma_irreflexive(out[pos]);
                } else {
                    assert(!out[j0].before(out[pos]));
                }
            }
        } else {
            assert(o2[i] == out[i]);
        }
    }
    assert forall|i: int, j: int|
        0 <= i < j < o2.len() && !(#[trigger] o2[i]).before(#[trigger] o2[j]) implies p2[i] < p2[j] by {
        if i != pos && j != pos {
            let i0 = if i < pos { i } else { i - 1 };
            let j0 = if j < pos { j } else { j - 1 };
            assert(o2[i] == out[i0] && o2[j] == out[j0]);
            assert(p2[i] == p[i0] && p2[j] == p[j0]);
        } else if i == pos {
            let j0 = j - 1;
            assert(o2[j] == out[j0]);
            if j0 != pos {
                T::lemma_split(x, out[pos], out[j0]);
                assert(!out[j0].before(out[pos]));
            }
        } else {
            assert(p2[i] == p[i]);
        }
    }
}

/// Sorts by insertion: each element goes after every element it does not sort
/// before, so equivalent elements keep their order.
pub fn stable_sort<T: StableOrder>(items: Vec<T>) -> (r: Vec<T>)
    ensures
        stably_sorted_from(r@, items@),
{
    let ghost inp = items@;
    let mut rest = items;
    let mut out: Vec<T> = Vec::new();
    let ghost mut p: Seq<int> = Seq::empty();
    let ghost mut k: int = 0;
    assert(is_stable_sort(out@, inp.take(0), p));
    while rest.len() > 0
        invariant
            0 <= k <= inp.len(),
            rest@ == inp.skip(k),
            is_stable_sort(out@, inp.take(k), p),
        decreases rest.len(),
    {
        let x = rest.remove(0);
        assert(x == inp[k]);
        let mut pos: usize = 0;
        let mut stop = false;
        while !stop && pos < out.len()
            invariant
                pos <= out.len(),
                forall|j: int| 0 <= j < pos ==> !x.before(#[trigger] out@[j]),
                stop ==> pos < out.len() && x.before(out@[pos as int]),
            decreases out.len() - pos + (if stop { 0int } else { 1int }),
        {
            if x.is_before(&out[pos]) {
                stop = true;
            } else {
                pos = pos + 1;
            }
        }
        let ghost before = out@;
        out.insert(pos, x);
        proof {
            lemma_insert_keeps_stable_sort(before, inp.take(k), p, x, pos as int);
            assert(inp.take(k).push(x) == inp.take(k + 1));
            p = p.insert(pos as int, k);
            k = k + 1;
            assert(rest@ =~= inp.skip(k));
        }
    }
    assert(inp.take(k) == inp);
    assert(is_stable_sort(out@, inp, p));
    out
}


/// Position `x` of the input comes before position `y` in every stable sort:
/// its element sorts before, or the two are equivalent and `x` came first.
pub open spec fn index_precedes<T: StableOrder>(inp: Seq<T>, x: int, y: int) -> bool {
    inp[x].before(inp[y]) || (!inp[y].before(inp[x]) && x < y)
}

proof fn lemma_index_precedes_asymmetric<T: StableOrder>(inp: Seq<T>, x: int, y: int)
    requires
        index_precedes(inp, x, y),
    ensures
        !index_precedes(inp, y, x),
{
    if inp[x].before(inp[y]) && inp[y].before(inp[x]) {
        T::lemma_transitive(inp[x], inp[y], inp[x]);
        T::lemma_irreflexive(inp[x]);
    }
}

proof fn lemma_sort_map_increasing<T: StableOrder>(out: Seq<T>, inp: Seq<T>, p: Seq<int>, i: int, j: int)
    requires
        is_stable_sort(out, inp, p),
        0 <= i < j < out.len(),
    ensures
        index_precedes(inp, p[i], p[j]),
{
    assert(out[i] == inp[p[i]] && out[j] == inp[p[j]]);
    assert(!out[j].before(out[i]));
}

proof fn lemma_sort_map_onto<T: StableOrder>(out: Seq<T>, inp: Seq<T>, p: Seq<int>, x: int)
    requires
        is_stable_sort(out, inp, p),
        0 <= x < inp.len(),
    ensures
        exists|k: int| 0 <= k < p.len() && p[k] == x,
{
    let n = inp.len() as int;
    assert(p.no_duplicates()) by {
        assert forall|i: int, j: int| 0 <= i < p.len() && 0 <= j < p.len() && i != j implies p[i] != p[j] by {
            if i < j {
                assert(p[i] != p[j]);
            } else {
                assert(p[j] != p[i]);
            }
        }
    }
    p.unique_seq_to_set();
    lemma_int_range(0, n);
    assert(p.to_set().subset_of(set_int_range(0, n))) by {
        assert forall|v: int| p.to_set().contains(v) implies set_int_range(0, n).contains(v) by {
            let k = choose|k: int| 0 <= k < p.len() && p[k] == v;
            assert(0 <= p[k] < n);
        }
    }
    lemma_subset_equality(p.to_set(), set_int_range(0, n));
    assert(set_int_range(0, n).contains(x));
    assert(p.to_set().contains(x));
}

proof fn lemma_sort_maps_agree_up_to<T: StableOrder>(inp: Seq<T>, a: Seq<T>, pa: Seq<int>, b: Seq<T>, pb: Seq<int>, k: int)
    requires
        is_stable_sort(a, inp, pa),
        is_stable_sort(b, inp, pb),
        0 <= k <= inp.len(),
    ensures
        forall|i: int| 0 <= i < k ==> pa[i] == pb[i],
    decreases k,
{
    if k > 0 {
        lemma_sort_maps_agree_up_to(inp, a, pa, b, pb, k - 1);
        let c = k - 1;
        let u = pa[c];
        let v = pb[c];
        if u != v {
            if index_precedes(inp, u, v) {
                lemma_sort_map_onto(b, inp, pb, u);
                let m = choose|m: int| 0 <= m < pb.len() && pb[m] == u;
                if m < c {
                    assert(pa[m] == u);
                    assert(pa[m] != pa[c]);
                } else {
                    lemma_sort_map_increasing(b, inp, pb, c, m);
                    lemma_index_precedes_asymmetric(inp, u, v);
                }
            } else {
                assert(index_precedes(inp, v, u));
                lemma_sort_map_onto(a, inp, pa, v);
                let m = choose|m: int| 0 <= m < pa.len() && pa[m] == v;
                if m < c {
                    assert(pb[m] == v);
                    assert(pb[m] != pb[c]);
                } else {
                    lemma_sort_map_increasing(a, inp, pa, c, m);
                    lemma_index_precedes_asymmetric(inp, v, u);
                }
            }
        }
    }
}

/// A stable sort keeps every element: it is as long as its input, and each
/// input element stands somewhere in it.
pub proof fn lemma_stable_sort_keeps_elements<T: StableOrder>(out: Seq<T>, inp: Seq<T>, x: int)
    requires
        stably_sorted_from(out, inp),
        0 <= x < inp.len(),
    ensures
        out.len() == inp.len(),
        exists|k: int| 0 <= k < out.len() && out[k] == inp[x],
{
    let p = choose|p: Seq<int>| is_stable_sort(out, inp, p);
    lemma_sort_map_onto(out, inp, p, x);
    let k = choose|k: int| 0 <= k < p.len() && p[k] == x;
    assert(out[k] == inp[p[k]]);
}

/// A sequence has exactly one stable sort.
pub proof fn law_stable_sort_is_unique<T: StableOrder>(inp: Seq<T>, a: Seq<T>, b: Seq<T>)
    requires
        stably_sorted_from(a, inp),
        stably_sorted_from(b, inp),
    ensures
        a == b,
{
    let pa = choose|p: Seq<int>| is_stable_sort(a, inp, p);
    let pb = choose|p: Seq<int>| is_stable_sort(b, inp, p);
    lemma_sort_maps_agree_up_to(inp, a, pa, b, pb, inp.len() as int);
    assert forall|i: int| 0 <= i < a.len() implies a[i] == b[i] by {
        assert(a[i] == inp[pa[i]]);
        assert(b[i] == inp[pb[i]]);
    }
    assert(a =~= b);
}

} // verus!
