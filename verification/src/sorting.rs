//! Stable sorting by a strict "sorts before" relation, as `slice::sort_by` does: rows that neither
//! sorts before the other keep their original relative order.
use vstd::prelude::*;

verus! {

/// Where `x` goes in the already sorted `s` so that the sort stays stable: after every row that
/// `x` does not sort before.
pub open spec fn insertion_index<T>(s: Seq<T>, x: T, before: spec_fn(T, T) -> bool) -> nat
    decreases s.len(),
{
    if s.len() == 0 || !before(x, s.last()) {
        s.len()
    } else {
        insertion_index(s.drop_last(), x, before)
    }
}

/// `s` with `x` inserted at its stable place.
pub open spec fn insert_in_order<T>(s: Seq<T>, x: T, before: spec_fn(T, T) -> bool) -> Seq<T> {
    let p = insertion_index(s, x, before) as int;
    s.take(p) + seq![x] + s.skip(p)
}

/// `s` stably sorted by `before`.
pub open spec fn sorted_stably<T>(s: Seq<T>, before: spec_fn(T, T) -> bool) -> Seq<T>
    decreases s.len(),
{
    if s.len() == 0 {
        s
    } else {
        insert_in_order(sorted_stably(s.drop_last(), before), s.last(), before)
    }
}

/// The stable place of `x` lies within `s`.
proof fn lemma_insertion_index_bound<T>(s: Seq<T>, x: T, before: spec_fn(T, T) -> bool)
    ensures
        insertion_index(s, x, before) <= s.len(),
    decreases s.len(),
{
    if s.len() > 0 && before(x, s.last()) {
        lemma_insertion_index_bound(s.drop_last(), x, before);
    }
}

/// **Sorting only reorders**: the stably sorted sequence is as long as `s`, and each of its
/// elements is an element of `s`.
pub proof fn lemma_sorted_keeps_elements<T>(s: Seq<T>, before: spec_fn(T, T) -> bool)
    ensures
        sorted_stably(s, before).len() == s.len(),
        forall|k: int| 0 <= k < s.len() ==> s.contains(#[trigger] sorted_stably(s, before)[k]),
    decreases s.len(),
{
    if s.len() > 0 {
        let rest = s.drop_last();
        let r = sorted_stably(rest, before);
        lemma_sorted_keeps_elements(rest, before);
        let x = s.last();
        lemma_insertion_index_bound(r, x, before);
        let p = insertion_index(r, x, before) as int;
        let out = r.take(p) + seq![x] + r.skip(p);
        assert(sorted_stably(s, before) == out);
        assert forall|k: int| 0 <= k < s.len() implies s.contains(#[trigger] sorted_stably(s, before)[k]) by {
            if k < p {
                assert(out[k] == r[k]);
                let w = choose|w: int| 0 <= w < rest.len() && rest[w] == r[k];
                assert(s[w] == rest[w]);
            } else if k == p {
                assert(out[k] == x);
                assert(s[s.len() - 1] == x);
            } else {
                assert(out[k] == r[k - 1]);
                let w = choose|w: int| 0 <= w < rest.len() && rest[w] == r[k - 1];
                assert(s[w] == rest[w]);
            }
        }
    }
}

/// **Sorting loses nothing**: every element of `s` is an element of the stably sorted sequence.
pub proof fn lemma_sorted_contains_all<T>(s: Seq<T>, before: spec_fn(T, T) -> bool)
    ensures
        forall|k: int| 0 <= k < s.len() ==> sorted_stably(s, before).contains(#[trigger] s[k]),
    decreases s.len(),
{
    if s.len() > 0 {
        let rest = s.drop_last();
        let r = sorted_stably(rest, before);
        lemma_sorted_contains_all(rest, before);
        let x = s.last();
        lemma_insertion_index_bound(r, x, before);
        let p = insertion_index(r, x, before) as int;
        let out = r.take(p) + seq![x] + r.skip(p);
        assert(sorted_stably(s, before) == out);
        assert forall|k: int| 0 <= k < s.len() implies out.contains(#[trigger] s[k]) by {
            if k == s.len() - 1 {
                assert(out[p] == x);
            } else {
                assert(s[k] == rest[k]);
                assert(r.contains(rest[k]));
                let w = choose|w: int| 0 <= w < r.len() && r[w] == rest[k];
                if w < p {
                    assert(out[w] == r[w]);
                } else {
                    assert(out[w + 1] == r[w]);
                }
            }
        }
    }
}

/// Where `x` lands in `s`: it sorts before every row from its place on, and not before the row
/// just ahead of it.
proof fn lemma_insertion_index_place<T>(s: Seq<T>, x: T, before: spec_fn(T, T) -> bool)
    ensures
        insertion_index(s, x, before) <= s.len(),
        forall|k: int| insertion_index(s, x, before) <= k < s.len() ==> before(x, #[trigger] s[k]),
        insertion_index(s, x, before) > 0 ==> !before(x, s[insertion_index(s, x, before) - 1]),
    decreases s.len(),
{
    if s.len() > 0 && before(x, s.last()) {
        let d = s.drop_last();
        lemma_insertion_index_place(d, x, before);
        assert forall|k: int| insertion_index(s, x, before) <= k < s.len() implies before(x, #[trigger] s[k]) by {
            if k < s.len() - 1 {
                assert(s[k] == d[k]);
            }
        }
        if insertion_index(s, x, before) > 0 {
            assert(s[insertion_index(s, x, before) - 1] == d[insertion_index(s, x, before) - 1]);
        }
    }
}

/// **A stable sort leaves no inversion**: when `before` is asymmetric and its complement is
/// transitive (a strict weak order), no row of the sorted sequence sorts before a row ahead of it.
pub proof fn lemma_sorted_has_no_inversion<T>(s: Seq<T>, before: spec_fn(T, T) -> bool)
    requires
        forall|a: T, b: T| #[trigger] before(a, b) ==> !before(b, a),
        forall|a: T, b: T, c: T| #![trigger before(a, b), before(b, c)] !before(a, b) && !before(b, c) ==> !before(a, c),
    ensures
        forall|i: int, j: int|
            0 <= i < j < sorted_stably(s, before).len() ==> !before(
                #[trigger] sorted_stably(s, before)[j],
                #[trigger] sorted_stably(s, before)[i],
            ),
    decreases s.len(),
{
    if s.len() > 0 {
        let rest = s.drop_last();
        let r = sorted_stably(rest, before);
        lemma_sorted_has_no_inversion(rest, before);
        lemma_sorted_keeps_elements(rest, before);
        let x = s.last();
        lemma_insertion_index_place(r, x, before);
        let p = insertion_index(r, x, before) as int;
        let out = r.take(p) + seq![x] + r.skip(p);
        assert(sorted_stably(s, before) == out);
        assert forall|i: int, j: int| 0 <= i < j < out.len() implies !before(#[trigger] out[j], #[trigger] out[i]) by {
            if j < p {
                assert(out[i] == r[i] && out[j] == r[j]);
            } else if j == p {
                assert(out[j] == x && out[i] == r[i]);
                if i < p - 1 {
                    assert(!before(r[p - 1], r[i]));
                    assert(!before(x, r[p - 1]));
                }
            } else if i < p {
                assert(out[i] == r[i] && out[j] == r[j - 1]);
            } else if i == p {
                assert(out[i] == x && out[j] == r[j - 1]);
                assert(before(x, r[j - 1]));
            } else {
                assert(out[i] == r[i - 1] && out[j] == r[j - 1]);
            }
        }
    }
}

/// Whether the executable comparison `lt` decides `before` on every pair.
pub open spec fn decides<T, F: Fn(&T, &T) -> bool>(lt: F, before: spec_fn(T, T) -> bool) -> bool {
    &&& forall|a: &T, b: &T| #[trigger] lt.requires((a, b))
    &&& forall|a: &T, b: &T, r: bool| #[trigger] lt.ensures((a, b), r) ==> r == before(*a, *b)
}

proof fn lemma_index_step<T>(s: Seq<T>, x: T, before: spec_fn(T, T) -> bool, j: int)
    requires
        0 < j <= s.len(),
        before(x, s[j - 1]),
    ensures
        insertion_index(s.take(j), x, before) == insertion_index(s.take(j - 1), x, before),
{
    assert(s.take(j).drop_last() =~= s.take(j - 1));
}

/// Sort `items` stably by the comparison `lt`, which decides `before`.
pub fn sort_stably<T, F: Fn(&T, &T) -> bool>(
    items: Vec<T>,
    lt: F,
    Ghost(before): Ghost<spec_fn(T, T) -> bool>,
) -> (r: Vec<T>)
    requires
        decides(lt, before),
    ensures
        r@ == sorted_stably(items@, before),
{
    let ghost src = items@;
    let mut out: Vec<T> = Vec::new();
    for x in it: items.into_iter()
        invariant
            it.seq() == src,
            decides(lt, before),
            out@ == sorted_stably(src.take(it.index() as int), before),
    {
        let ghost i = it.index();
        let ghost sv = out@;
        let mut j: usize = out.len();
        assert(sv.take(j as int) =~= sv);
        while j > 0 && lt(&x, &out[j - 1])
            invariant
                0 <= j <= out@.len(),
                sv == out@,
                decides(lt, before),
                insertion_index(sv, x, before) == insertion_index(sv.take(j as int), x, before),
            decreases j,
        {
            proof {
                lemma_index_step(sv, x, before, j as int);
            }
            j -= 1;
        }
        proof {
            if j > 0 {
                assert(sv.take(j as int).last() == sv[j - 1]);
            }
            assert(src.take(i + 1).drop_last() =~= src.take(i));
            assert(src.take(i + 1).last() == x);
        }
        out.insert(j, x);
        proof {
            assert(out@ =~= sv.take(j as int) + seq![x] + sv.skip(j as int));
        }
    }
    assert(src.take(src.len() as int) =~= src);
    out
}

} // verus!
