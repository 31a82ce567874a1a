//! Sets of squares kept as vectors sorted by (file, rank) without repeats.
use vstd::prelude::*;
use crate::board::types::Square;

verus! {

/// The sort key of a square: by file, then by rank.
pub open spec fn sq_key(sq: Square) -> int {
    sq.file * 256 + sq.rank
}

/// Strictly increasing by (file, rank), hence without repeats.
pub open spec fn strictly_sorted(s: Seq<Square>) -> bool {
    forall|i: int, j: int| 0 <= i < j < s.len() ==> sq_key(#[trigger] s[i]) < sq_key(#[trigger] s[j])
}

/// Two strictly sorted sequences with the same members are equal.
pub proof fn lemma_sorted_unique(a: Seq<Square>, b: Seq<Square>)
    requires
        strictly_sorted(a),
        strictly_sorted(b),
        forall|x: Square| a.contains(x) <==> b.contains(x),
    ensures
        a == b,
    decreases a.len() + b.len(),
{
    if a.len() == 0 {
        if b.len() > 0 {
            assert(b.contains(b[0]));
        }
        assert(a =~= b);
    } else if b.len() == 0 {
        assert(a.contains(a[0]));
    } else {
        // the first elements are both the least member
        assert(a.contains(a[0]));
        assert(b.contains(b[0]));
        let ia = choose|i: int| 0 <= i < a.len() && a[i] == b[0];
        let ib = choose|i: int| 0 <= i < b.len() && b[i] == a[0];
        assert(sq_key(a[0]) <= sq_key(a[ia]));
        assert(sq_key(b[0]) <= sq_key(b[ib]));
        assert(a[0] == b[0]);
        let ta = a.subrange(1, a.len() as int);
        let tb = b.subrange(1, b.len() as int);
        assert forall|x: Square| ta.contains(x) <==> tb.contains(x) by {
            if ta.contains(x) {
                let k = choose|k: int| 0 <= k < ta.len() && ta[k] == x;
                assert(a[k + 1] == x);
                assert(sq_key(a[0]) < sq_key(x));
                assert(a.contains(x));
                let m = choose|m: int| 0 <= m < b.len() && b[m] == x;
                assert(m != 0);
                assert(tb[m - 1] == x);
            }
            if tb.contains(x) {
                let k = choose|k: int| 0 <= k < tb.len() && tb[k] == x;
                assert(b[k + 1] == x);
                assert(sq_key(b[0]) < sq_key(x));
                assert(b.contains(x));
                let m = choose|m: int| 0 <= m < a.len() && a[m] == x;
                assert(m != 0);
                assert(ta[m - 1] == x);
            }
        }
        lemma_sorted_unique(ta, tb);
        assert(a =~= seq![a[0]] + ta);
        assert(b =~= seq![b[0]] + tb);
    }
}

/// Adds `sq` to the sorted set `v`.
pub fn insert_sorted(v: &mut Vec<Square>, sq: Square)
    requires
        strictly_sorted(old(v)@),
    ensures
        strictly_sorted(final(v)@),
        forall|x: Square| #[trigger] final(v)@.contains(x) == (old(v)@.contains(x) || x == sq),
{
    let ghost w = v@;
    assert(w == old(v)@);
    let mut i: usize = 0;
    let key: u32 = sq.file as u32 * 256 + sq.rank as u32;
    while i < v.len() && (v[i].file as u32 * 256 + v[i].rank as u32) <= key
        invariant
            v@ == w,
            strictly_sorted(w),
            i <= w.len(),
            key == sq_key(sq),
            forall|j: int| 0 <= j < i ==> sq_key(#[trigger] w[j]) < sq_key(sq),
        decreases w.len() - i,
    {
        let k: u32 = v[i].file as u32 * 256 + v[i].rank as u32;
        if k == key {
            assert(v[i as int] == sq);
            assert(w.contains(sq));
            assert(forall|x: Square| v@.contains(x) <==> (w.contains(x) || x == sq));
            return;
        }
        i = i + 1;
    }
    assert(i == w.len() || sq_key(w[i as int]) > sq_key(sq));
    v.insert(i, sq);
    assert forall|x: Square| #[trigger] v@.contains(x) == (w.contains(x) || x == sq) by {
        if v@.contains(x) {
            let k = choose|k: int| 0 <= k < v@.len() && v@[k] == x;
            if k < i {
                assert(w[k] == x);
            } else if k > i {
                assert(w[k - 1] == x);
            }
        }
        if w.contains(x) {
            let k = choose|k: int| 0 <= k < w.len() && w[k] == x;
            if k < i {
                assert(v@[k] == x);
            } else {
                assert(v@[k + 1] == x);
            }
        }
        if x == sq {
            assert(v@[i as int] == x);
        }
    }
}

/// Adds every square of `extra` to the sorted set `v`.
pub fn insert_all_sorted(v: &mut Vec<Square>, extra: &Vec<Square>)
    requires
        strictly_sorted(old(v)@),
    ensures
        strictly_sorted(final(v)@),
        forall|x: Square| #[trigger] final(v)@.contains(x) == (old(v)@.contains(x) || extra@.contains(x)),
{
    let ghost w = v@;
    let mut i: usize = 0;
    while i < extra.len()
        invariant
            strictly_sorted(v@),
            i <= extra.len(),
            forall|x: Square| #[trigger] v@.contains(x) <==> (w.contains(x) || extra@.subrange(0, i as int).contains(x)),
        decreases extra.len() - i,
    {
        let ghost before = v@;
        insert_sorted(v, extra[i]);
        let ghost a = extra@.subrange(0, i as int);
        let ghost b = extra@.subrange(0, i + 1);
        assert(b =~= a.push(extra@[i as int]));
        assert forall|x: Square| b.contains(x) <==> (a.contains(x) || x == extra@[i as int]) by {
            if b.contains(x) {
                let k = choose|k: int| 0 <= k < b.len() && b[k] == x;
                if k < a.len() {
                    assert(a[k] == x);
                }
            }
            if a.contains(x) {
                let k = choose|k: int| 0 <= k < a.len() && a[k] == x;
                assert(b[k] == x);
            }
            if x == extra@[i as int] {
                assert(b[i as int] == x);
            }
        }
        assert forall|x: Square| v@.contains(x) <==> (w.contains(x) || b.contains(x)) by {
            assert(v@.contains(x) <==> (before.contains(x) || x == extra@[i as int]));
            assert(before.contains(x) <==> (w.contains(x) || a.contains(x)));
        }
        i = i + 1;
    }
    assert(extra@.subrange(0, extra.len() as int) =~= extra@);
}

/// The square whose sort key is `k`.
pub open spec fn key_square(k: int) -> Square {
    Square { file: (k / 256) as u8, rank: (k % 256) as u8 }
}

/// The squares with key below `n` that satisfy `p`, in key order.
pub open spec fn enumerate_below(p: spec_fn(Square) -> bool, n: int) -> Seq<Square>
    decreases n,
{
    if n <= 0 {
        Seq::empty()
    } else {
        let prev = enumerate_below(p, n - 1);
        if p(key_square(n - 1)) { prev.push(key_square(n - 1)) } else { prev }
    }
}

proof fn lemma_enumerate_below(p: spec_fn(Square) -> bool, n: int)
    requires
        0 <= n <= 65536,
    ensures
        strictly_sorted(enumerate_below(p, n)),
        forall|i: int| 0 <= i < enumerate_below(p, n).len() ==> sq_key(#[trigger] enumerate_below(p, n)[i]) < n,
        forall|t: Square| #[trigger] enumerate_below(p, n).contains(t) <==> (p(t) && sq_key(t) < n),
    decreases n,
{
    if n > 0 {
        lemma_enumerate_below(p, n - 1);
        let prev = enumerate_below(p, n - 1);
        let sq = key_square(n - 1);
        assert(sq_key(sq) == n - 1);
        assert forall|t: Square| sq_key(t) == n - 1 implies t == sq by {
            assert(t.file == (n - 1) / 256);
            assert(t.rank == (n - 1) % 256);
        }
        if p(sq) {
            let cur = prev.push(sq);
            assert forall|t: Square| cur.contains(t) <==> (p(t) && sq_key(t) < n) by {
                if cur.contains(t) && t != sq {
                    let k = choose|k: int| 0 <= k < cur.len() && cur[k] == t;
                    assert(prev[k] == t);
                    assert(prev.contains(t));
                }
                if p(t) && sq_key(t) < n && t != sq {
                    assert(prev.contains(t));
                    let k = choose|k: int| 0 <= k < prev.len() && prev[k] == t;
                    assert(cur[k] == t);
                }
                if t == sq {
                    assert(cur[prev.len() as int] == sq);
                }
            }
        }
    }
}

/// Every property of squares has its members listed in key order: the sets of
/// squares that the moves are kept as always exist.
pub proof fn lemma_sorted_enumeration(p: spec_fn(Square) -> bool)
    ensures
        exists|s: Seq<Square>| strictly_sorted(s) && forall|t: Square| #[trigger] s.contains(t) <==> p(t),
{
    lemma_enumerate_below(p, 65536);
    let s = enumerate_below(p, 65536);
    assert forall|t: Square| #[trigger] s.contains(t) <==> p(t) by {
        assert(sq_key(t) < 65536);
    }
}

} // verus!
