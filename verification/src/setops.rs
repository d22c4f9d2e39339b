//! Ordered, deduplicated name lists and their set algebra.
//!
//! A selection record holds its categories, subcategories and alternate
//! subcategories as lists sorted strictly by the lexicographic character
//! order and therefore free of duplicates. Union inserts into that order;
//! intersection and difference filter and so preserve it. On such lists the
//! union is commutative and idempotent, which is what makes `+` in the query
//! language behave as a set union.

use vstd::prelude::*;

use crate::text::{str_chars, string_of};

verus! {

/// Strict lexicographic order on character sequences, by code point.
pub open spec fn lex_lt(a: Seq<char>, b: Seq<char>) -> bool
    decreases a.len(),
{
    if b.len() == 0 {
        false
    } else if a.len() == 0 {
        true
    } else if a[0] != b[0] {
        (a[0] as u32) < (b[0] as u32)
    } else {
        lex_lt(a.skip(1), b.skip(1))
    }
}

/// No sequence is below itself.
pub proof fn lemma_lex_irreflexive(a: Seq<char>)
    ensures
        !lex_lt(a, a),
    decreases a.len(),
{
    if a.len() > 0 {
        lemma_lex_irreflexive(a.skip(1));
    }
}

/// Any two sequences are equal or strictly ordered, one way only.
pub proof fn lemma_lex_total(a: Seq<char>, b: Seq<char>)
    ensures
        a == b || lex_lt(a, b) || lex_lt(b, a),
        !(lex_lt(a, b) && lex_lt(b, a)),
    decreases a.len(),
{
    if a.len() == 0 && b.len() == 0 {
        assert(a =~= b);
    } else if a.len() > 0 && b.len() > 0 {
        if a[0] != b[0] {
            vstd::utf8::char_u32_cast(a[0], a[0] as u32);
            vstd::utf8::char_u32_cast(b[0], b[0] as u32);
            assert((a[0] as u32) != (b[0] as u32));
        } else {
            lemma_lex_total(a.skip(1), b.skip(1));
            if a.skip(1) == b.skip(1) {
                assert(a =~= b) by {
                    assert(forall|i: int|
                        1 <= i < a.len() ==> a[i] == a.skip(1)[i - 1] && b[i] == b.skip(1)[i - 1]);
                }
            }
        }
    }
}

/// The order is transitive.
pub proof fn lemma_lex_trans(a: Seq<char>, b: Seq<char>, c: Seq<char>)
    requires
        lex_lt(a, b),
        lex_lt(b, c),
    ensures
        lex_lt(a, c),
    decreases a.len(),
{
    if a.len() > 0 && b.len() > 0 && c.len() > 0 {
        if a[0] == b[0] && b[0] == c[0] {
            lemma_lex_trans(a.skip(1), b.skip(1), c.skip(1));
        }
    }
}

/// Strictly increasing in the lexicographic order, hence duplicate-free.
pub open spec fn sorted_unique(s: Seq<Seq<char>>) -> bool {
    forall|i: int, j: int| 0 <= i < j < s.len() ==> lex_lt(s[i], s[j])
}

/// `x` inserted into the sorted list `s`, keeping the order and dropping
/// the insertion when `x` is already there.
pub open spec fn sp_insert(s: Seq<Seq<char>>, x: Seq<char>) -> Seq<Seq<char>>
    decreases s.len(),
{
    if s.len() == 0 {
        seq![x]
    } else if x == s[0] {
        s
    } else if lex_lt(x, s[0]) {
        seq![x] + s
    } else {
        seq![s[0]] + sp_insert(s.skip(1), x)
    }
}

/// Insertion keeps the list sorted and adds exactly the new member.
pub proof fn lemma_insert_props(s: Seq<Seq<char>>, x: Seq<char>)
    requires
        sorted_unique(s),
    ensures
        sorted_unique(sp_insert(s, x)),
        forall|y: Seq<char>| #[trigger]
            sp_insert(s, x).contains(y) <==> (s.contains(y) || y == x),
        s.contains(x) ==> sp_insert(s, x) == s,
    decreases s.len(),
{
    lemma_lex_irreflexive(x);
    if s.len() == 0 {
        assert forall|y: Seq<char>| #[trigger]
            sp_insert(s, x).contains(y) <==> (s.contains(y) || y == x) by {
            if y == x {
                assert(sp_insert(s, x)[0] == x);
            }
        }
    } else if x == s[0] {
        assert forall|y: Seq<char>| s.contains(y) || y == x implies #[trigger] sp_insert(
            s,
            x,
        ).contains(y) by {
            if y == x {
                assert(s[0] == y);
            }
        }
    } else if lex_lt(x, s[0]) {
        let r = seq![x] + s;
        assert forall|i: int, j: int| 0 <= i < j < r.len() implies lex_lt(r[i], r[j]) by {
            if i == 0 {
                if j > 1 {
                    lemma_lex_trans(x, s[0], s[j - 1]);
                }
            }
        }
        assert forall|y: Seq<char>| #[trigger] r.contains(y) <==> (s.contains(y) || y == x) by {
            if y == x {
                assert(r[0] == y);
            }
            if s.contains(y) {
                let i = choose|i: int| 0 <= i < s.len() && s[i] == y;
                assert(r[i + 1] == y);
            }
            if r.contains(y) && y != x {
                let i = choose|i: int| 0 <= i < r.len() && r[i] == y;
                assert(i >= 1 && s[i - 1] == y);
            }
        }
        if s.contains(x) {
            let i = choose|i: int| 0 <= i < s.len() && s[i] == x;
            assert(i > 0);
            assert(lex_lt(s[0], s[i]));
            lemma_lex_total(x, s[0]);
            assert(false);
        }
    } else {
        lemma_lex_total(x, s[0]);
        assert(lex_lt(s[0], x));
        assert(sorted_unique(s.skip(1))) by {
            assert(forall|i: int, j: int|
                0 <= i < j < s.skip(1).len() ==> s.skip(1)[i] == s[i + 1] && s.skip(1)[j] == s[j
                    + 1]);
        }
        lemma_insert_props(s.skip(1), x);
        let t = sp_insert(s.skip(1), x);
        let r = seq![s[0]] + t;
        assert(sp_insert(s, x) == r);
        assert forall|i: int, j: int| 0 <= i < j < r.len() implies lex_lt(r[i], r[j]) by {
            if i == 0 {
                assert(t.contains(r[j])) by {
                    assert(t[j - 1] == r[j]);
                }
                if t.contains(r[j]) && r[j] != x {
                    let k = choose|k: int| 0 <= k < t.len() && t[k] == r[j];
                    assert(s.skip(1).contains(r[j]) || r[j] == x);
                    let m = choose|m: int| 0 <= m < s.skip(1).len() && s.skip(1)[m] == r[j];
                    assert(s[m + 1] == r[j]);
                    assert(lex_lt(s[0], s[m + 1]));
                }
            } else {
                assert(t[i - 1] == r[i] && t[j - 1] == r[j]);
            }
        }
        assert forall|y: Seq<char>| #[trigger] r.contains(y) <==> (s.contains(y) || y == x) by {
            if r.contains(y) {
                let i = choose|i: int| 0 <= i < r.len() && r[i] == y;
                if i == 0 {
                    assert(s[0] == y);
                } else {
                    assert(t[i - 1] == y);
                    assert(t.contains(y));
                    if y != x {
                        assert(s.skip(1).contains(y));
                        let m = choose|m: int| 0 <= m < s.skip(1).len() && s.skip(1)[m] == y;
                        assert(s[m + 1] == y);
                    }
                }
            }
            if y == x {
                assert(t.contains(y));
                let k = choose|k: int| 0 <= k < t.len() && t[k] == y;
                assert(r[k + 1] == y);
            }
            if s.contains(y) {
                let i = choose|i: int| 0 <= i < s.len() && s[i] == y;
                if i == 0 {
                    assert(r[0] == y);
                } else {
                    assert(s.skip(1)[i - 1] == y);
                    assert(t.contains(y));
                    let k = choose|k: int| 0 <= k < t.len() && t[k] == y;
                    assert(r[k + 1] == y);
                }
            }
        }
        if s.contains(x) {
            let i = choose|i: int| 0 <= i < s.len() && s[i] == x;
            assert(i > 0) by {
                if i == 0 {
                    assert(lex_lt(x, x));
                }
            }
            assert(s.skip(1)[i - 1] == x);
            assert(s.skip(1).contains(x));
            assert(t == s.skip(1));
            assert(r =~= s);
        }
    }
}

/// `s` sorted and deduplicated, by repeated insertion.
pub open spec fn sp_sort_dedup(s: Seq<Seq<char>>) -> Seq<Seq<char>>
    decreases s.len(),
{
    if s.len() == 0 {
        Seq::empty()
    } else {
        sp_insert(sp_sort_dedup(s.drop_last()), s.last())
    }
}

/// Sorting yields a sorted list with exactly the members of `s`.
pub proof fn lemma_sort_dedup_props(s: Seq<Seq<char>>)
    ensures
        sorted_unique(sp_sort_dedup(s)),
        forall|y: Seq<char>| #[trigger] sp_sort_dedup(s).contains(y) <==> s.contains(y),
    decreases s.len(),
{
    if s.len() == 0 {
    } else {
        lemma_sort_dedup_props(s.drop_last());
        lemma_insert_props(sp_sort_dedup(s.drop_last()), s.last());
        assert forall|y: Seq<char>| #[trigger] sp_sort_dedup(s).contains(y) <==> s.contains(y) by {
            if s.drop_last().contains(y) {
                let i = choose|i: int| 0 <= i < s.drop_last().len() && s.drop_last()[i] == y;
                assert(s[i] == y);
            }
            if y == s.last() {
                assert(s[s.len() - 1] == y);
            }
            if s.contains(y) {
                let i = choose|i: int| 0 <= i < s.len() && s[i] == y;
                if i < s.len() - 1 {
                    assert(s.drop_last()[i] == y);
                } else {
                    assert(y == s.last());
                }
            }
        }
    }
}

/// The union of two name lists: their concatenation, sorted and
/// deduplicated.
pub open spec fn sp_union(a: Seq<Seq<char>>, b: Seq<Seq<char>>) -> Seq<Seq<char>> {
    sp_sort_dedup(a + b)
}

/// The members of `a` that also stand in `b`, in their order in `a`.
pub open spec fn sp_inter(a: Seq<Seq<char>>, b: Seq<Seq<char>>) -> Seq<Seq<char>>
    decreases a.len(),
{
    if a.len() == 0 {
        Seq::empty()
    } else if b.contains(a[0]) {
        seq![a[0]] + sp_inter(a.skip(1), b)
    } else {
        sp_inter(a.skip(1), b)
    }
}

/// The members of `a` that do not stand in `b`, in their order in `a`.
pub open spec fn sp_diff(a: Seq<Seq<char>>, b: Seq<Seq<char>>) -> Seq<Seq<char>>
    decreases a.len(),
{
    if a.len() == 0 {
        Seq::empty()
    } else if !b.contains(a[0]) {
        seq![a[0]] + sp_diff(a.skip(1), b)
    } else {
        sp_diff(a.skip(1), b)
    }
}

/// A member stands in a concatenation exactly when it stands in a part.
pub proof fn lemma_concat_contains(a: Seq<Seq<char>>, b: Seq<Seq<char>>, y: Seq<char>)
    ensures
        (a + b).contains(y) <==> (a.contains(y) || b.contains(y)),
{
    if a.contains(y) {
        let i = choose|i: int| 0 <= i < a.len() && a[i] == y;
        assert((a + b)[i] == y);
    }
    if b.contains(y) {
        let i = choose|i: int| 0 <= i < b.len() && b[i] == y;
        assert((a + b)[a.len() + i] == y);
    }
    if (a + b).contains(y) {
        let i = choose|i: int| 0 <= i < (a + b).len() && (a + b)[i] == y;
        if i < a.len() {
            assert(a[i] == y);
        } else {
            assert(b[i - a.len()] == y);
        }
    }
}

/// Two sorted, duplicate-free lists with the same members are the same
/// list.
pub proof fn lemma_sorted_unique_canonical(a: Seq<Seq<char>>, b: Seq<Seq<char>>)
    requires
        sorted_unique(a),
        sorted_unique(b),
        forall|y: Seq<char>| #[trigger] a.contains(y) <==> b.contains(y),
    ensures
        a == b,
    decreases a.len(),
{
    if a.len() == 0 {
        if b.len() > 0 {
            assert(b.contains(b[0]));
            assert(!a.contains(b[0]));
            assert(false);
        }
        assert(a =~= b);
    } else {
        assert(a.contains(a[0]));
        assert(b.len() > 0);
        if a[0] != b[0] {
            assert(b.contains(a[0]));
            let j = choose|j: int| 0 <= j < b.len() && b[j] == a[0];
            assert(j > 0);
            assert(lex_lt(b[0], a[0]));
            assert(a.contains(b[0]));
            let i = choose|i: int| 0 <= i < a.len() && a[i] == b[0];
            assert(i > 0);
            assert(lex_lt(a[0], b[0]));
            lemma_lex_total(a[0], b[0]);
            assert(false);
        }
        let at = a.skip(1);
        let bt = b.skip(1);
        assert(sorted_unique(at) && sorted_unique(bt)) by {
            assert(forall|i: int, j: int|
                0 <= i < j < at.len() ==> at[i] == a[i + 1] && at[j] == a[j + 1]);
            assert(forall|i: int, j: int|
                0 <= i < j < bt.len() ==> bt[i] == b[i + 1] && bt[j] == b[j + 1]);
        }
        assert forall|y: Seq<char>| #[trigger] at.contains(y) <==> bt.contains(y) by {
            lemma_tail_contains(a, y);
            lemma_tail_contains(b, y);
        }
        lemma_sorted_unique_canonical(at, bt);
        assert(a =~= b) by {
            assert(forall|i: int| 1 <= i < a.len() ==> a[i] == at[i - 1] && b[i] == bt[i - 1]);
        }
    }
}

/// In a sorted, duplicate-free list, the tail holds exactly the members
/// other than the head.
proof fn lemma_tail_contains(a: Seq<Seq<char>>, y: Seq<char>)
    requires
        sorted_unique(a),
        a.len() > 0,
    ensures
        a.skip(1).contains(y) <==> (a.contains(y) && y != a[0]),
{
    lemma_lex_irreflexive(a[0]);
    if a.skip(1).contains(y) {
        let i = choose|i: int| 0 <= i < a.skip(1).len() && a.skip(1)[i] == y;
        assert(a[i + 1] == y);
        assert(lex_lt(a[0], a[i + 1]));
    }
    if a.contains(y) && y != a[0] {
        let i = choose|i: int| 0 <= i < a.len() && a[i] == y;
        assert(i > 0);
        assert(a.skip(1)[i - 1] == y);
    }
}

/// The union of two name lists does not depend on their order: `x + y` and
/// `y + x` select the same records.
pub proof fn lemma_union_commutative(a: Seq<Seq<char>>, b: Seq<Seq<char>>)
    ensures
        sp_union(a, b) == sp_union(b, a),
{
    lemma_sort_dedup_props(a + b);
    lemma_sort_dedup_props(b + a);
    assert forall|y: Seq<char>| #[trigger]
        sp_union(a, b).contains(y) <==> sp_union(b, a).contains(y) by {
        lemma_concat_contains(a, b, y);
        lemma_concat_contains(b, a, y);
    }
    lemma_sorted_unique_canonical(sp_union(a, b), sp_union(b, a));
}

/// Unioning a sorted list with itself gives it back unchanged: `x + x`
/// selects what `x` selects.
pub proof fn lemma_union_idempotent(a: Seq<Seq<char>>)
    requires
        sorted_unique(a),
    ensures
        sp_union(a, a) == a,
{
    lemma_sort_dedup_props(a + a);
    assert forall|y: Seq<char>| #[trigger] sp_union(a, a).contains(y) <==> a.contains(y) by {
        lemma_concat_contains(a, a, y);
    }
    lemma_sorted_unique_canonical(sp_union(a, a), a);
}

/// Filtering keeps the order: intersection and difference of a sorted list
/// are sorted.
pub proof fn lemma_filter_sorted(a: Seq<Seq<char>>, b: Seq<Seq<char>>)
    requires
        sorted_unique(a),
    ensures
        sorted_unique(sp_inter(a, b)),
        sorted_unique(sp_diff(a, b)),
        forall|y: Seq<char>| #[trigger]
            sp_inter(a, b).contains(y) <==> (a.contains(y) && b.contains(y)),
        forall|y: Seq<char>| #[trigger]
            sp_diff(a, b).contains(y) <==> (a.contains(y) && !b.contains(y)),
        forall|y: Seq<char>| sp_inter(a, b).contains(y) ==> lex_geq_head(a, y),
        forall|y: Seq<char>| sp_diff(a, b).contains(y) ==> lex_geq_head(a, y),
    decreases a.len(),
{
    if a.len() == 0 {
    } else {
        let at = a.skip(1);
        assert(sorted_unique(at)) by {
            assert(forall|i: int, j: int|
                0 <= i < j < at.len() ==> at[i] == a[i + 1] && at[j] == a[j + 1]);
        }
        lemma_filter_sorted(at, b);
        assert forall|y: Seq<char>| #[trigger] at.contains(y) implies a.contains(y) && lex_lt(
            a[0],
            y,
        ) by {
            let i = choose|i: int| 0 <= i < at.len() && at[i] == y;
            assert(a[i + 1] == y);
        }
        assert(a.contains(a[0]));
        if b.contains(a[0]) {
            let r = seq![a[0]] + sp_inter(at, b);
            assert(sp_inter(a, b) == r);
            lemma_cons_sorted(a[0], sp_inter(at, b), at, b);
        } else {
            let r = seq![a[0]] + sp_diff(at, b);
            assert(sp_diff(a, b) == r);
            lemma_cons_sorted_d(a[0], sp_diff(at, b), at, b);
        }
        assert forall|y: Seq<char>| #[trigger]
            sp_inter(a, b).contains(y) <==> (a.contains(y) && b.contains(y)) by {
            lemma_head_cases(a, b, y);
        }
        assert forall|y: Seq<char>| #[trigger]
            sp_diff(a, b).contains(y) <==> (a.contains(y) && !b.contains(y)) by {
            lemma_head_cases(a, b, y);
        }
    }
}

/// Everything a filtered list holds is at or above the head of the list it
/// was filtered from.
pub open spec fn lex_geq_head(a: Seq<Seq<char>>, y: Seq<char>) -> bool {
    a.len() > 0 ==> (y == a[0] || lex_lt(a[0], y))
}

proof fn lemma_cons_sorted(h: Seq<char>, t: Seq<Seq<char>>, at: Seq<Seq<char>>, b: Seq<Seq<char>>)
    requires
        sorted_unique(t),
        forall|y: Seq<char>| #[trigger] t.contains(y) ==> at.contains(y),
        forall|y: Seq<char>| #[trigger] at.contains(y) ==> lex_lt(h, y),
    ensures
        sorted_unique(seq![h] + t),
{
    let r = seq![h] + t;
    assert forall|i: int, j: int| 0 <= i < j < r.len() implies lex_lt(r[i], r[j]) by {
        if i == 0 {
            assert(t[j - 1] == r[j]);
            assert(t.contains(r[j]));
        } else {
            assert(t[i - 1] == r[i] && t[j - 1] == r[j]);
        }
    }
}

proof fn lemma_cons_sorted_d(h: Seq<char>, t: Seq<Seq<char>>, at: Seq<Seq<char>>, b: Seq<Seq<char>>)
    requires
        sorted_unique(t),
        forall|y: Seq<char>| #[trigger] t.contains(y) ==> at.contains(y),
        forall|y: Seq<char>| #[trigger] at.contains(y) ==> lex_lt(h, y),
    ensures
        sorted_unique(seq![h] + t),
{
    lemma_cons_sorted(h, t, at, b);
}

proof fn lemma_head_cases(a: Seq<Seq<char>>, b: Seq<Seq<char>>, y: Seq<char>)
    requires
        a.len() > 0,
    ensures
        a.contains(y) <==> (y == a[0] || a.skip(1).contains(y)),
        (seq![a[0]] + sp_inter(a.skip(1), b)).contains(y) <==> (y == a[0] || sp_inter(
            a.skip(1),
            b,
        ).contains(y)),
        (seq![a[0]] + sp_diff(a.skip(1), b)).contains(y) <==> (y == a[0] || sp_diff(
            a.skip(1),
            b,
        ).contains(y)),
{
    lemma_cons_contains(a[0], sp_inter(a.skip(1), b), y);
    lemma_cons_contains(a[0], sp_diff(a.skip(1), b), y);
    if a.contains(y) {
        let i = choose|i: int| 0 <= i < a.len() && a[i] == y;
        if i > 0 {
            assert(a.skip(1)[i - 1] == y);
        }
    }
    if a.skip(1).contains(y) {
        let i = choose|i: int| 0 <= i < a.skip(1).len() && a.skip(1)[i] == y;
        assert(a[i + 1] == y);
    }
}

proof fn lemma_cons_contains(h: Seq<char>, t: Seq<Seq<char>>, y: Seq<char>)
    ensures
        (seq![h] + t).contains(y) <==> (y == h || t.contains(y)),
{
    let r = seq![h] + t;
    if t.contains(y) {
        let i = choose|i: int| 0 <= i < t.len() && t[i] == y;
        assert(r[i + 1] == y);
    }
    if y == h {
        assert(r[0] == y);
    }
    if r.contains(y) {
        let i = choose|i: int| 0 <= i < r.len() && r[i] == y;
        if i > 0 {
            assert(t[i - 1] == y);
        }
    }
}

/// A common prefix does not decide the order: it is decided by the suffixes
/// after it.
proof fn lemma_lex_common_prefix(a: Seq<char>, b: Seq<char>, i: int)
    requires
        0 <= i <= a.len(),
        i <= b.len(),
        forall|k: int| 0 <= k < i ==> a[k] == b[k],
    ensures
        lex_lt(a, b) == lex_lt(a.skip(i), b.skip(i)),
    decreases i,
{
    if i == 0 {
        assert(a.skip(0) =~= a);
        assert(b.skip(0) =~= b);
    } else {
        lemma_lex_common_prefix(a.skip(1), b.skip(1), i - 1);
        assert(a.skip(1).skip(i - 1) =~= a.skip(i));
        assert(b.skip(1).skip(i - 1) =~= b.skip(i));
    }
}

/// Three-way lexicographic comparison of two character vectors: -1 below,
/// 0 equal, 1 above.
#[verifier::loop_isolation(false)]
fn lex_cmp_chars(a: &Vec<char>, b: &Vec<char>) -> (r: i8)
    ensures
        r == -1 || r == 0 || r == 1,
        (r == -1) == lex_lt(a@, b@),
        (r == 0) == (a@ == b@),
        (r == 1) == lex_lt(b@, a@),
{
    proof {
        lemma_lex_total(a@, b@);
        lemma_lex_irreflexive(a@);
    }
    let mut i: usize = 0;
    while i < a.len() && i < b.len()
        invariant
            i <= a@.len(),
            i <= b@.len(),
            forall|k: int| 0 <= k < i ==> a@[k] == b@[k],
        decreases a@.len() - i,
    {
        let ca = a[i];
        let cb = b[i];
        if ca != cb {
            proof {
                lemma_lex_common_prefix(a@, b@, i as int);
                lemma_lex_common_prefix(b@, a@, i as int);
                assert(a@.skip(i as int)[0] == ca && b@.skip(i as int)[0] == cb);
                vstd::utf8::char_u32_cast(ca, ca as u32);
                vstd::utf8::char_u32_cast(cb, cb as u32);
                assert(a@ != b@) by {
                    assert(a@[i as int] != b@[i as int]);
                }
            }
            if (ca as u32) < (cb as u32) {
                return -1;
            } else {
                return 1;
            }
        }
        i += 1;
    }
    proof {
        lemma_lex_common_prefix(a@, b@, if a@.len() <= b@.len() {
            a@.len() as int
        } else {
            b@.len() as int
        });
        lemma_lex_common_prefix(b@, a@, if a@.len() <= b@.len() {
            a@.len() as int
        } else {
            b@.len() as int
        });
        if a@.len() == b@.len() {
            assert(a@ =~= b@);
        }
    }
    if a.len() == b.len() {
        0
    } else if a.len() < b.len() {
        -1
    } else {
        1
    }
}

/// Three-way lexicographic comparison of two strings.
#[verifier::loop_isolation(false)]
pub fn lex_cmp(a: &str, b: &str) -> (r: i8)
    ensures
        r == -1 || r == 0 || r == 1,
        (r == -1) == lex_lt(a@, b@),
        (r == 0) == (a@ == b@),
        (r == 1) == lex_lt(b@, a@),
{
    let av = str_chars(a);
    let bv = str_chars(b);
    lex_cmp_chars(&av, &bv)
}

/// `x` inserted into the sorted list `v`, keeping the order and dropping
/// the insertion when `x` is already there.
#[verifier::loop_isolation(false)]
pub fn inserted(v: Vec<String>, x: String) -> (r: Vec<String>)
    requires
        sorted_unique(v.deep_view()),
    ensures
        r.deep_view() == sp_insert(v.deep_view(), x@),
        sorted_unique(r.deep_view()),
{
    let ghost s = v.deep_view();
    proof {
        lemma_insert_props(s, x@);
    }
    let mut w = v;
    let mut i: usize = 0;
    proof {
        assert(s.skip(0) =~= s);
        assert(s.take(0) + sp_insert(s.skip(0), x@) =~= sp_insert(s, x@));
    }
    while i < w.len()
        invariant
            w.deep_view() == s,
            i <= s.len(),
            s.take(i as int) + sp_insert(s.skip(i as int), x@) == sp_insert(s, x@),
            forall|k: int| 0 <= k < i ==> lex_lt(s[k], x@),
        decreases s.len() - i,
    {
        let ghost suf = s.skip(i as int);
        proof {
            assert(suf[0] == s[i as int]);
        }
        let c = lex_cmp(w[i].as_str(), x.as_str());
        if c == 0 {
            proof {
                assert(s[i as int] == w@[i as int]@);
                assert(x@ == suf[0]);
                assert(sp_insert(suf, x@) == suf);
                assert(s.take(i as int) + s.skip(i as int) =~= s);
            }
            return w;
        } else if c == 1 {
            let ghost pre = w.deep_view();
            w.insert(i, x);
            proof {
                assert(sp_insert(suf, x@) == seq![x@] + suf);
                assert(w.deep_view() =~~= pre.insert(i as int, x@));
                assert(w.deep_view() =~= s.take(i as int) + (seq![x@] + suf));
            }
            return w;
        }
        i += 1;
        proof {
            assert(s[i - 1] == w@[i - 1]@);
            assert(suf.skip(1) =~= s.skip(i as int));
            assert(sp_insert(suf, x@) == seq![suf[0]] + sp_insert(s.skip(i as int), x@));
            assert(s.take(i as int) + sp_insert(s.skip(i as int), x@) =~= s.take(i - 1) + (
            seq![suf[0]] + sp_insert(s.skip(i as int), x@)));
        }
    }
    let ghost pre = w.deep_view();
    w.push(x);
    proof {
        assert(s.skip(s.len() as int) =~= Seq::<Seq<char>>::empty());
        assert(sp_insert(s.skip(s.len() as int), x@) == seq![x@]);
        assert(w.deep_view() =~~= pre.push(x@));
        assert(w.deep_view() =~= s.take(s.len() as int) + seq![x@]);
    }
    w
}

/// `v` sorted and deduplicated.
#[verifier::loop_isolation(false)]
pub fn sort_dedup_list(v: &Vec<String>) -> (r: Vec<String>)
    ensures
        r.deep_view() == sp_sort_dedup(v.deep_view()),
        sorted_unique(r.deep_view()),
{
    let ghost s = v.deep_view();
    let mut out: Vec<String> = Vec::new();
    let mut k: usize = 0;
    proof {
        assert(out.deep_view() =~= Seq::<Seq<char>>::empty());
        assert(s.take(0) =~= Seq::<Seq<char>>::empty());
        lemma_sort_dedup_props(s.take(0));
    }
    while k < v.len()
        invariant
            v.deep_view() == s,
            k <= s.len(),
            out.deep_view() == sp_sort_dedup(s.take(k as int)),
            sorted_unique(out.deep_view()),
        decreases s.len() - k,
    {
        let x = v[k].clone();
        proof {
            assert(x@ == s[k as int]);
        }
        out = inserted(out, x);
        k += 1;
        proof {
            let u = s.take(k as int);
            assert(u.drop_last() =~= s.take(k - 1));
            assert(u.last() == s[k - 1]);
            lemma_sort_dedup_props(u);
        }
    }
    proof {
        assert(s.take(s.len() as int) =~= s);
    }
    out
}

/// Append the members of `b` to `a`.
#[verifier::loop_isolation(false)]
fn concat_lists(a: &Vec<String>, b: &Vec<String>) -> (r: Vec<String>)
    ensures
        r.deep_view() == a.deep_view() + b.deep_view(),
{
    let mut r: Vec<String> = Vec::new();
    let mut i: usize = 0;
    proof {
        assert(r.deep_view() =~= a.deep_view().take(0));
    }
    while i < a.len()
        invariant
            i <= a@.len(),
            r.deep_view() == a.deep_view().take(i as int),
        decreases a@.len() - i,
    {
        let ghost pre = r.deep_view();
        r.push(a[i].clone());
        i += 1;
        proof {
            assert(r.deep_view() =~~= pre.push(a.deep_view()[i - 1]));
            assert(r.deep_view() =~= a.deep_view().take(i as int));
        }
    }
    proof {
        assert(a.deep_view().take(a@.len() as int) =~= a.deep_view());
    }
    let mut j: usize = 0;
    proof {
        assert(r.deep_view() =~= a.deep_view() + b.deep_view().take(0));
    }
    while j < b.len()
        invariant
            j <= b@.len(),
            r.deep_view() == a.deep_view() + b.deep_view().take(j as int),
        decreases b@.len() - j,
    {
        let ghost pre = r.deep_view();
        r.push(b[j].clone());
        j += 1;
        proof {
            assert(r.deep_view() =~~= pre.push(b.deep_view()[j - 1]));
            assert(r.deep_view() =~= a.deep_view() + b.deep_view().take(j as int));
        }
    }
    proof {
        assert(b.deep_view().take(b@.len() as int) =~= b.deep_view());
    }
    r
}

/// The union of two name lists, sorted and deduplicated.
#[verifier::loop_isolation(false)]
pub fn union_lists(a: &Vec<String>, b: &Vec<String>) -> (r: Vec<String>)
    ensures
        r.deep_view() == sp_union(a.deep_view(), b.deep_view()),
        sorted_unique(r.deep_view()),
{
    let c = concat_lists(a, b);
    sort_dedup_list(&c)
}

/// Whether `x` stands in `v`.
#[verifier::loop_isolation(false)]
pub fn mem(v: &Vec<String>, x: &str) -> (r: bool)
    ensures
        r == v.deep_view().contains(x@),
{
    let mut i: usize = 0;
    while i < v.len()
        invariant
            i <= v@.len(),
            forall|k: int| 0 <= k < i ==> v.deep_view()[k] != x@,
        decreases v@.len() - i,
    {
        if crate::text::str_eq(v[i].as_str(), x) {
            proof {
                assert(v.deep_view()[i as int] == x@);
            }
            return true;
        }
        i += 1;
    }
    false
}

/// The members of `a` that also stand in `b`, in their order in `a`.
#[verifier::loop_isolation(false)]
pub fn inter_lists(a: &Vec<String>, b: &Vec<String>) -> (r: Vec<String>)
    ensures
        r.deep_view() == sp_inter(a.deep_view(), b.deep_view()),
{
    let ghost s = a.deep_view();
    let ghost bs = b.deep_view();
    let mut out: Vec<String> = Vec::new();
    let mut i: usize = 0;
    proof {
        assert(s.skip(0) =~= s);
        assert(out.deep_view() + sp_inter(s, bs) =~= sp_inter(s, bs));
    }
    while i < a.len()
        invariant
            a.deep_view() == s,
            b.deep_view() == bs,
            i <= s.len(),
            out.deep_view() + sp_inter(s.skip(i as int), bs) == sp_inter(s, bs),
        decreases s.len() - i,
    {
        let ghost suf = s.skip(i as int);
        let ghost pre = out.deep_view();
        proof {
            assert(suf[0] == s[i as int]);
        }
        if mem(b, a[i].as_str()) {
            out.push(a[i].clone());
            proof {
                assert(out.deep_view() =~~= pre.push(s[i as int]));
            }
        }
        i += 1;
        proof {
            assert(suf.skip(1) =~= s.skip(i as int));
            assert(out.deep_view() + sp_inter(s.skip(i as int), bs) =~= pre + sp_inter(suf, bs));
        }
    }
    proof {
        assert(s.skip(s.len() as int) =~= Seq::<Seq<char>>::empty());
        assert(out.deep_view() + sp_inter(Seq::empty(), bs) =~= out.deep_view());
    }
    out
}

/// The members of `a` that do not stand in `b`, in their order in `a`.
#[verifier::loop_isolation(false)]
pub fn diff_lists(a: &Vec<String>, b: &Vec<String>) -> (r: Vec<String>)
    ensures
        r.deep_view() == sp_diff(a.deep_view(), b.deep_view()),
{
    let ghost s = a.deep_view();
    let ghost bs = b.deep_view();
    let mut out: Vec<String> = Vec::new();
    let mut i: usize = 0;
    proof {
        assert(s.skip(0) =~= s);
        assert(out.deep_view() + sp_diff(s, bs) =~= sp_diff(s, bs));
    }
    while i < a.len()
        invariant
            a.deep_view() == s,
            b.deep_view() == bs,
            i <= s.len(),
            out.deep_view() + sp_diff(s.skip(i as int), bs) == sp_diff(s, bs),
        decreases s.len() - i,
    {
        let ghost suf = s.skip(i as int);
        let ghost pre = out.deep_view();
        proof {
            assert(suf[0] == s[i as int]);
        }
        if !mem(b, a[i].as_str()) {
            out.push(a[i].clone());
            proof {
                assert(out.deep_view() =~~= pre.push(s[i as int]));
            }
        }
        i += 1;
        proof {
            assert(suf.skip(1) =~= s.skip(i as int));
            assert(out.deep_view() + sp_diff(s.skip(i as int), bs) =~= pre + sp_diff(suf, bs));
        }
    }
    proof {
        assert(s.skip(s.len() as int) =~= Seq::<Seq<char>>::empty());
        assert(out.deep_view() + sp_diff(Seq::empty(), bs) =~= out.deep_view());
    }
    out
}

} // verus!
