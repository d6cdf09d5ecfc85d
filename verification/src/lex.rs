//! Lexicographic ordering of strings by character code point, and a
//! verified sort-with-deduplication used to normalize the environment
//! argument accumulator.

use vstd::prelude::*;

verus! {

/// Strict lexicographic order on character sequences, comparing code points.
/// A proper prefix sorts before its extensions.  This agrees with the
/// standard ordering of Rust strings, since UTF-8 byte order preserves code
/// point order.
pub open spec fn lex_lt(a: Seq<char>, b: Seq<char>) -> bool
    decreases a.len(),
{
    if b.len() == 0 {
        false
    } else if a.len() == 0 {
        true
    } else if a[0] == b[0] {
        lex_lt(a.drop_first(), b.drop_first())
    } else {
        (a[0] as int) < (b[0] as int)
    }
}

/// The order is irreflexive.
pub proof fn lemma_lex_irrefl(a: Seq<char>)
    ensures
        !lex_lt(a, a),
    decreases a.len(),
{
    if a.len() > 0 {
        lemma_lex_irrefl(a.drop_first());
    }
}

/// Any two sequences are ordered one way or the other, or equal.
pub proof fn lemma_lex_connex(a: Seq<char>, b: Seq<char>)
    ensures
        lex_lt(a, b) || lex_lt(b, a) || a == b,
    decreases a.len(),
{
    if a.len() == 0 && b.len() == 0 {
        assert(a =~= b);
    } else if a.len() > 0 && b.len() > 0 && a[0] == b[0] {
        lemma_lex_connex(a.drop_first(), b.drop_first());
        if a.drop_first() == b.drop_first() {
            assert(a.drop_first().len() == b.drop_first().len());
            assert(a.len() == b.len());
            assert forall|i: int| 0 <= i < a.len() implies a[i] == b[i] by {
                if i > 0 {
                    assert(a[i] == a.drop_first()[i - 1]);
                    assert(b[i] == b.drop_first()[i - 1]);
                }
            }
            assert(a =~= b);
        }
    } else if a.len() > 0 && b.len() > 0 {
        assert((a[0] as int) != (b[0] as int));
    }
}

/// The order is asymmetric.
pub proof fn lemma_lex_asym(a: Seq<char>, b: Seq<char>)
    ensures
        lex_lt(a, b) ==> !lex_lt(b, a),
    decreases a.len(),
{
    if a.len() > 0 && b.len() > 0 && a[0] == b[0] {
        lemma_lex_asym(a.drop_first(), b.drop_first());
    }
}

/// The order is transitive.
pub proof fn lemma_lex_trans(a: Seq<char>, b: Seq<char>, c: Seq<char>)
    ensures
        lex_lt(a, b) && lex_lt(b, c) ==> lex_lt(a, c),
    decreases a.len(),
{
    if lex_lt(a, b) && lex_lt(b, c) {
        if a.len() == 0 {
        } else {
            // all three are non-empty here
            if a[0] == b[0] && b[0] == c[0] {
                lemma_lex_trans(a.drop_first(), b.drop_first(), c.drop_first());
            }
        }
    }
}

/// Strictly increasing, hence duplicate-free, sequence of strings.
pub open spec fn sorted_uniq(s: Seq<Seq<char>>) -> bool {
    forall|i: int, j: int| 0 <= i < j < s.len() ==> lex_lt(s[i], s[j])
}

/// Insertion of `x` into a sorted sequence, keeping it sorted and dropping
/// `x` when an equal element is already present.
pub open spec fn insert_uniq(s: Seq<Seq<char>>, x: Seq<char>) -> Seq<Seq<char>>
    decreases s.len(),
{
    if s.len() == 0 {
        seq![x]
    } else if lex_lt(x, s[0]) {
        seq![x] + s
    } else if x == s[0] {
        s
    } else {
        seq![s[0]] + insert_uniq(s.drop_first(), x)
    }
}

/// The canonical sorted, duplicate-free form of a sequence of strings.
pub open spec fn spec_sort_dedup(s: Seq<Seq<char>>) -> Seq<Seq<char>>
    decreases s.len(),
{
    if s.len() == 0 {
        Seq::empty()
    } else {
        insert_uniq(spec_sort_dedup(s.drop_last()), s.last())
    }
}

/// Inserting preserves sortedness.
pub proof fn lemma_insert_uniq_sorted(s: Seq<Seq<char>>, x: Seq<char>)
    requires
        sorted_uniq(s),
    ensures
        sorted_uniq(insert_uniq(s, x)),
    decreases s.len(),
{
    if s.len() == 0 {
    } else if lex_lt(x, s[0]) {
        let r = seq![x] + s;
        assert forall|i: int, j: int| 0 <= i < j < r.len() implies lex_lt(r[i], r[j]) by {
            if i == 0 {
                if j == 1 {
                } else {
                    lemma_lex_trans(x, s[0], s[j - 1]);
                }
            }
        }
    } else if x == s[0] {
    } else {
        lemma_lex_connex(x, s[0]);
        assert(lex_lt(s[0], x));
        assert(sorted_uniq(s.drop_first()));
        lemma_insert_uniq_sorted(s.drop_first(), x);
        lemma_insert_uniq_membership(s.drop_first(), x);
        let t = insert_uniq(s.drop_first(), x);
        let r = seq![s[0]] + t;
        assert forall|i: int, j: int| 0 <= i < j < r.len() implies lex_lt(r[i], r[j]) by {
            if i == 0 {
                // r[j] is either x or an element of s.drop_first(): s[0] precedes both
                assert(t.contains(t[j - 1]));
                if t[j - 1] == x {
                } else {
                    let k = choose|k: int|
                        0 <= k < s.drop_first().len() && s.drop_first()[k] == t[j - 1];
                    assert(s[k + 1] == t[j - 1]);
                }
            }
        }
    }
}

/// Inserting adds exactly the inserted element to the members.
pub proof fn lemma_insert_uniq_membership(s: Seq<Seq<char>>, x: Seq<char>)
    ensures
        forall|y: Seq<char>| #[trigger]
            insert_uniq(s, x).contains(y) <==> s.contains(y) || y == x,
    decreases s.len(),
{
    let r = insert_uniq(s, x);
    if s.len() == 0 {
        assert forall|y: Seq<char>| #[trigger] r.contains(y) <==> s.contains(y) || y == x by {
            if y == x {
                assert(r[0] == x);
            }
            if s.contains(y) {
                assert(false);
            }
            if r.contains(y) {
                let k = choose|k: int| 0 <= k < r.len() && r[k] == y;
                assert(k == 0);
            }
        }
    } else if lex_lt(x, s[0]) {
        assert forall|y: Seq<char>| #[trigger] r.contains(y) <==> s.contains(y) || y == x by {
            if y == x {
                assert(r[0] == y);
            }
            if s.contains(y) {
                let k = choose|k: int| 0 <= k < s.len() && s[k] == y;
                assert(r[k + 1] == y);
            }
            if r.contains(y) {
                let k = choose|k: int| 0 <= k < r.len() && r[k] == y;
                if k > 0 {
                    assert(s[k - 1] == y);
                }
            }
        }
    } else if x == s[0] {
        assert forall|y: Seq<char>| #[trigger] r.contains(y) <==> s.contains(y) || y == x by {
            if y == x {
                assert(s[0] == y);
            }
        }
    } else {
        lemma_insert_uniq_membership(s.drop_first(), x);
        let t = insert_uniq(s.drop_first(), x);
        assert forall|y: Seq<char>| #[trigger] r.contains(y) <==> s.contains(y) || y == x by {
            if r.contains(y) {
                let k = choose|k: int| 0 <= k < r.len() && r[k] == y;
                if k == 0 {
                    assert(s[0] == y);
                } else {
                    assert(t.contains(t[k - 1]));
                    if t[k - 1] != x {
                        let m = choose|m: int|
                            0 <= m < s.drop_first().len() && s.drop_first()[m] == y;
                        assert(s[m + 1] == y);
                    }
                }
            }
            if s.contains(y) {
                let k = choose|k: int| 0 <= k < s.len() && s[k] == y;
                if k == 0 {
                    assert(r[0] == y);
                } else {
                    assert(s.drop_first()[k - 1] == y);
                    assert(t.contains(y));
                    let m = choose|m: int| 0 <= m < t.len() && t[m] == y;
                    assert(r[m + 1] == y);
                }
            }
            if y == x {
                assert(t.contains(y));
                let m = choose|m: int| 0 <= m < t.len() && t[m] == y;
                assert(r[m + 1] == y);
            }
        }
    }
}

/// The normalized form is sorted (and therefore duplicate-free).
pub proof fn lemma_sort_dedup_sorted(s: Seq<Seq<char>>)
    ensures
        sorted_uniq(spec_sort_dedup(s)),
    decreases s.len(),
{
    if s.len() > 0 {
        lemma_sort_dedup_sorted(s.drop_last());
        lemma_insert_uniq_sorted(spec_sort_dedup(s.drop_last()), s.last());
    }
}

/// Normalizing keeps exactly the members of the input.
pub proof fn lemma_sort_dedup_membership(s: Seq<Seq<char>>)
    ensures
        forall|y: Seq<char>| #[trigger]
            spec_sort_dedup(s).contains(y) <==> s.contains(y),
    decreases s.len(),
{
    if s.len() > 0 {
        lemma_sort_dedup_membership(s.drop_last());
        lemma_insert_uniq_membership(spec_sort_dedup(s.drop_last()), s.last());
        let r = spec_sort_dedup(s);
        assert forall|y: Seq<char>| #[trigger] r.contains(y) <==> s.contains(y) by {
            if r.contains(y) {
                if y != s.last() {
                    assert(s.drop_last().contains(y));
                    let k = choose|k: int| 0 <= k < s.drop_last().len() && s.drop_last()[k] == y;
                    assert(s[k] == y);
                } else {
                    assert(s[s.len() - 1] == y);
                }
            }
            if s.contains(y) {
                let k = choose|k: int| 0 <= k < s.len() && s[k] == y;
                if k < s.len() - 1 {
                    assert(s.drop_last()[k] == y);
                }
            }
        }
    }
}

/// Where the lower-bound position `j` of `x` in a sorted sequence is known,
/// `insert_uniq` either finds `x` at `j` or splices it in at `j`.
proof fn lemma_insert_uniq_at(s: Seq<Seq<char>>, x: Seq<char>, j: int)
    requires
        sorted_uniq(s),
        0 <= j <= s.len(),
        forall|k: int| 0 <= k < j ==> lex_lt(s[k], x),
        j < s.len() ==> !lex_lt(s[j], x),
    ensures
        j < s.len() && s[j] == x ==> insert_uniq(s, x) == s,
        !(j < s.len() && s[j] == x) ==> insert_uniq(s, x) == s.subrange(0, j) + seq![x]
            + s.subrange(j, s.len() as int),
    decreases s.len(),
{
    if s.len() == 0 {
        assert(insert_uniq(s, x) =~= s.subrange(0, 0) + seq![x] + s.subrange(0, 0));
    } else if j == 0 {
        if lex_lt(x, s[0]) {
            assert(insert_uniq(s, x) =~= s.subrange(0, 0) + seq![x] + s.subrange(
                0,
                s.len() as int,
            ));
        } else if x == s[0] {
        } else {
            lemma_lex_connex(x, s[0]);
            assert(false);
        }
    } else {
        lemma_lex_asym(s[0], x);
        lemma_lex_irrefl(s[0]);
        let s1 = s.drop_first();
        assert(sorted_uniq(s1)) by {
            assert forall|p: int, q: int| 0 <= p < q < s1.len() implies lex_lt(s1[p], s1[q]) by {
                assert(s1[p] == s[p + 1]);
                assert(s1[q] == s[q + 1]);
            }
        }
        assert forall|k: int| 0 <= k < j - 1 implies lex_lt(s1[k], x) by {
            assert(s1[k] == s[k + 1]);
        }
        assert(j - 1 < s1.len() ==> !lex_lt(s1[j - 1], x)) by {
            if j - 1 < s1.len() {
                assert(s1[j - 1] == s[j]);
            }
        }
        lemma_insert_uniq_at(s1, x, j - 1);
        if j < s.len() && s[j] == x {
            assert(s1[j - 1] == x);
            assert(insert_uniq(s, x) =~= s);
        } else {
            assert(insert_uniq(s, x) =~= s.subrange(0, j) + seq![x] + s.subrange(
                j,
                s.len() as int,
            ));
        }
    }
}

/// A sorted, duplicate-free sequence has no duplicates in the usual sense.
pub proof fn lemma_sorted_uniq_no_duplicates(s: Seq<Seq<char>>)
    requires
        sorted_uniq(s),
    ensures
        s.no_duplicates(),
{
    assert forall|i: int, j: int| 0 <= i < s.len() && 0 <= j < s.len() && i != j implies s[i]
        != s[j] by {
        if i < j {
            lemma_lex_irrefl(s[i]);
        } else {
            lemma_lex_irrefl(s[j]);
        }
    }
}

/// Lexicographic comparison of two string slices, character by character.
pub fn str_lex_lt(a: &str, b: &str) -> (r: bool)
    ensures
        r == lex_lt(a@, b@),
{
    let alen = a.unicode_len();
    let blen = b.unicode_len();
    let mut i: usize = 0;
    proof {
        assert(a@.skip(0) =~= a@);
        assert(b@.skip(0) =~= b@);
    }
    loop
        invariant
            i <= alen,
            i <= blen,
            alen == a@.len(),
            blen == b@.len(),
            lex_lt(a@, b@) == lex_lt(a@.skip(i as int), b@.skip(i as int)),
        decreases alen - i,
    {
        if i == blen {
            proof {
                assert(b@.skip(i as int).len() == 0);
            }
            return false;
        }
        if i == alen {
            proof {
                assert(a@.skip(i as int).len() == 0);
                assert(b@.skip(i as int).len() > 0);
            }
            return true;
        }
        let ca = a.get_char(i);
        let cb = b.get_char(i);
        proof {
            assert(a@.skip(i as int)[0] == a@[i as int]);
            assert(b@.skip(i as int)[0] == b@[i as int]);
        }
        if ca != cb {
            return (ca as u32) < (cb as u32);
        }
        proof {
            assert(a@.skip(i as int).drop_first() =~= a@.skip(i as int + 1));
            assert(b@.skip(i as int).drop_first() =~= b@.skip(i as int + 1));
        }
        i += 1;
    }
}

/// The number of leading elements of `out` that sort strictly before `x`.
fn lower_bound(out: &Vec<String>, x: &String) -> (j: usize)
    requires
        sorted_uniq(out.deep_view()),
    ensures
        j <= out.len(),
        forall|k: int| 0 <= k < j ==> lex_lt(out.deep_view()[k], x@),
        j < out.len() ==> !lex_lt(out.deep_view()[j as int], x@),
{
    let mut j: usize = 0;
    while j < out.len()
        invariant
            j <= out.len(),
            forall|k: int| 0 <= k < j ==> lex_lt(out.deep_view()[k], x@),
        decreases out.len() - j,
    {
        if !str_lex_lt(out[j].as_str(), x.as_str()) {
            return j;
        }
        proof {
            assert(out.deep_view()[j as int] == out@[j as int]@);
        }
        j += 1;
    }
    j
}

/// Inserts `x` into a sorted accumulator, skipping it when already present.
fn insert_sorted(out: &mut Vec<String>, x: String)
    requires
        sorted_uniq(old(out).deep_view()),
    ensures
        final(out).deep_view() == insert_uniq(old(out).deep_view(), x@),
        sorted_uniq(final(out).deep_view()),
{
    let ghost s = out.deep_view();
    let j = lower_bound(out, &x);
    proof {
        lemma_insert_uniq_at(s, x@, j as int);
        lemma_insert_uniq_sorted(s, x@);
    }
    if j < out.len() && out[j] == x {
        proof {
            assert(s[j as int] == out@[j as int]@);
        }
    } else {
        proof {
            if j < out.len() {
                assert(s[j as int] == out@[j as int]@);
            }
        }
        out.insert(j, x);
        proof {
            assert(out.deep_view() =~= s.subrange(0, j as int) + seq![x@] + s.subrange(
                j as int,
                s.len() as int,
            ));
        }
    }
}

/// Sorts a list of strings and removes duplicates, returning the canonical
/// normalized form `spec_sort_dedup` of its input.
pub fn sort_dedup(v: Vec<String>) -> (r: Vec<String>)
    ensures
        r.deep_view() == spec_sort_dedup(v.deep_view()),
{
    let mut out: Vec<String> = Vec::new();
    let mut i: usize = 0;
    proof {
        assert(out.deep_view() =~= spec_sort_dedup(v.deep_view().take(0)));
    }
    while i < v.len()
        invariant
            i <= v.len(),
            out.deep_view() == spec_sort_dedup(v.deep_view().take(i as int)),
            sorted_uniq(out.deep_view()),
        decreases v.len() - i,
    {
        let x = v[i].clone();
        proof {
            assert(x@ == v.deep_view()[i as int]);
        }
        insert_sorted(&mut out, x);
        proof {
            let dv = v.deep_view();
            assert(dv.take(i as int + 1).drop_last() =~= dv.take(i as int));
            assert(dv.take(i as int + 1).last() == dv[i as int]);
        }
        i += 1;
    }
    proof {
        assert(v.deep_view().take(v.len() as int) =~= v.deep_view());
    }
    out
}

} // verus!
