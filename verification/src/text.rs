//! Strings in the order that `String`'s `Ord` gives them (code point by code
//! point, a proper prefix first), and sorted lists of distinct strings.
use vstd::prelude::*;

verus! {

/// `a` comes strictly before `b`: at the first position where they differ the
/// character of `a` is the smaller, or `a` is a proper prefix of `b`.
pub open spec fn text_lt(a: Seq<char>, b: Seq<char>) -> bool
    decreases a.len(),
{
    if a.len() == 0 {
        b.len() > 0
    } else if b.len() == 0 {
        false
    } else if a[0] != b[0] {
        a[0] < b[0]
    } else {
        text_lt(a.drop_first(), b.drop_first())
    }
}

/// No text comes before itself.
pub proof fn lemma_text_lt_irreflexive(a: Seq<char>)
    ensures
        !text_lt(a, a),
    decreases a.len(),
{
    if a.len() > 0 {
        lemma_text_lt_irreflexive(a.drop_first());
    }
}

/// Of two different texts, one comes before the other, and not both ways.
pub proof fn lemma_text_lt_total(a: Seq<char>, b: Seq<char>)
    ensures
        a != b ==> (text_lt(a, b) || text_lt(b, a)),
        !(text_lt(a, b) && text_lt(b, a)),
    decreases a.len(),
{
    if a.len() == 0 {
        if b.len() == 0 {
            assert(a =~= b);
        }
    } else if b.len() == 0 {
    } else if a[0] != b[0] {
    } else {
        lemma_text_lt_total(a.drop_first(), b.drop_first());
        if a != b {
            assert(a.drop_first() != b.drop_first()) by {
                if a.drop_first() == b.drop_first() {
                    assert(a =~= seq![a[0]] + a.drop_first());
                    assert(b =~= seq![b[0]] + b.drop_first());
                }
            }
        }
    }
}

/// The order is transitive.
pub proof fn lemma_text_lt_transitive(a: Seq<char>, b: Seq<char>, c: Seq<char>)
    requires
        text_lt(a, b),
        text_lt(b, c),
    ensures
        text_lt(a, c),
    decreases a.len(),
{
    if a.len() > 0 && b.len() > 0 && c.len() > 0 && a[0] == b[0] && b[0] == c[0] {
        lemma_text_lt_transitive(a.drop_first(), b.drop_first(), c.drop_first());
    }
}

/// The texts of a list of strings.
pub open spec fn texts(v: Seq<String>) -> Seq<Seq<char>> {
    v.map_values(|s: String| s@)
}

/// Each text comes strictly before the next, so no text occurs twice.
pub open spec fn strictly_sorted(t: Seq<Seq<char>>) -> bool {
    forall|i: int, j: int| 0 <= i < j < t.len() ==> text_lt(#[trigger] t[i], #[trigger] t[j])
}

/// Whether `a` comes strictly before `b`.
pub fn string_lt(a: &String, b: &String) -> (r: bool)
    ensures
        r == text_lt(a@, b@),
{
    let sa = a.as_str();
    let sb = b.as_str();
    let la = sa.unicode_len();
    let lb = sb.unicode_len();
    let mut i: usize = 0;
    assert(a@.skip(0) =~= a@ && b@.skip(0) =~= b@);
    while i < la && i < lb
        invariant
            la == a@.len(),
            lb == b@.len(),
            sa@ == a@,
            sb@ == b@,
            i <= la,
            i <= lb,
            text_lt(a@, b@) == text_lt(a@.skip(i as int), b@.skip(i as int)),
        decreases la - i,
    {
        let ca = sa.get_char(i);
        let cb = sb.get_char(i);
        let ghost ta = a@.skip(i as int);
        let ghost tb = b@.skip(i as int);
        assert(ta[0] == ca && tb[0] == cb);
        if ca != cb {
            return ca < cb;
        }
        assert(ta.drop_first() =~= a@.skip(i + 1));
        assert(tb.drop_first() =~= b@.skip(i + 1));
        i = i + 1;
    }
    lb > la
}

/// Inserts `s` into a strictly sorted list, where it is not there yet.
pub fn insert_sorted(v: &mut Vec<String>, s: String)
    requires
        strictly_sorted(texts(old(v)@)),
    ensures
        strictly_sorted(texts(final(v)@)),
        texts(final(v)@).to_set() == texts(old(v)@).to_set().insert(s@),
{
    let n = v.len();
    let mut i: usize = 0;
    while i < n
        invariant
            n == v.len(),
            i <= n,
            v@ == old(v)@,
            strictly_sorted(texts(v@)),
            forall|k: int| 0 <= k < i ==> text_lt(#[trigger] texts(v@)[k], s@),
        ensures
            i <= n,
            v@ == old(v)@,
            forall|k: int| 0 <= k < i ==> text_lt(#[trigger] texts(v@)[k], s@),
            i < n ==> !text_lt(texts(v@)[i as int], s@),
        decreases n - i,
    {
        if !string_lt(&v[i], &s) {
            break;
        }
        i = i + 1;
    }
    let ghost t = texts(v@);
    if i < n && v[i] == s {
        assert(t[i as int] == s@);
        assert(t.to_set().insert(s@) =~= t.to_set()) by {
            assert(t.to_set().contains(s@));
        }
        return;
    }
    proof {
        if i < n {
            lemma_text_lt_total(s@, t[i as int]);
            assert(text_lt(s@, t[i as int]));
        }
    }
    let ghost sv = s@;
    v.insert(i, s);
    proof {
        let t2 = texts(v@);
        assert(t2 =~= t.subrange(0, i as int).push(sv) + t.subrange(i as int, t.len() as int));
        assert(t2.len() == t.len() + 1);
        assert forall|k: int| 0 <= k < t2.len() implies #[trigger] t2[k] == (if k < i {
            t[k]
        } else if k == i {
            sv
        } else {
            t[k - 1]
        }) by {}
        assert forall|a: int, b: int| 0 <= a < b < t2.len() implies text_lt(
            #[trigger] t2[a],
            #[trigger] t2[b],
        ) by {
            if b < i {
            } else if a < i && b == i {
            } else if a < i && b > i {
                assert(t2[b] == t[b - 1]);
            } else if a == i {
                assert(t2[b] == t[b - 1]);
                if b - 1 > i {
                    lemma_text_lt_transitive(sv, t[i as int], t[b - 1]);
                }
            } else {
                assert(t2[a] == t[a - 1] && t2[b] == t[b - 1]);
            }
        }
        assert(t2.to_set() =~= t.to_set().insert(sv)) by {
            assert forall|x: Seq<char>| t2.to_set().contains(x) <==> t.to_set().insert(sv).contains(x) by {
                if t2.to_set().contains(x) {
                    let k = choose|k: int| 0 <= k < t2.len() && t2[k] == x;
                    if k < i {
                        assert(t[k] == x);
                    } else if k > i {
                        assert(t[k - 1] == x);
                    }
                }
                if t.to_set().contains(x) {
                    let k = choose|k: int| 0 <= k < t.len() && t[k] == x;
                    if k < i {
                        assert(t2[k] == x);
                    } else {
                        assert(t2[k + 1] == x);
                    }
                }
                if x == sv {
                    assert(t2[i as int] == x);
                }
            }
        }
    }
}

} // verus!
