//! Lexicographic order on names, and sorted lists of distinct names.

use vstd::prelude::*;

use crate::text::views;

verus! {

/// `a` comes strictly before `b` in lexicographic order of code points.
pub open spec fn lex_lt(a: Seq<char>, b: Seq<char>) -> bool
    decreases a.len(),
{
    if a.len() == 0 {
        b.len() > 0
    } else if b.len() == 0 {
        false
    } else if a[0] != b[0] {
        (a[0] as int) < (b[0] as int)
    } else {
        lex_lt(a.drop_first(), b.drop_first())
    }
}

/// Every name comes strictly before the ones after it: the list is sorted
/// and holds no name twice.
pub open spec fn strictly_sorted(v: Seq<Seq<char>>) -> bool {
    forall|i: int, j: int| 0 <= i < j < v.len() ==> lex_lt(#[trigger] v[i], #[trigger] v[j])
}

/// Of two different sequences, exactly one comes before the other.
pub proof fn lemma_lex_total(a: Seq<char>, b: Seq<char>)
    ensures
        a != b ==> lex_lt(a, b) || lex_lt(b, a),
        !(lex_lt(a, b) && lex_lt(b, a)),
    decreases a.len(),
{
    if a.len() > 0 && b.len() > 0 {
        lemma_lex_total(a.drop_first(), b.drop_first());
        if a[0] == b[0] && a.drop_first() == b.drop_first() {
            assert(a =~= seq![a[0]] + a.drop_first());
            assert(b =~= seq![b[0]] + b.drop_first());
        }
    } else if a.len() == 0 && b.len() == 0 {
        assert(a =~= b);
    }
}

/// The order is transitive.
pub proof fn lemma_lex_transitive(a: Seq<char>, b: Seq<char>, c: Seq<char>)
    requires
        lex_lt(a, b),
        lex_lt(b, c),
    ensures
        lex_lt(a, c),
    decreases a.len(),
{
    if a.len() > 0 && b.len() > 0 && c.len() > 0 {
        if a[0] == b[0] && b[0] == c[0] {
            lemma_lex_transitive(a.drop_first(), b.drop_first(), c.drop_first());
        }
    }
}

/// Whether `a` comes strictly before `b` in lexicographic order.
pub fn lex_less(a: &str, b: &str) -> (r: bool)
    ensures
        r == lex_lt(a@, b@),
{
    let n = a.unicode_len();
    let m = b.unicode_len();
    let mut i: usize = 0;
    assert(a@.skip(0) =~= a@);
    assert(b@.skip(0) =~= b@);
    while i < n && i < m
        invariant
            n == a@.len(),
            m == b@.len(),
            i <= n,
            i <= m,
            lex_lt(a@, b@) == lex_lt(a@.skip(i as int), b@.skip(i as int)),
        decreases n - i,
    {
        let x = a.get_char(i);
        let y = b.get_char(i);
        if x != y {
            assert(a@.skip(i as int)[0] == x && b@.skip(i as int)[0] == y);
            return (x as u32) < (y as u32);
        }
        proof {
            assert(a@.skip(i as int).drop_first() =~= a@.skip(i + 1));
            assert(b@.skip(i as int).drop_first() =~= b@.skip(i + 1));
        }
        i = i + 1;
    }
    i < m
}

/// Adds `name` to a strictly sorted list, where its order puts it, unless
/// the list holds it already.
pub fn insert_sorted(names: &mut Vec<String>, name: String)
    requires
        strictly_sorted(views(old(names)@)),
    ensures
        strictly_sorted(views(final(names)@)),
        forall|x: Seq<char>|
            views(final(names)@).contains(x) <==> (views(old(names)@).contains(x) || x == name@),
{
    let ghost v = views(names@);
    let n = names.len();
    let mut p: usize = 0;
    while p < n && lex_less(names[p].as_str(), name.as_str())
        invariant
            n == names@.len(),
            v == views(names@),
            p <= n,
            forall|k: int| 0 <= k < p ==> lex_lt(#[trigger] v[k], name@),
        decreases n - p,
    {
        assert(v[p as int] == names@[p as int]@);
        p = p + 1;
    }
    if p < n {
        assert(v[p as int] == names@[p as int]@);
        proof {
            lemma_lex_total(v[p as int], name@);
        }
        if same_text(&names[p], &name) {
            assert(v.contains(name@));
            return;
        }
    }
    names.insert(p, name);
    proof {
        let w = views(names@);
        assert(w =~= v.insert(p as int, name@));
        assert forall|i: int, j: int| 0 <= i < j < w.len() implies lex_lt(
            #[trigger] w[i],
            #[trigger] w[j],
        ) by {
            if j == p {
            } else if i == p {
                if j > p + 1 {
                    lemma_lex_transitive(name@, v[p as int], v[j - 1]);
                }
            } else if i < p && j > p {
                if j - 1 > p {
                    lemma_lex_transitive(name@, v[p as int], v[j - 1]);
                }
                lemma_lex_transitive(v[i], name@, v[j - 1]);
            }
        }
        assert forall|x: Seq<char>| w.contains(x) <==> (v.contains(x) || x == name@) by {
            if w.contains(x) {
                let k = choose|k: int| 0 <= k < w.len() && w[k] == x;
                if k < p {
                    assert(v[k] == x);
                } else if k > p {
                    assert(v[k - 1] == x);
                }
            }
            if v.contains(x) {
                let k = choose|k: int| 0 <= k < v.len() && v[k] == x;
                if k < p {
                    assert(w[k] == x);
                } else {
                    assert(w[k + 1] == x);
                }
            }
            if x == name@ {
                assert(w[p as int] == x);
            }
        }
    }
}

/// Whether two strings hold the same characters.
pub fn same_text(a: &String, b: &String) -> (r: bool)
    ensures
        r == (a@ == b@),
{
    a.eq(b)
}

} // verus!
