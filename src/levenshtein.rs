//! Edit distance between character sequences, and closest-match lookup over a
//! list of candidate names.

use vstd::prelude::*;

use crate::text::{chars_of, views};

verus! {

pub open spec fn min2(x: nat, y: nat) -> nat {
    if x <= y {
        x
    } else {
        y
    }
}

/// The Levenshtein distance: the least number of single-character
/// insertions, deletions and substitutions that turn `a` into `b`.
pub open spec fn lev(a: Seq<char>, b: Seq<char>) -> nat
    decreases a.len() + b.len(),
{
    if a.len() == 0 {
        b.len()
    } else if b.len() == 0 {
        a.len()
    } else if a.last() == b.last() {
        lev(a.drop_last(), b.drop_last())
    } else {
        1 + min2(
            lev(a.drop_last(), b.drop_last()),
            min2(lev(a.drop_last(), b), lev(a, b.drop_last())),
        )
    }
}

/// The distance never exceeds the length of the longer sequence.
pub proof fn lemma_lev_bounded(a: Seq<char>, b: Seq<char>)
    ensures
        lev(a, b) <= a.len() || lev(a, b) <= b.len(),
        lev(a, b) <= if a.len() >= b.len() { a.len() } else { b.len() },
    decreases a.len() + b.len(),
{
    if a.len() > 0 && b.len() > 0 {
        lemma_lev_bounded(a.drop_last(), b.drop_last());
    }
}

/// A sequence is at distance zero from itself.
pub proof fn lemma_lev_self(s: Seq<char>)
    ensures
        lev(s, s) == 0,
    decreases s.len(),
{
    if s.len() > 0 {
        lemma_lev_self(s.drop_last());
    }
}

/// The distance to or from the empty sequence is the other one's length.
pub proof fn lemma_lev_empty(s: Seq<char>)
    ensures
        lev(s, Seq::<char>::empty()) == s.len(),
        lev(Seq::<char>::empty(), s) == s.len(),
{
}

/// The distance does not depend on the order of its arguments.
pub proof fn lemma_lev_symmetric(a: Seq<char>, b: Seq<char>)
    ensures
        lev(a, b) == lev(b, a),
    decreases a.len() + b.len(),
{
    if a.len() > 0 && b.len() > 0 {
        lemma_lev_symmetric(a.drop_last(), b.drop_last());
        lemma_lev_symmetric(a.drop_last(), b);
        lemma_lev_symmetric(a, b.drop_last());
    }
}

/// Whether `i` is the first position of `cands` whose distance to `s` is the
/// least among all of them.
pub open spec fn is_first_closest(s: Seq<char>, cands: Seq<Seq<char>>, i: int) -> bool {
    &&& 0 <= i < cands.len()
    &&& forall|k: int| 0 <= k < cands.len() ==> lev(s, cands[i]) <= #[trigger] lev(s, cands[k])
    &&& forall|k: int| 0 <= k < i ==> lev(s, cands[i]) < #[trigger] lev(s, cands[k])
}

pub struct Levenshtein;

impl Levenshtein {
    /// Edit distance between `s` and `t`, computed with one rolling row of
    /// the dynamic-programming table.
    pub fn distance(s: &str, t: &str) -> (r: usize)
        ensures
            r == lev(s@, t@),
    {
        let s_chars = chars_of(s);
        let t_chars = chars_of(t);
        let s_len = s_chars.len();
        let t_len = t_chars.len();
        let ghost sv = s_chars@;
        let ghost tv = t_chars@;

        if s_len == 0 {
            return t_len;
        }
        if t_len == 0 {
            return s_len;
        }
        // dp[i] holds the distance between the first i characters of s and
        // the characters of t seen so far.

        let mut dp: Vec<usize> = Vec::new();
        dp.push(0);
        let mut k: usize = 0;
        while k < s_len
            invariant
                k <= s_len,
                dp@.len() == k + 1,
                forall|m: int| 0 <= m <= k ==> dp@[m] == m,
            decreases s_len - k,
        {
            dp.push(k + 1);
            k = k + 1;
        }
        assert forall|m: int| 0 <= m <= s_len implies dp@[m] == lev(
            sv.take(m),
            tv.take(0),
        ) by {
            lemma_lev_empty(sv.take(m));
            assert(tv.take(0) =~= Seq::<char>::empty());
        }

        let mut j: usize = 0;
        while j < t_len
            invariant
                s_len == sv.len(),
                t_len == tv.len(),
                sv == s_chars@,
                tv == t_chars@,
                j <= t_len,
                dp@.len() == s_len + 1,
                forall|m: int| 0 <= m <= s_len ==> dp@[m] == lev(sv.take(m), tv.take(j as int)),
            decreases t_len - j,
        {
            let mut prev = dp[0];
            dp.set(0, j + 1);
            proof {
                assert(sv.take(0) =~= Seq::<char>::empty());
                lemma_lev_empty(tv.take(j + 1));
            }
            let mut i: usize = 0;
            while i < s_len
                invariant
                    s_len == sv.len(),
                    t_len == tv.len(),
                    sv == s_chars@,
                    tv == t_chars@,
                    j < t_len,
                    i <= s_len,
                    dp@.len() == s_len + 1,
                    prev == lev(sv.take(i as int), tv.take(j as int)),
                    forall|m: int| 0 <= m <= i ==> dp@[m] == lev(sv.take(m), tv.take(j + 1)),
                    forall|m: int|
                        i < m <= s_len ==> dp@[m] == lev(sv.take(m), tv.take(j as int)),
                decreases s_len - i,
            {
                let temp = dp[i + 1];
                let ghost a = sv.take(i + 1);
                let ghost b = tv.take(j + 1);
                proof {
                    assert(a.drop_last() =~= sv.take(i as int));
                    assert(b.drop_last() =~= tv.take(j as int));
                    lemma_lev_bounded(sv.take(i as int), tv.take(j as int));
                }
                if s_chars[i] == t_chars[j] {
                    dp.set(i + 1, prev);
                } else {
                    let left = dp[i];
                    let m1 = if left < temp {
                        left
                    } else {
                        temp
                    };
                    let m2 = if prev < m1 {
                        prev
                    } else {
                        m1
                    };
                    dp.set(i + 1, 1 + m2);
                }
                prev = temp;
                i = i + 1;
            }
            j = j + 1;
        }
        assert(sv.take(s_len as int) =~= sv);
        assert(tv.take(t_len as int) =~= tv);
        dp[s_len]
    }

    /// The position of the first candidate at the least distance from `s`, with
    /// that distance; `None` when there are no candidates.
    fn closest_index(s: &str, vars: &[String]) -> (r: Option<(usize, usize)>)
        ensures
            r is None <==> vars@.len() == 0,
            r matches Some(p) ==> is_first_closest(s@, views(vars@), p.0 as int) && p.1 == lev(
                s@,
                vars@[p.0 as int]@,
            ),
    {
        let ghost cs = views(vars@);
        let mut best: Option<(usize, usize)> = None;
        let mut i: usize = 0;
        while i < vars.len()
            invariant
                cs == views(vars@),
                i <= vars@.len(),
                best is None <==> i == 0,
                best matches Some(p) ==> {
                    &&& p.0 < i
                    &&& p.1 == lev(s@, cs[p.0 as int])
                    &&& forall|k: int| 0 <= k < i ==> lev(s@, cs[p.0 as int]) <= #[trigger] lev(s@, cs[k])
                    &&& forall|k: int| 0 <= k < p.0 ==> lev(s@, cs[p.0 as int]) < #[trigger] lev(s@, cs[k])
                },
            decreases vars@.len() - i,
        {
            let d = Self::distance(s, vars[i].as_str());
            assert(cs[i as int] == vars@[i as int]@);
            match best {
                None => {
                    best = Some((i, d));
                },
                Some(p) => {
                    if d < p.1 {
                        best = Some((i, d));
                    }
                },
            }
            i = i + 1;
        }
        best
    }

    /// The first candidate whose distance to `s` is the least; `None` when
    /// there are no candidates.
    pub fn get_closest<'a>(s: &str, vars: &'a [String]) -> (r: Option<&'a str>)
        ensures
            r is None <==> vars@.len() == 0,
            r matches Some(x) ==> exists|i: int|
                is_first_closest(s@, views(vars@), i) && x@ == #[trigger] vars@[i]@,
    {
        match Self::closest_index(s, vars) {
            None => None,
            Some(p) => Some(vars[p.0].as_str()),
        }
    }

    /// The first candidate whose distance to `s` is the least, provided that
    /// distance is at most `threshold`; `None` when no candidate is within
    /// `threshold` of `s`.
    pub fn get_closest_with_threshold<'a>(s: &str, vars: &'a [String], threshold: usize) -> (r:
        Option<&'a str>)
        ensures
            r is None <==> forall|k: int|
                0 <= k < vars@.len() ==> lev(s@, #[trigger] vars@[k]@) > threshold,
            r matches Some(x) ==> exists|i: int|
                is_first_closest(s@, views(vars@), i) && x@ == #[trigger] vars@[i]@,
    {
        let ghost cs = views(vars@);
        match Self::closest_index(s, vars) {
            None => None,
            Some(p) => {
                if p.1 <= threshold {
                    assert(cs[p.0 as int] == vars@[p.0 as int]@);
                    Some(vars[p.0].as_str())
                } else {
                    assert forall|k: int| 0 <= k < vars@.len() implies lev(
                        s@,
                        #[trigger] vars@[k]@,
                    ) > threshold by {
                        assert(cs[k] == vars@[k]@);
                    }
                    None
                }
            },
        }
    }
}

} // verus!
