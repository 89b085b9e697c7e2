//! Splitting a command line into tokens, honouring quotes and backslash
//! escapes, and joining continued physical lines into one command line.

use vstd::prelude::*;

use crate::text::{chars_of, push_char, views};

verus! {

pub open spec fn is_blank(c: char) -> bool {
    c == ' ' || c == '\t'
}

/// `toks` with `cur` appended as a token when it is not empty.
pub open spec fn flush(toks: Seq<Seq<char>>, cur: Seq<char>) -> Seq<Seq<char>> {
    if cur.len() > 0 {
        toks.push(cur)
    } else {
        toks
    }
}

/// The tokens produced from `cs[i..]` by the tokenizer's state machine, when
/// `toks` have been emitted so far, `cur` is the token being built, and
/// `sq` / `dq` tell whether a single / double quote is open.
pub open spec fn tokens_from(
    cs: Seq<char>,
    i: int,
    toks: Seq<Seq<char>>,
    cur: Seq<char>,
    sq: bool,
    dq: bool,
) -> Seq<Seq<char>>
    decreases cs.len() - i,
{
    if i < 0 || i >= cs.len() {
        flush(toks, cur)
    } else {
        let c = cs[i];
        if c == '\'' && !dq {
            tokens_from(cs, i + 1, toks, cur, !sq, dq)
        } else if c == '"' && !sq {
            tokens_from(cs, i + 1, toks, cur, sq, !dq)
        } else if c == '\\' {
            if i + 1 < cs.len() {
                tokens_from(cs, i + 2, toks, cur.push(cs[i + 1]), sq, dq)
            } else {
                flush(toks, cur)
            }
        } else if is_blank(c) && !sq && !dq {
            tokens_from(cs, i + 1, flush(toks, cur), Seq::empty(), sq, dq)
        } else {
            tokens_from(cs, i + 1, toks, cur.push(c), sq, dq)
        }
    }
}

/// The tokens of a command line.
pub open spec fn tokenize(line: Seq<char>) -> Seq<Seq<char>> {
    tokens_from(line, 0, Seq::empty(), Seq::empty(), false, false)
}

/// Splits `input` into tokens. Quotes group characters and are dropped; a
/// backslash makes the next character literal; unquoted runs of spaces and
/// tabs separate tokens.
pub fn parse_shell_input(input: &str) -> (r: Vec<String>)
    ensures
        views(r@) == tokenize(input@),
{
    let cs = chars_of(input);
    let n = cs.len();
    let mut tokens: Vec<String> = Vec::new();
    let mut current = String::new();
    let mut in_single_quote = false;
    let mut in_double_quote = false;
    let mut i: usize = 0;
    proof {
        assert(views(tokens@) =~= Seq::<Seq<char>>::empty());
    }
    while i < n
        invariant
            n == cs@.len(),
            cs@ == input@,
            i <= n,
            tokenize(input@) == tokens_from(
                cs@,
                i as int,
                views(tokens@),
                current@,
                in_single_quote,
                in_double_quote,
            ),
        decreases n - i,
    {
        let c = cs[i];
        if c == '\'' && !in_double_quote {
            in_single_quote = !in_single_quote;
            i = i + 1;
        } else if c == '"' && !in_single_quote {
            in_double_quote = !in_double_quote;
            i = i + 1;
        } else if c == '\\' {
            if i + 1 < n {
                push_char(&mut current, cs[i + 1]);
                i = i + 2;
            } else {
                i = i + 1;
            }
        } else if (c == ' ' || c == '\t') && !in_single_quote && !in_double_quote {
            if current.unicode_len() > 0 {
                let ghost before = tokens@;
                tokens.push(current);
                proof {
                    assert(views(tokens@) =~= views(before).push(current@));
                }
            }
            current = String::new();
            i = i + 1;
        } else {
            push_char(&mut current, c);
            i = i + 1;
        }
    }
    if current.unicode_len() > 0 {
        let ghost before = tokens@;
        tokens.push(current);
        proof {
            assert(views(tokens@) =~= views(before).push(current@));
        }
    }
    tokens
}

/// Whether a physical line asks for a continuation line: it ends with a
/// backslash that is not itself escaped by the one before it.
pub open spec fn needs_continuation(line: Seq<char>) -> bool {
    &&& line.len() >= 1
    &&& line.last() == '\\'
    &&& !(line.len() >= 2 && line[line.len() - 2] == '\\')
}

/// A line that ends in one backslash, not preceded by another, asks for a
/// continuation; a line that ends in two backslashes does not.
pub proof fn lemma_continuation_rule(s: Seq<char>)
    ensures
        (s.len() == 0 || s.last() != '\\') ==> needs_continuation(s.push('\\')),
        !needs_continuation(s.push('\\').push('\\')),
{
    let t = s.push('\\');
    let u = t.push('\\');
    assert(u[u.len() - 2] == '\\');
    if s.len() > 0 {
        assert(t[t.len() - 2] == s.last());
    }
}

/// `s` without its trailing newlines.
pub open spec fn strip_newlines(s: Seq<char>) -> Seq<char>
    decreases s.len(),
{
    if s.len() > 0 && s.last() == '\n' {
        strip_newlines(s.drop_last())
    } else {
        s
    }
}

/// Whether `line` ends with an unescaped backslash.
pub fn ends_with_continuation(line: &str) -> (r: bool)
    ensures
        r == needs_continuation(line@),
{
    let n = line.unicode_len();
    if n == 0 || line.get_char(n - 1) != '\\' {
        false
    } else {
        !(n >= 2 && line.get_char(n - 2) == '\\')
    }
}

/// Appends one physical line, read with its trailing newlines, to the
/// command line built so far. A line that asks for a continuation is added
/// without its final backslash and followed by one space, and `true` is
/// returned: another line is needed. Otherwise the line is added as it is
/// and `false` is returned.
pub fn append_input_line(complete: &mut String, line: &str) -> (more: bool)
    ensures
        more == needs_continuation(strip_newlines(line@)),
        more ==> final(complete)@ == old(complete)@ + strip_newlines(line@).drop_last().push(' '),
        !more ==> final(complete)@ == old(complete)@ + strip_newlines(line@),
{
    let cs = chars_of(line);
    let mut end: usize = cs.len();
    assert(cs@.take(end as int) =~= line@);
    while end > 0 && cs[end - 1] == '\n'
        invariant
            end <= cs@.len(),
            cs@ == line@,
            strip_newlines(line@) == strip_newlines(cs@.take(end as int)),
        decreases end,
    {
        proof {
            assert(cs@.take(end as int).drop_last() =~= cs@.take(end - 1));
        }
        end = end - 1;
    }
    let ghost kept = cs@.take(end as int);
    assert(strip_newlines(line@) == kept);
    let more = end >= 1 && cs[end - 1] == '\\' && !(end >= 2 && cs[end - 2] == '\\');
    let stop: usize = if more {
        end - 1
    } else {
        end
    };
    let ghost start = complete@;
    let mut i: usize = 0;
    while i < stop
        invariant
            stop <= end <= cs@.len(),
            kept == cs@.take(end as int),
            complete@ == start + cs@.take(i as int),
            i <= stop,
        decreases stop - i,
    {
        push_char(complete, cs[i]);
        i = i + 1;
        proof {
            assert(cs@.take(i as int) =~= cs@.take(i - 1).push(cs@[i - 1]));
        }
    }
    if more {
        push_char(complete, ' ');
        assert(kept.drop_last() =~= cs@.take(stop as int));
        assert(complete@ =~= start + kept.drop_last().push(' '));
    } else {
        assert(complete@ =~= start + kept);
    }
    more
}

} // verus!
