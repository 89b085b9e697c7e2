//! Separating output redirections (`>`, `1>`, `2>`, `&>`) from a command's
//! argument tokens.

use vstd::prelude::*;

use crate::error::ShellError;
use crate::text::views;

verus! {

/// The streams a redirection operator sends to a file.
#[derive(Debug, Clone, Copy, PartialEq, Eq, Structural)]
pub enum RedirectOp {
    /// `>` or `1>`: standard output.
    Stdout,
    /// `2>`: standard error.
    Stderr,
    /// `&>`: both standard output and standard error.
    Both,
}

/// The operator that a token spells, if any.
pub open spec fn op_of(t: Seq<char>) -> Option<RedirectOp> {
    if t == seq!['&', '>'] {
        Some(RedirectOp::Both)
    } else if t == seq!['>'] || t == seq!['1', '>'] {
        Some(RedirectOp::Stdout)
    } else if t == seq!['2', '>'] {
        Some(RedirectOp::Stderr)
    } else {
        None
    }
}

pub open spec fn missing_target_text(op: RedirectOp) -> Seq<char> {
    match op {
        RedirectOp::Stderr => "no file specified for error output redirection"@,
        _ => "no file specified for output redirection"@,
    }
}

/// Command tokens, standard-output target and standard-error target.
pub type Resolved = (Seq<Seq<char>>, Option<Seq<char>>, Option<Seq<char>>);

/// The result of reading `toks[i..]` when `cmd` holds the command tokens
/// kept so far and `out` / `err` the targets set so far; an operator's
/// target is the token right after it, and a later target replaces an
/// earlier one of the same stream. An operator with no token after it
/// fails with the message for its stream.
pub open spec fn resolve_from(
    toks: Seq<Seq<char>>,
    i: int,
    cmd: Seq<Seq<char>>,
    out: Option<Seq<char>>,
    err: Option<Seq<char>>,
) -> Result<Resolved, Seq<char>>
    decreases toks.len() - i,
{
    if i < 0 || i >= toks.len() {
        Ok((cmd, out, err))
    } else {
        match op_of(toks[i]) {
            None => resolve_from(toks, i + 1, cmd.push(toks[i]), out, err),
            Some(op) => if i + 1 >= toks.len() {
                Err(missing_target_text(op))
            } else {
                let target = toks[i + 1];
                match op {
                    RedirectOp::Stdout => resolve_from(toks, i + 2, cmd, Some(target), err),
                    RedirectOp::Stderr => resolve_from(toks, i + 2, cmd, out, Some(target)),
                    RedirectOp::Both => resolve_from(toks, i + 2, cmd, Some(target), Some(target)),
                }
            },
        }
    }
}

/// The redirections of a token sequence, read from its start.
pub open spec fn resolve(toks: Seq<Seq<char>>) -> Result<Resolved, Seq<char>> {
    resolve_from(toks, 0, Seq::empty(), None, None)
}

pub open spec fn opt_view(o: Option<String>) -> Option<Seq<char>> {
    match o {
        Some(s) => Some(s@),
        None => None,
    }
}

/// The redirection operator that `t` spells, if any.
pub fn redirect_op(t: &str) -> (r: Option<RedirectOp>)
    ensures
        r == op_of(t@),
{
    let n = t.unicode_len();
    if n == 1 && t.get_char(0) == '>' {
        assert(t@ =~= seq!['>']);
        Some(RedirectOp::Stdout)
    } else if n == 2 && t.get_char(1) == '>' {
        let c = t.get_char(0);
        if c == '&' {
            assert(t@ =~= seq!['&', '>']);
            Some(RedirectOp::Both)
        } else if c == '1' {
            assert(t@ =~= seq!['1', '>']);
            Some(RedirectOp::Stdout)
        } else if c == '2' {
            assert(t@ =~= seq!['2', '>']);
            Some(RedirectOp::Stderr)
        } else {
            assert(t@[0] != seq!['&', '>'][0]);
            assert(t@[0] != seq!['1', '>'][0]);
            assert(t@[0] != seq!['2', '>'][0]);
            None
        }
    } else {
        assert(t@.len() == 1 ==> t@[0] != seq!['>'][0]);
        assert(t@.len() == 2 ==> t@[1] != seq!['&', '>'][1]);
        None
    }
}

/// Splits `tokens` into the command's own tokens, in their order, and the
/// files that standard output and standard error are sent to. Fails with
/// `ParsingFail` when an operator is not followed by a file name.
pub fn process_redirections(tokens: Vec<String>) -> (r: Result<
    (Vec<String>, Option<String>, Option<String>),
    ShellError,
>)
    ensures
        r is Ok <==> resolve(views(tokens@)) is Ok,
        r matches Ok(t) ==> resolve(views(tokens@)) == Ok::<Resolved, Seq<char>>(
            (views(t.0@), opt_view(t.1), opt_view(t.2)),
        ),
        r matches Err(e) ==> (e matches ShellError::ParsingFail(m) && resolve(views(tokens@))
            == Err::<Resolved, Seq<char>>(m@)),
{
    let ghost toks = views(tokens@);
    let mut command_tokens: Vec<String> = Vec::new();
    let mut stdout_redirect: Option<String> = None;
    let mut stderr_redirect: Option<String> = None;
    let n = tokens.len();
    let mut i: usize = 0;
    proof {
        assert(views(command_tokens@) =~= Seq::<Seq<char>>::empty());
    }
    while i < n
        invariant
            n == tokens@.len(),
            toks == views(tokens@),
            i <= n,
            resolve(toks) == resolve_from(
                toks,
                i as int,
                views(command_tokens@),
                opt_view(stdout_redirect),
                opt_view(stderr_redirect),
            ),
        decreases n - i,
    {
        assert(toks[i as int] == tokens@[i as int]@);
        match redirect_op(tokens[i].as_str()) {
            None => {
                let ghost before = command_tokens@;
                command_tokens.push(tokens[i].clone());
                proof {
                    assert(views(command_tokens@) =~= views(before).push(toks[i as int]));
                }
                i = i + 1;
            },
            Some(op) => {
                if i + 1 >= n {
                    let msg = match op {
                        RedirectOp::Stderr => "no file specified for error output redirection".to_string(),
                        _ => "no file specified for output redirection".to_string(),
                    };
                    return Err(ShellError::ParsingFail(msg));
                }
                assert(toks[i + 1] == tokens@[i + 1]@);
                match op {
                    RedirectOp::Stdout => {
                        stdout_redirect = Some(tokens[i + 1].clone());
                    },
                    RedirectOp::Stderr => {
                        stderr_redirect = Some(tokens[i + 1].clone());
                    },
                    RedirectOp::Both => {
                        stdout_redirect = Some(tokens[i + 1].clone());
                        stderr_redirect = Some(tokens[i + 1].clone());
                    },
                }
                i = i + 2;
            },
        }
    }
    Ok((command_tokens, stdout_redirect, stderr_redirect))
}

} // verus!
