//! From a command line to what should run, and from a failure to what the
//! user is told.

use vstd::prelude::*;

use crate::commands::registry::CommandsRegistry;
use crate::commands::RegisteredCommand;
use crate::error::{error_text, ShellError};
use crate::levenshtein::{is_first_closest, lev, Levenshtein};
use crate::redirect::{opt_view, process_redirections, resolve};
use crate::text::views;
use crate::tokenizer::{parse_shell_input, tokenize};

verus! {

/// A command to run: what it is, its arguments, and where its standard
/// output and standard error go (`None`: where the shell's own go).
#[derive(Debug)]
pub struct Invocation {
    pub command: RegisteredCommand,
    pub args: Vec<String>,
    pub stdout: Option<String>,
    pub stderr: Option<String>,
}

/// Reads a command line and finds the command it names. Fails with
/// `EmptyInput` when no command token is left once redirections are taken
/// out, with `ParsingFail` when a redirection has no target, and with
/// `CommandNotFound` when the first token names no registered command.
pub fn plan_command(reg: &CommandsRegistry, line: &str) -> (r: Result<Invocation, ShellError>)
    requires
        reg.wf(),
    ensures
        match resolve(tokenize(line@)) {
            Err(m) => r matches Err(ShellError::ParsingFail(e)) && e@ == m,
            Ok(res) => if res.0.len() == 0 {
                r matches Err(ShellError::EmptyInput)
            } else {
                match reg.lookup(res.0[0]) {
                    None => r matches Err(ShellError::CommandNotFound { command_name }) && command_name@
                        == res.0[0],
                    Some(c) => r matches Ok(inv) && inv.command.view() == c && views(inv.args@)
                        == res.0.drop_first() && opt_view(inv.stdout) == res.1 && opt_view(
                        inv.stderr,
                    ) == res.2,
                }
            },
        },
{
    let tokens = parse_shell_input(line);
    if tokens.len() == 0 {
        assert(views(tokens@).len() == 0);
        return Err(ShellError::EmptyInput);
    }
    let (mut command_tokens, stdout, stderr) = match process_redirections(tokens) {
        Ok(t) => t,
        Err(e) => {
            return Err(e);
        },
    };
    if command_tokens.len() == 0 {
        assert(views(command_tokens@).len() == 0);
        return Err(ShellError::EmptyInput);
    }
    let ghost all = views(command_tokens@);
    let name = command_tokens.remove(0);
    assert(views(command_tokens@) =~= all.drop_first());
    assert(name@ == all[0]);
    match reg.get_command(name.as_str()) {
        None => Err(ShellError::CommandNotFound { command_name: name }),
        Some(c) => Ok(Invocation { command: c, args: command_tokens, stdout, stderr }),
    }
}

/// How far a mistyped name may be from a suggestion: 1 for names of fewer
/// than four characters, else 2.
pub open spec fn threshold_for(name: Seq<char>) -> nat {
    if name.len() < 4 {
        1
    } else {
        2
    }
}

/// How far a mistyped name may be from a suggestion.
pub fn suggestion_threshold(name: &str) -> (r: usize)
    ensures
        r == threshold_for(name@),
{
    if name.unicode_len() < 4 {
        1
    } else {
        2
    }
}

/// The registered name to suggest for a name that was not found: the first
/// of the closest names, if it is within the name's threshold.
pub fn suggest<'a>(name: &str, names: &'a [String]) -> (r: Option<&'a str>)
    ensures
        r is None <==> forall|k: int|
            0 <= k < names@.len() ==> lev(name@, #[trigger] names@[k]@) > threshold_for(name@),
        r matches Some(x) ==> exists|i: int|
            is_first_closest(name@, views(names@), i) && x@ == #[trigger] names@[i]@,
{
    let t = suggestion_threshold(name);
    Levenshtein::get_closest_with_threshold(name, names, t)
}

/// The line that proposes `s`.
pub open spec fn did_you_mean_text(s: Seq<char>) -> Seq<char> {
    "did you mean \""@ + s + "\"?"@
}

/// The lines written to standard error for a failed command line: none for
/// an empty line; otherwise the error's text, followed, for a name that was
/// not found, by a suggestion taken from `names` when there is one.
pub fn error_report(err: &ShellError, names: &[String]) -> (r: Vec<String>)
    ensures
        err is EmptyInput ==> r@.len() == 0,
        !(err is EmptyInput) ==> r@.len() >= 1 && r@[0]@ == error_text(*err),
        !(err is CommandNotFound) ==> r@.len() <= 1,
        err matches ShellError::CommandNotFound { command_name } ==> {
            &&& (r@.len() == 1 <==> forall|k: int|
                0 <= k < names@.len() ==> lev(command_name@, #[trigger] names@[k]@)
                    > threshold_for(command_name@))
            &&& r@.len() <= 2
            &&& r@.len() == 2 ==> exists|i: int|
                is_first_closest(command_name@, views(names@), i) && r@[1]@ == did_you_mean_text(
                    #[trigger] names@[i]@,
                )
        },
{
    let mut lines: Vec<String> = Vec::new();
    match err {
        ShellError::EmptyInput => {},
        ShellError::CommandNotFound { command_name } => {
            lines.push(err.message());
            match suggest(command_name.as_str(), names) {
                None => {},
                Some(s) => {
                    let mut l = "did you mean \"".to_string();
                    l.append(s);
                    l.append("\"?");
                    lines.push(l);
                },
            }
        },
        _ => {
            lines.push(err.message());
        },
    }
    lines
}

} // verus!
