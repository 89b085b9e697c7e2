//! The builtin commands: their names, their help texts, and the parts of
//! their work that compute rather than touch the terminal, the file system
//! or the process.

use rand::Rng;
use vstd::prelude::*;

use crate::commands::registry::CommandsRegistry;
use crate::commands::{entry_type_text, Command, CommandEntry, RegisteredCommand};
use crate::error::ShellError;
use crate::names::strictly_sorted;
use crate::text::{decimal, decimal_text, join, joined, views};

verus! {

/// `all`: lists every registered command.
#[derive(Debug, Clone, Copy, PartialEq, Eq, Structural)]
pub struct AllCommand;

/// `cd`: changes the working directory.
#[derive(Debug, Clone, Copy, PartialEq, Eq, Structural)]
pub struct CdCommand;

/// `bagaga`: answers with a saying picked at random.
#[derive(Debug, Clone, Copy, PartialEq, Eq, Structural)]
pub struct BagagaCommand;

/// `dprint`: shows how a command is represented.
#[derive(Debug, Clone, Copy, PartialEq, Eq, Structural)]
pub struct DebugPrintCommand;

/// `echo`: prints its arguments.
#[derive(Debug, Clone, Copy, PartialEq, Eq, Structural)]
pub struct EchoCommand;

/// `exit`: ends the shell with a status code.
#[derive(Debug, Clone, Copy, PartialEq, Eq, Structural)]
pub struct ExitCommand;

/// `help`: shows a command's help text.
#[derive(Debug, Clone, Copy, PartialEq, Eq, Structural)]
pub struct HelpCommand;

/// `pwd`: prints the working directory.
#[derive(Debug, Clone, Copy, PartialEq, Eq, Structural)]
pub struct PwdCommand;

/// `type`: tells how a command name would be interpreted.
#[derive(Debug, Clone, Copy, PartialEq, Eq, Structural)]
pub struct TypeCommand;

/// One of the builtin commands.
#[derive(Debug, Clone, Copy, PartialEq, Eq, Structural)]
pub enum BuiltinCommand {
    All(AllCommand),
    Cd(CdCommand),
    Bagaga(BagagaCommand),
    DebugPrint(DebugPrintCommand),
    Echo(EchoCommand),
    Exit(ExitCommand),
    Help(HelpCommand),
    Pwd(PwdCommand),
    Type(TypeCommand),
}

pub open spec fn builtin_name(b: BuiltinCommand) -> Seq<char> {
    match b {
        BuiltinCommand::All(_) => "all"@,
        BuiltinCommand::Cd(_) => "cd"@,
        BuiltinCommand::Bagaga(_) => "bagaga"@,
        BuiltinCommand::DebugPrint(_) => "dprint"@,
        BuiltinCommand::Echo(_) => "echo"@,
        BuiltinCommand::Exit(_) => "exit"@,
        BuiltinCommand::Help(_) => "help"@,
        BuiltinCommand::Pwd(_) => "pwd"@,
        BuiltinCommand::Type(_) => "type"@,
    }
}

/// What `type` says of a builtin.
pub open spec fn builtin_type_text(b: BuiltinCommand) -> Seq<char> {
    builtin_name(b) + " is a shell builtin"@
}

pub open spec fn help_text(b: BuiltinCommand) -> Seq<char> {
    match b {
        BuiltinCommand::All(_) => "usage: all\nlists the registered builtin and external commands."@,
        BuiltinCommand::Cd(_) =>
            "usage: cd <directory>\nchanges the current working directory to the specified directory.\nif no directory is specified, the HOME environment variable is used."@,
        BuiltinCommand::Bagaga(_) => "bagaga wont help you."@,
        BuiltinCommand::DebugPrint(_) =>
            "usage: dprint <command name>\ndebug prints the type and help message of the specified command."@,
        BuiltinCommand::Echo(_) =>
            "usage: echo <message>\nprints the specified message to the standard output."@,
        BuiltinCommand::Exit(_) =>
            "usage: exit <status code>\nexits the shell with the specified status code.\nif no status code is specified, the exit status is 0.\nfails if the status code is not an integer."@,
        BuiltinCommand::Help(_) =>
            "usage: help <command name>\ndisplays the help message for the specified command.\nif target is an external command, the man command is used to display the help message."@,
        BuiltinCommand::Pwd(_) => "usage: pwd\nprints the current working directory."@,
        BuiltinCommand::Type(_) =>
            "usage: type <command name>\ntells whether the specified command is a builtin or an external program."@,
    }
}

impl BuiltinCommand {
    /// The builtin's name.
    pub fn name(&self) -> (r: &'static str)
        ensures
            r@ == builtin_name(*self),
    {
        match self {
            BuiltinCommand::All(_) => "all",
            BuiltinCommand::Cd(_) => "cd",
            BuiltinCommand::Bagaga(_) => "bagaga",
            BuiltinCommand::DebugPrint(_) => "dprint",
            BuiltinCommand::Echo(_) => "echo",
            BuiltinCommand::Exit(_) => "exit",
            BuiltinCommand::Help(_) => "help",
            BuiltinCommand::Pwd(_) => "pwd",
            BuiltinCommand::Type(_) => "type",
        }
    }

    /// The builtin's help text.
    pub fn get_help_message(&self) -> (r: String)
        ensures
            r@ == help_text(*self),
    {
        let t = match self {
            BuiltinCommand::All(_) => "usage: all\nlists the registered builtin and external commands.",
            BuiltinCommand::Cd(_) =>
                "usage: cd <directory>\nchanges the current working directory to the specified directory.\nif no directory is specified, the HOME environment variable is used.",
            BuiltinCommand::Bagaga(_) => "bagaga wont help you.",
            BuiltinCommand::DebugPrint(_) =>
                "usage: dprint <command name>\ndebug prints the type and help message of the specified command.",
            BuiltinCommand::Echo(_) =>
                "usage: echo <message>\nprints the specified message to the standard output.",
            BuiltinCommand::Exit(_) =>
                "usage: exit <status code>\nexits the shell with the specified status code.\nif no status code is specified, the exit status is 0.\nfails if the status code is not an integer.",
            BuiltinCommand::Help(_) =>
                "usage: help <command name>\ndisplays the help message for the specified command.\nif target is an external command, the man command is used to display the help message.",
            BuiltinCommand::Pwd(_) => "usage: pwd\nprints the current working directory.",
            BuiltinCommand::Type(_) =>
                "usage: type <command name>\ntells whether the specified command is a builtin or an external program.",
        };
        t.to_string()
    }
}

impl Command for BuiltinCommand {
    open spec fn name_spec(&self) -> Seq<char> {
        builtin_name(*self)
    }

    open spec fn type_message_spec(&self) -> Seq<char> {
        builtin_type_text(*self)
    }

    fn get_name(&self) -> (r: String) {
        self.name().to_string()
    }

    fn get_type_message(&self) -> (r: String) {
        let mut r = self.name().to_string();
        r.append(" is a shell builtin");
        r
    }
}

impl Command for AllCommand {
    open spec fn name_spec(&self) -> Seq<char> {
        builtin_name(BuiltinCommand::All(*self))
    }

    open spec fn type_message_spec(&self) -> Seq<char> {
        builtin_type_text(BuiltinCommand::All(*self))
    }

    fn get_name(&self) -> (r: String) {
        BuiltinCommand::All(*self).get_name()
    }

    fn get_type_message(&self) -> (r: String) {
        BuiltinCommand::All(*self).get_type_message()
    }
}

impl Command for CdCommand {
    open spec fn name_spec(&self) -> Seq<char> {
        builtin_name(BuiltinCommand::Cd(*self))
    }

    open spec fn type_message_spec(&self) -> Seq<char> {
        builtin_type_text(BuiltinCommand::Cd(*self))
    }

    fn get_name(&self) -> (r: String) {
        BuiltinCommand::Cd(*self).get_name()
    }

    fn get_type_message(&self) -> (r: String) {
        BuiltinCommand::Cd(*self).get_type_message()
    }
}

impl Command for BagagaCommand {
    open spec fn name_spec(&self) -> Seq<char> {
        builtin_name(BuiltinCommand::Bagaga(*self))
    }

    open spec fn type_message_spec(&self) -> Seq<char> {
        builtin_type_text(BuiltinCommand::Bagaga(*self))
    }

    fn get_name(&self) -> (r: String) {
        BuiltinCommand::Bagaga(*self).get_name()
    }

    fn get_type_message(&self) -> (r: String) {
        BuiltinCommand::Bagaga(*self).get_type_message()
    }
}

impl Command for DebugPrintCommand {
    open spec fn name_spec(&self) -> Seq<char> {
        builtin_name(BuiltinCommand::DebugPrint(*self))
    }

    open spec fn type_message_spec(&self) -> Seq<char> {
        builtin_type_text(BuiltinCommand::DebugPrint(*self))
    }

    fn get_name(&self) -> (r: String) {
        BuiltinCommand::DebugPrint(*self).get_name()
    }

    fn get_type_message(&self) -> (r: String) {
        BuiltinCommand::DebugPrint(*self).get_type_message()
    }
}

impl Command for EchoCommand {
    open spec fn name_spec(&self) -> Seq<char> {
        builtin_name(BuiltinCommand::Echo(*self))
    }

    open spec fn type_message_spec(&self) -> Seq<char> {
        builtin_type_text(BuiltinCommand::Echo(*self))
    }

    fn get_name(&self) -> (r: String) {
        BuiltinCommand::Echo(*self).get_name()
    }

    fn get_type_message(&self) -> (r: String) {
        BuiltinCommand::Echo(*self).get_type_message()
    }
}

impl Command for ExitCommand {
    open spec fn name_spec(&self) -> Seq<char> {
        builtin_name(BuiltinCommand::Exit(*self))
    }

    open spec fn type_message_spec(&self) -> Seq<char> {
        builtin_type_text(BuiltinCommand::Exit(*self))
    }

    fn get_name(&self) -> (r: String) {
        BuiltinCommand::Exit(*self).get_name()
    }

    fn get_type_message(&self) -> (r: String) {
        BuiltinCommand::Exit(*self).get_type_message()
    }
}

impl Command for HelpCommand {
    open spec fn name_spec(&self) -> Seq<char> {
        builtin_name(BuiltinCommand::Help(*self))
    }

    open spec fn type_message_spec(&self) -> Seq<char> {
        builtin_type_text(BuiltinCommand::Help(*self))
    }

    fn get_name(&self) -> (r: String) {
        BuiltinCommand::Help(*self).get_name()
    }

    fn get_type_message(&self) -> (r: String) {
        BuiltinCommand::Help(*self).get_type_message()
    }
}

impl Command for PwdCommand {
    open spec fn name_spec(&self) -> Seq<char> {
        builtin_name(BuiltinCommand::Pwd(*self))
    }

    open spec fn type_message_spec(&self) -> Seq<char> {
        builtin_type_text(BuiltinCommand::Pwd(*self))
    }

    fn get_name(&self) -> (r: String) {
        BuiltinCommand::Pwd(*self).get_name()
    }

    fn get_type_message(&self) -> (r: String) {
        BuiltinCommand::Pwd(*self).get_type_message()
    }
}

impl Command for TypeCommand {
    open spec fn name_spec(&self) -> Seq<char> {
        builtin_name(BuiltinCommand::Type(*self))
    }

    open spec fn type_message_spec(&self) -> Seq<char> {
        builtin_type_text(BuiltinCommand::Type(*self))
    }

    fn get_name(&self) -> (r: String) {
        BuiltinCommand::Type(*self).get_name()
    }

    fn get_type_message(&self) -> (r: String) {
        BuiltinCommand::Type(*self).get_type_message()
    }
}

impl EchoCommand {
    /// The line `echo` prints: its arguments joined by single spaces.
    pub fn text(args: &[String]) -> (r: String)
        ensures
            r@ == joined(views(args@), " "@),
    {
        join(args, " ")
    }
}

impl CdCommand {
    /// The directory `cd` moves to: its first argument, else the home
    /// directory `home` when it is known, else the root directory.
    pub fn target(args: &[String], home: Option<String>) -> (r: String)
        ensures
            r@ == if args@.len() > 0 {
                args@[0]@
            } else {
                match home {
                    Some(h) => h@,
                    None => "/"@,
                }
            },
    {
        if args.len() > 0 {
            args[0].clone()
        } else {
            match home {
                Some(h) => h,
                None => "/".to_string(),
            }
        }
    }
}

pub open spec fn is_digit(c: char) -> bool {
    48 <= (c as int) <= 57
}

pub open spec fn all_digits(d: Seq<char>) -> bool {
    forall|i: int| 0 <= i < d.len() ==> is_digit(#[trigger] d[i])
}

/// The value of a run of decimal digits.
pub open spec fn digits_value(d: Seq<char>) -> int
    decreases d.len(),
{
    if d.len() == 0 {
        0
    } else {
        10 * digits_value(d.drop_last()) + ((d.last() as int) - 48)
    }
}

/// The integer a text spells: an optional `+` or `-` followed by one or
/// more decimal digits, and nothing else.
pub open spec fn integer_text_value(s: Seq<char>) -> Option<int> {
    if s.len() > 0 && (s[0] == '+' || s[0] == '-') {
        let d = s.drop_first();
        if d.len() > 0 && all_digits(d) {
            Some(
                if s[0] == '-' {
                    -digits_value(d)
                } else {
                    digits_value(d)
                },
            )
        } else {
            None
        }
    } else if s.len() > 0 && all_digits(s) {
        Some(digits_value(s))
    } else {
        None
    }
}

/// The `i32` a text spells, if it spells one in range.
pub open spec fn i32_of(s: Seq<char>) -> Option<i32> {
    match integer_text_value(s) {
        Some(v) => if i32::MIN <= v <= i32::MAX {
            Some(v as i32)
        } else {
            None
        },
        None => None,
    }
}

/// The text of the error that parsing `s` as an `i32` gives.
pub uninterp spec fn int_parse_error_text(s: Seq<char>) -> Seq<char>;

/// Relies on `str::parse::<i32>` (`i32::from_str`), which accepts an
/// optional sign followed by decimal digits whose value fits in `i32`, and
/// on its error's `to_string`, whose text depends on the input alone.
#[verifier::external_body]
fn parse_i32(s: &str) -> (r: Result<i32, String>)
    ensures
        match r {
            Ok(v) => i32_of(s@) == Some(v),
            Err(m) => i32_of(s@) is None && m@ == int_parse_error_text(s@),
        },
{
    s.parse::<i32>().map_err(|e| e.to_string())
}

impl ExitCommand {
    /// The status `exit` ends the shell with: 0 without an argument, else
    /// the integer its first argument spells. Fails with
    /// `CommandExecutionFail` when that argument is not an `i32`.
    pub fn status(args: &[String]) -> (r: Result<i32, ShellError>)
        ensures
            args@.len() == 0 ==> r == Ok::<i32, ShellError>(0),
            args@.len() > 0 ==> match i32_of(args@[0]@) {
                Some(v) => r == Ok::<i32, ShellError>(v),
                None => r matches Err(ShellError::CommandExecutionFail(m)) && m@
                    == int_parse_error_text(args@[0]@),
            },
    {
        if args.len() == 0 {
            return Ok(0);
        }
        match parse_i32(args[0].as_str()) {
            Ok(v) => Ok(v),
            Err(m) => Err(ShellError::CommandExecutionFail(m)),
        }
    }
}

pub open spec fn not_found_text(name: Seq<char>) -> Seq<char> {
    name + ": not found"@
}

impl TypeCommand {
    /// What `type` prints for its first argument: how the registry would
    /// interpret that name, or that it is not found. Fails without an
    /// argument.
    pub fn report(reg: &CommandsRegistry, args: &[String]) -> (r: Result<String, ShellError>)
        requires
            reg.wf(),
        ensures
            args@.len() == 0 ==> (r matches Err(ShellError::CommandExecutionFail(m)) && m@
                == "example usage: type <command name>"@),
            args@.len() > 0 ==> match reg.lookup(args@[0]@) {
                Some(c) => r matches Ok(t) && t@ == entry_type_text(c),
                None => r matches Ok(t) && t@ == not_found_text(args@[0]@),
            },
    {
        if args.len() == 0 {
            return Err(
                ShellError::CommandExecutionFail("example usage: type <command name>".to_string()),
            );
        }
        match reg.get_command(args[0].as_str()) {
            Some(c) => Ok(c.get_type_message()),
            None => {
                let mut t = args[0].clone();
                t.append(": not found");
                Ok(t)
            },
        }
    }
}

/// What `help` shows.
#[derive(Debug)]
pub enum HelpOutcome {
    /// A builtin's help text.
    Text(String),
    /// The manual page of an external program: the manual command to run,
    /// and the program's name to give it.
    Manual(RegisteredCommand, String),
}

impl HelpCommand {
    /// What `help` shows for its first argument: a builtin's help text, or
    /// the manual page of an external program through the `man` command.
    /// Fails without an argument, for an unknown name, and for an external
    /// program when no `man` command is registered.
    pub fn outcome(reg: &CommandsRegistry, args: &[String]) -> (r: Result<HelpOutcome, ShellError>)
        requires
            reg.wf(),
        ensures
            args@.len() == 0 ==> (r matches Err(ShellError::CommandExecutionFail(m)) && m@
                == "example usage: help <command name>"@),
            args@.len() > 0 ==> match reg.lookup(args@[0]@) {
                None => r matches Err(ShellError::CommandNotFound { command_name })
                    && command_name@ == args@[0]@,
                Some(CommandEntry::Builtin(b)) => r matches Ok(HelpOutcome::Text(t)) && t@
                    == help_text(b),
                Some(CommandEntry::External(_, _)) => match reg.lookup("man"@) {
                    Some(m) => r matches Ok(HelpOutcome::Manual(c, n)) && c.view() == m && n@
                        == args@[0]@,
                    None => r matches Err(ShellError::CommandExecutionFail(e)) && e@
                        == "no man command found. can't display help message for external command"@,
                },
            },
    {
        if args.len() == 0 {
            return Err(
                ShellError::CommandExecutionFail("example usage: help <command name>".to_string()),
            );
        }
        match reg.get_command(args[0].as_str()) {
            None => Err(ShellError::CommandNotFound { command_name: args[0].clone() }),
            Some(RegisteredCommand::Builtin(b)) => Ok(HelpOutcome::Text(b.get_help_message())),
            Some(RegisteredCommand::External(_)) => match reg.get_command("man") {
                Some(m) => Ok(HelpOutcome::Manual(m, args[0].clone())),
                None => Err(
                    ShellError::CommandExecutionFail(
                        "no man command found. can't display help message for external command".to_string(),
                    ),
                ),
            },
        }
    }
}

impl DebugPrintCommand {
    /// The command `dprint` describes: the one its first argument names.
    /// Fails without an argument and for an unknown name.
    pub fn target(reg: &CommandsRegistry, args: &[String]) -> (r: Result<RegisteredCommand, ShellError>)
        requires
            reg.wf(),
        ensures
            args@.len() == 0 ==> (r matches Err(ShellError::CommandExecutionFail(m)) && m@
                == "example usage: dprint <command name>"@),
            args@.len() > 0 ==> match reg.lookup(args@[0]@) {
                None => r matches Err(ShellError::CommandNotFound { command_name })
                    && command_name@ == args@[0]@,
                Some(c) => r matches Ok(x) && x.view() == c,
            },
    {
        if args.len() == 0 {
            return Err(
                ShellError::CommandExecutionFail("example usage: dprint <command name>".to_string()),
            );
        }
        match reg.get_command(args[0].as_str()) {
            None => Err(ShellError::CommandNotFound { command_name: args[0].clone() }),
            Some(c) => Ok(c),
        }
    }
}

/// The lines `all` prints: a heading with the number of builtins, their
/// names, then the same for external programs.
pub open spec fn listing_lines(
    builtins: Seq<Seq<char>>,
    externals: Seq<Seq<char>>,
) -> Seq<Seq<char>> {
    seq![
        "builtin commands ("@ + decimal_text(builtins.len()) + "):"@,
        "  "@ + joined(builtins, ", "@),
        "external commands ("@ + decimal_text(externals.len()) + "):"@,
        "  "@ + joined(externals, ", "@),
    ]
}

impl AllCommand {
    /// What `all` prints: the builtin names and the external program names,
    /// each in lexicographic order and preceded by how many there are.
    pub fn listing(reg: &CommandsRegistry) -> (r: Vec<String>)
        requires
            reg.wf(),
        ensures
            exists|bs: Seq<Seq<char>>, xs: Seq<Seq<char>>|
                {
                    &&& strictly_sorted(bs)
                    &&& strictly_sorted(xs)
                    &&& forall|x: Seq<char>| #[trigger] bs.contains(x) <==> reg.has_builtin(x)
                    &&& forall|x: Seq<char>| #[trigger] xs.contains(x) <==> reg.has_external(x)
                    &&& views(r@) == listing_lines(bs, xs)
                },
    {
        let builtins = reg.builtin_names();
        let externals = reg.external_names();
        let mut l0 = "builtin commands (".to_string();
        let n0 = decimal(builtins.len());
        l0.append(n0.as_str());
        l0.append("):");
        let mut l1 = "  ".to_string();
        let j1 = join(builtins.as_slice(), ", ");
        l1.append(j1.as_str());
        let mut l2 = "external commands (".to_string();
        let n2 = decimal(externals.len());
        l2.append(n2.as_str());
        l2.append("):");
        let mut l3 = "  ".to_string();
        let j3 = join(externals.as_slice(), ", ");
        l3.append(j3.as_str());
        let mut r: Vec<String> = Vec::new();
        r.push(l0);
        r.push(l1);
        r.push(l2);
        r.push(l3);
        let ghost bs = views(builtins@);
        let ghost xs = views(externals@);
        assert(views(r@) =~= listing_lines(bs, xs));
        r
    }
}

/// The sayings `bagaga` answers with.
pub open spec fn saying(i: int) -> Seq<char> {
    if i == 0 {
        "what is, is"@
    } else if i == 1 {
        "i know what it is! it is barbipines sinken blue."@
    } else if i == 2 {
        "PNN.TPN.PNH"@
    } else {
        "buckets ding-ding"@
    }
}

pub const SAYING_COUNT: usize = 4;

/// Relies on rand's `rng()` and `Rng::random_range`: a number drawn from
/// `0..n`, which it panics on when the range is empty.
#[verifier::external_body]
fn random_below(n: usize) -> (r: usize)
    requires
        n > 0,
    ensures
        r < n,
{
    rand::rng().random_range(0..n)
}

impl BagagaCommand {
    /// The saying at position `i`.
    pub fn saying_at(i: usize) -> (r: &'static str)
        requires
            i < SAYING_COUNT,
        ensures
            r@ == saying(i as int),
    {
        if i == 0 {
            "what is, is"
        } else if i == 1 {
            "i know what it is! it is barbipines sinken blue."
        } else if i == 2 {
            "PNN.TPN.PNH"
        } else {
            "buckets ding-ding"
        }
    }

    /// One of the sayings, picked at random.
    pub fn response() -> (r: &'static str)
        ensures
            exists|i: int| 0 <= i < SAYING_COUNT && r@ == saying(i),
    {
        let i = random_below(SAYING_COUNT);
        Self::saying_at(i)
    }
}

} // verus!
