//! Commands the shell can run: builtins carried out in process, and
//! external programs found on `PATH`.

use vstd::prelude::*;

pub mod builtins;
pub mod external;
pub mod registry;

use crate::commands::builtins::{builtin_name, builtin_type_text, BuiltinCommand};
use crate::commands::external::{external_type_text, ExternalCommand};

verus! {

/// A named, invokable unit.
pub trait Command {
    /// The command's name.
    spec fn name_spec(&self) -> Seq<char>;

    /// What `type` says of the command.
    spec fn type_message_spec(&self) -> Seq<char>;

    /// The command's name.
    fn get_name(&self) -> (r: String)
        ensures
            r@ == self.name_spec(),
    ;

    /// What `type` says of the command.
    fn get_type_message(&self) -> (r: String)
        ensures
            r@ == self.type_message_spec(),
    ;
}

/// What a registered command is, in terms of plain values: a builtin, or
/// an external program with its name and its path.
pub enum CommandEntry {
    Builtin(BuiltinCommand),
    External(Seq<char>, Seq<char>),
}

/// A command found in the registry.
#[derive(Debug)]
pub enum RegisteredCommand {
    Builtin(BuiltinCommand),
    External(ExternalCommand),
}

impl RegisteredCommand {
    pub open spec fn view(&self) -> CommandEntry {
        match self {
            RegisteredCommand::Builtin(b) => CommandEntry::Builtin(*b),
            RegisteredCommand::External(e) => CommandEntry::External(e.view().0, e.view().1),
        }
    }

    /// A copy of this command.
    pub fn duplicate(&self) -> (r: RegisteredCommand)
        ensures
            r.view() == self.view(),
    {
        match self {
            RegisteredCommand::Builtin(b) => RegisteredCommand::Builtin(*b),
            RegisteredCommand::External(e) => RegisteredCommand::External(e.duplicate()),
        }
    }
}

pub open spec fn entry_name(c: CommandEntry) -> Seq<char> {
    match c {
        CommandEntry::Builtin(b) => builtin_name(b),
        CommandEntry::External(name, _) => name,
    }
}

pub open spec fn entry_type_text(c: CommandEntry) -> Seq<char> {
    match c {
        CommandEntry::Builtin(b) => builtin_type_text(b),
        CommandEntry::External(name, path) => external_type_text(name, path),
    }
}

impl Command for RegisteredCommand {
    open spec fn name_spec(&self) -> Seq<char> {
        entry_name(self.view())
    }

    open spec fn type_message_spec(&self) -> Seq<char> {
        entry_type_text(self.view())
    }

    fn get_name(&self) -> (r: String) {
        match self {
            RegisteredCommand::Builtin(b) => b.get_name(),
            RegisteredCommand::External(e) => e.get_name(),
        }
    }

    fn get_type_message(&self) -> (r: String) {
        match self {
            RegisteredCommand::Builtin(b) => b.get_type_message(),
            RegisteredCommand::External(e) => e.get_type_message(),
        }
    }
}

} // verus!
