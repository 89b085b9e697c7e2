//! External programs: a name and the path of the executable file.

use vstd::prelude::*;

use crate::commands::Command;

verus! {

/// A program found in a `PATH` directory.
#[derive(Debug)]
pub struct ExternalCommand {
    name: String,
    path: String,
}

/// What `type` says of an external program.
pub open spec fn external_type_text(name: Seq<char>, path: Seq<char>) -> Seq<char> {
    name + " is "@ + path
}

impl ExternalCommand {
    /// Name and path.
    pub closed spec fn view(&self) -> (Seq<char>, Seq<char>) {
        (self.name@, self.path@)
    }

    pub fn new(name: String, path: String) -> (r: ExternalCommand)
        ensures
            r.view() == (name@, path@),
    {
        ExternalCommand { name, path }
    }

    /// The program's name.
    pub fn name(&self) -> (r: &str)
        ensures
            r@ == self.view().0,
    {
        self.name.as_str()
    }

    /// The full path of the executable file.
    pub fn path(&self) -> (r: &str)
        ensures
            r@ == self.view().1,
    {
        self.path.as_str()
    }

    /// A copy of this command.
    pub fn duplicate(&self) -> (r: ExternalCommand)
        ensures
            r.view() == self.view(),
    {
        ExternalCommand { name: self.name.clone(), path: self.path.clone() }
    }
}

impl Command for ExternalCommand {
    open spec fn name_spec(&self) -> Seq<char> {
        self.view().0
    }

    open spec fn type_message_spec(&self) -> Seq<char> {
        external_type_text(self.view().0, self.view().1)
    }

    fn get_name(&self) -> (r: String) {
        self.name.clone()
    }

    fn get_type_message(&self) -> (r: String) {
        let mut r = self.name.clone();
        r.append(" is ");
        r.append(self.path.as_str());
        r
    }
}

} // verus!
