//! The registry of commands: builtins and external programs by name, and
//! the sorted list of every registered name used for suggestions.

use vstd::prelude::*;

use crate::commands::builtins::{
    builtin_name, BagagaCommand, BuiltinCommand, CdCommand, DebugPrintCommand, EchoCommand,
    ExitCommand, HelpCommand, PwdCommand, TypeCommand,
};
use crate::commands::external::ExternalCommand;
use crate::commands::{Command, CommandEntry, RegisteredCommand};
use crate::names::{insert_sorted, strictly_sorted};
use crate::text::{push_char, views};

verus! {

/// Builtin and external commands by name. A name is a builtin at most once
/// and an external program at most once; lookups try the builtins first.
pub struct CommandsRegistry {
    builtin: Vec<BuiltinCommand>,
    external: Vec<ExternalCommand>,
    registered_names: Vec<String>,
}

/// Whether `a` and `b` hold the same characters.
pub fn same_str(a: &str, b: &str) -> (r: bool)
    ensures
        r == (a@ == b@),
{
    let n = a.unicode_len();
    if n != b.unicode_len() {
        return false;
    }
    let mut i: usize = 0;
    while i < n
        invariant
            n == a@.len(),
            n == b@.len(),
            i <= n,
            a@.take(i as int) == b@.take(i as int),
        decreases n - i,
    {
        if a.get_char(i) != b.get_char(i) {
            return false;
        }
        i = i + 1;
        assert(a@.take(i as int) =~= a@.take(i - 1).push(a@[i - 1]));
        assert(b@.take(i as int) =~= b@.take(i - 1).push(b@[i - 1]));
    }
    assert(a@ =~= a@.take(n as int));
    assert(b@ =~= b@.take(n as int));
    true
}

impl CommandsRegistry {
    /// The registered builtins, in order of registration.
    pub closed spec fn builtins(&self) -> Seq<BuiltinCommand> {
        self.builtin@
    }

    /// The registered external programs, as names and paths, in order of
    /// registration.
    pub closed spec fn externals(&self) -> Seq<(Seq<char>, Seq<char>)> {
        self.external@.map_values(|e: ExternalCommand| e.view())
    }

    /// The list of names kept for suggestions.
    pub closed spec fn names(&self) -> Seq<Seq<char>> {
        views(self.registered_names@)
    }

    pub open spec fn has_builtin(&self, name: Seq<char>) -> bool {
        exists|i: int| 0 <= i < self.builtins().len() && builtin_name(#[trigger] self.builtins()[i]) == name
    }

    pub open spec fn has_external(&self, name: Seq<char>) -> bool {
        exists|j: int| 0 <= j < self.externals().len() && (#[trigger] self.externals()[j]).0 == name
    }

    /// No name is registered twice as a builtin, nor twice as an external
    /// program.
    pub open spec fn wf(&self) -> bool {
        &&& forall|i: int, k: int|
            0 <= i < k < self.builtins().len() ==> builtin_name(#[trigger] self.builtins()[i])
                != builtin_name(#[trigger] self.builtins()[k])
        &&& forall|i: int, k: int|
            0 <= i < k < self.externals().len() ==> (#[trigger] self.externals()[i]).0 != (
            #[trigger] self.externals()[k]).0
    }

    /// The command a name stands for: a builtin of that name, else an
    /// external program of that name.
    pub open spec fn lookup(&self, name: Seq<char>) -> Option<CommandEntry> {
        if self.has_builtin(name) {
            let i = choose|i: int|
                0 <= i < self.builtins().len() && builtin_name(#[trigger] self.builtins()[i]) == name;
            Some(CommandEntry::Builtin(self.builtins()[i]))
        } else if self.has_external(name) {
            let j = choose|j: int|
                0 <= j < self.externals().len() && (#[trigger] self.externals()[j]).0 == name;
            Some(CommandEntry::External(name, self.externals()[j].1))
        } else {
            None
        }
    }

    /// An empty registry.
    pub fn new() -> (r: CommandsRegistry)
        ensures
            r.wf(),
            r.builtins() == Seq::<BuiltinCommand>::empty(),
            r.externals() == Seq::<(Seq<char>, Seq<char>)>::empty(),
            r.names() == Seq::<Seq<char>>::empty(),
    {
        let r = CommandsRegistry {
            builtin: Vec::new(),
            external: Vec::new(),
            registered_names: Vec::new(),
        };
        assert(r.externals() =~= Seq::<(Seq<char>, Seq<char>)>::empty());
        assert(r.names() =~= Seq::<Seq<char>>::empty());
        r
    }

    /// The command registered under `name`, builtins first.
    pub fn get_command(&self, name: &str) -> (r: Option<RegisteredCommand>)
        requires
            self.wf(),
        ensures
            r matches Some(c) ==> self.lookup(name@) == Some(c.view()),
            r is None ==> self.lookup(name@) is None,
    {
        let mut i: usize = 0;
        while i < self.builtin.len()
            invariant
                self.wf(),
                i <= self.builtin@.len(),
                forall|k: int| 0 <= k < i ==> builtin_name(#[trigger] self.builtin@[k]) != name@,
            decreases self.builtin@.len() - i,
        {
            let b = self.builtin[i];
            if same_str(b.name(), name) {
                proof {
                    let c = choose|c: int|
                        0 <= c < self.builtins().len() && builtin_name(#[trigger] self.builtins()[c])
                            == name@;
                    assert(self.builtins()[i as int] == b);
                    if c != i {
                        if c < i {
                            assert(builtin_name(self.builtin@[c]) != name@);
                        } else {
                            assert(builtin_name(self.builtins()[i as int]) != builtin_name(
                                self.builtins()[c],
                            ));
                        }
                    }
                }
                return Some(RegisteredCommand::Builtin(b));
            }
            i = i + 1;
        }
        assert(!self.has_builtin(name@));
        let mut j: usize = 0;
        while j < self.external.len()
            invariant
                self.wf(),
                !self.has_builtin(name@),
                j <= self.external@.len(),
                forall|k: int| 0 <= k < j ==> (#[trigger] self.externals()[k]).0 != name@,
            decreases self.external@.len() - j,
        {
            let e = &self.external[j];
            assert(self.externals()[j as int] == e.view());
            if same_str(e.name(), name) {
                proof {
                    let c = choose|c: int|
                        0 <= c < self.externals().len() && (#[trigger] self.externals()[c]).0
                            == name@;
                    if c != j {
                        if c < j {
                            assert(self.externals()[c].0 != name@);
                        } else {
                            assert(self.externals()[j as int].0 != self.externals()[c].0);
                        }
                    }
                }
                return Some(RegisteredCommand::External(e.duplicate()));
            }
            j = j + 1;
        }
        None
    }

    /// Registers a builtin under its name, which no builtin has yet.
    pub fn register_builtin(&mut self, command: BuiltinCommand)
        requires
            old(self).wf(),
            !old(self).has_builtin(builtin_name(command)),
        ensures
            final(self).wf(),
            final(self).builtins() == old(self).builtins().push(command),
            final(self).externals() == old(self).externals(),
            final(self).names() == old(self).names(),
    {
        self.builtin.push(command);
        proof {
            let o = old(self).builtins();
            let b = self.builtins();
            assert forall|i: int, k: int| 0 <= i < k < b.len() implies builtin_name(
                #[trigger] b[i],
            ) != builtin_name(#[trigger] b[k]) by {
                assert(b[i] == o[i]);
                if k == o.len() {
                    assert(builtin_name(o[i]) != builtin_name(command));
                } else {
                    assert(b[k] == o[k]);
                }
            }
            assert(self.externals() == old(self).externals());
        }
    }

    /// Registers an external program, unless one of that name is registered
    /// already; says whether it was added.
    pub fn register_external(&mut self, name: String, path: String) -> (added: bool)
        requires
            old(self).wf(),
        ensures
            final(self).wf(),
            added == !old(self).has_external(name@),
            added ==> final(self).externals() == old(self).externals().push((name@, path@)),
            !added ==> final(self).externals() == old(self).externals(),
            final(self).builtins() == old(self).builtins(),
            final(self).names() == old(self).names(),
    {
        let mut j: usize = 0;
        while j < self.external.len()
            invariant
                *self == *old(self),
                self.wf(),
                j <= self.external@.len(),
                forall|k: int| 0 <= k < j ==> (#[trigger] self.externals()[k]).0 != name@,
            decreases self.external@.len() - j,
        {
            assert(self.externals()[j as int] == self.external@[j as int].view());
            if same_str(self.external[j].name(), name.as_str()) {
                assert(self.externals()[j as int].0 == name@);
                return false;
            }
            j = j + 1;
        }
        let ghost o = self.externals();
        let e = ExternalCommand::new(name, path);
        self.external.push(e);
        proof {
            assert(self.builtins() == old(self).builtins());
            let x = self.externals();
            assert(x =~= o.push((name@, path@)));
            assert forall|i: int, k: int| 0 <= i < k < x.len() implies (#[trigger] x[i]).0 != (
            #[trigger] x[k]).0 by {
                assert(x[i] == o[i]);
                if k == o.len() {
                    assert(o[i].0 != name@);
                } else {
                    assert(x[k] == o[k]);
                }
            }
        }
        true
    }

    /// Rebuilds the list of names kept for suggestions: every builtin and
    /// external name, once each, in lexicographic order.
    pub fn populate_registered_names(&mut self)
        requires
            old(self).wf(),
        ensures
            final(self).wf(),
            final(self).builtins() == old(self).builtins(),
            final(self).externals() == old(self).externals(),
            strictly_sorted(final(self).names()),
            forall|x: Seq<char>|
                final(self).names().contains(x) <==> (old(self).has_builtin(x) || old(
                    self,
                ).has_external(x)),
    {
        let mut names: Vec<String> = Vec::new();
        let mut i: usize = 0;
        assert(views(names@) =~= Seq::<Seq<char>>::empty());
        while i < self.builtin.len()
            invariant
                *self == *old(self),
                i <= self.builtin@.len(),
                strictly_sorted(views(names@)),
                forall|x: Seq<char>|
                    #[trigger] views(names@).contains(x) <==> exists|k: int|
                        0 <= k < i && builtin_name(#[trigger] self.builtins()[k]) == x,
            decreases self.builtin@.len() - i,
        {
            let n = self.builtin[i].name().to_string();
            assert(n@ == builtin_name(self.builtins()[i as int]));
            insert_sorted(&mut names, n);
            proof {
                assert forall|x: Seq<char>|
                    views(names@).contains(x) <==> exists|k: int|
                        0 <= k < i + 1 && builtin_name(#[trigger] self.builtins()[k]) == x by {
                    if exists|k: int| 0 <= k < i + 1 && builtin_name(#[trigger] self.builtins()[k]) == x {
                        let k = choose|k: int| 0 <= k < i + 1 && builtin_name(#[trigger] self.builtins()[k]) == x;
                        if k < i {
                            assert(views(names@).contains(x));
                        }
                    }
                }
            }
            i = i + 1;
        }
        let mut j: usize = 0;
        while j < self.external.len()
            invariant
                *self == *old(self),
                j <= self.external@.len(),
                i == self.builtin@.len(),
                strictly_sorted(views(names@)),
                forall|x: Seq<char>|
                    #[trigger] views(names@).contains(x) <==> (self.has_builtin(x) || exists|k: int|
                        0 <= k < j && (#[trigger] self.externals()[k]).0 == x),
            decreases self.external@.len() - j,
        {
            assert(self.externals()[j as int] == self.external@[j as int].view());
            let n = self.external[j].get_name();
            assert(n@ == self.externals()[j as int].0);
            let ghost prev = views(names@);
            insert_sorted(&mut names, n);
            proof {
                assert forall|x: Seq<char>|
                    views(names@).contains(x) <==> (self.has_builtin(x) || exists|k: int|
                        0 <= k < j + 1 && (#[trigger] self.externals()[k]).0 == x) by {
                    if exists|k: int| 0 <= k < j + 1 && (#[trigger] self.externals()[k]).0 == x {
                        let k = choose|k: int| 0 <= k < j + 1 && (#[trigger] self.externals()[k]).0 == x;
                        if k < j {
                            assert(prev.contains(x));
                        }
                    }
                }
            }
            j = j + 1;
        }
        self.registered_names = names;
        assert(self.builtins() == old(self).builtins());
        assert(self.externals() == old(self).externals());
    }

    /// The builtin names, in lexicographic order.
    pub fn builtin_names(&self) -> (r: Vec<String>)
        requires
            self.wf(),
        ensures
            strictly_sorted(views(r@)),
            forall|x: Seq<char>| #[trigger] views(r@).contains(x) <==> self.has_builtin(x),
    {
        let mut names: Vec<String> = Vec::new();
        let mut i: usize = 0;
        assert(views(names@) =~= Seq::<Seq<char>>::empty());
        while i < self.builtin.len()
            invariant
                i <= self.builtin@.len(),
                strictly_sorted(views(names@)),
                forall|x: Seq<char>|
                    #[trigger] views(names@).contains(x) <==> exists|k: int|
                        0 <= k < i && builtin_name(#[trigger] self.builtins()[k]) == x,
            decreases self.builtin@.len() - i,
        {
            let n = self.builtin[i].name().to_string();
            assert(n@ == builtin_name(self.builtins()[i as int]));
            let ghost prev = views(names@);
            insert_sorted(&mut names, n);
            proof {
                assert forall|x: Seq<char>|
                    views(names@).contains(x) <==> exists|k: int|
                        0 <= k < i + 1 && builtin_name(#[trigger] self.builtins()[k]) == x by {
                    if exists|k: int| 0 <= k < i + 1 && builtin_name(#[trigger] self.builtins()[k]) == x {
                        let k = choose|k: int| 0 <= k < i + 1 && builtin_name(#[trigger] self.builtins()[k]) == x;
                        if k < i {
                            assert(prev.contains(x));
                        }
                    }
                }
            }
            i = i + 1;
        }
        names
    }

    /// The external program names, in lexicographic order.
    pub fn external_names(&self) -> (r: Vec<String>)
        requires
            self.wf(),
        ensures
            strictly_sorted(views(r@)),
            forall|x: Seq<char>| #[trigger] views(r@).contains(x) <==> self.has_external(x),
    {
        let mut names: Vec<String> = Vec::new();
        let mut j: usize = 0;
        assert(views(names@) =~= Seq::<Seq<char>>::empty());
        while j < self.external.len()
            invariant
                j <= self.external@.len(),
                strictly_sorted(views(names@)),
                forall|x: Seq<char>|
                    #[trigger] views(names@).contains(x) <==> exists|k: int|
                        0 <= k < j && (#[trigger] self.externals()[k]).0 == x,
            decreases self.external@.len() - j,
        {
            assert(self.externals()[j as int] == self.external@[j as int].view());
            let n = self.external[j].get_name();
            assert(n@ == self.externals()[j as int].0);
            let ghost prev = views(names@);
            insert_sorted(&mut names, n);
            proof {
                assert forall|x: Seq<char>|
                    views(names@).contains(x) <==> exists|k: int|
                        0 <= k < j + 1 && (#[trigger] self.externals()[k]).0 == x by {
                    if exists|k: int| 0 <= k < j + 1 && (#[trigger] self.externals()[k]).0 == x {
                        let k = choose|k: int| 0 <= k < j + 1 && (#[trigger] self.externals()[k]).0 == x;
                        if k < j {
                            assert(prev.contains(x));
                        }
                    }
                }
            }
            j = j + 1;
        }
        names
    }

    /// The names kept for suggestions.
    pub fn registered_names(&self) -> (r: &[String])
        ensures
            views(r@) == self.names(),
    {
        self.registered_names.as_slice()
    }

    /// A registry holding the shell's builtins: `exit`, `echo`, `type`,
    /// `pwd`, `cd` and `help`, preceded by `dprint` and `bagaga` when
    /// `debug` is set. No external program is registered yet.
    pub fn with_builtins(debug: bool) -> (r: CommandsRegistry)
        ensures
            r.wf(),
            r.builtins() == if debug {
                seq![
                    BuiltinCommand::DebugPrint(DebugPrintCommand),
                    BuiltinCommand::Bagaga(BagagaCommand),
                ]
            } else {
                Seq::<BuiltinCommand>::empty()
            } + seq![
                BuiltinCommand::Exit(ExitCommand),
                BuiltinCommand::Echo(EchoCommand),
                BuiltinCommand::Type(TypeCommand),
                BuiltinCommand::Pwd(PwdCommand),
                BuiltinCommand::Cd(CdCommand),
                BuiltinCommand::Help(HelpCommand),
            ],
            r.externals() == Seq::<(Seq<char>, Seq<char>)>::empty(),
    {
        let mut r = CommandsRegistry::new();
        proof {
            lemma_builtin_name_injective();
        }
        if debug {
            r.register_builtin(BuiltinCommand::DebugPrint(DebugPrintCommand));
            r.register_builtin(BuiltinCommand::Bagaga(BagagaCommand));
        }
        r.register_builtin(BuiltinCommand::Exit(ExitCommand));
        r.register_builtin(BuiltinCommand::Echo(EchoCommand));
        r.register_builtin(BuiltinCommand::Type(TypeCommand));
        r.register_builtin(BuiltinCommand::Pwd(PwdCommand));
        r.register_builtin(BuiltinCommand::Cd(CdCommand));
        r.register_builtin(BuiltinCommand::Help(HelpCommand));
        assert(r.builtins() =~= if debug {
            seq![
                BuiltinCommand::DebugPrint(DebugPrintCommand),
                BuiltinCommand::Bagaga(BagagaCommand),
            ]
        } else {
            Seq::<BuiltinCommand>::empty()
        } + seq![
            BuiltinCommand::Exit(ExitCommand),
            BuiltinCommand::Echo(EchoCommand),
            BuiltinCommand::Type(TypeCommand),
            BuiltinCommand::Pwd(PwdCommand),
            BuiltinCommand::Cd(CdCommand),
            BuiltinCommand::Help(HelpCommand),
        ]);
        r
    }
}

/// Distinct builtins have distinct names.
pub proof fn lemma_builtin_name_injective()
    ensures
        forall|a: BuiltinCommand, b: BuiltinCommand|
            builtin_name(a) == builtin_name(b) ==> a == b,
{
    reveal_strlit("all");
    reveal_strlit("cd");
    reveal_strlit("bagaga");
    reveal_strlit("dprint");
    reveal_strlit("echo");
    reveal_strlit("exit");
    reveal_strlit("help");
    reveal_strlit("pwd");
    reveal_strlit("type");
    assert forall|a: BuiltinCommand, b: BuiltinCommand|
        builtin_name(a) == builtin_name(b) implies a == b by {
        if a != b {
            assert(builtin_name(a).len() != builtin_name(b).len() || builtin_name(a)[0]
                != builtin_name(b)[0] || builtin_name(a)[1] != builtin_name(b)[1]);
        }
    }
}

/// The pieces of `s[i..]` between colons, after `done` and with `cur` the
/// piece being read.
pub open spec fn split_from(s: Seq<char>, i: int, cur: Seq<char>, done: Seq<Seq<char>>) -> Seq<
    Seq<char>,
>
    decreases s.len() - i,
{
    if i < 0 || i >= s.len() {
        done.push(cur)
    } else if s[i] == ':' {
        split_from(s, i + 1, Seq::empty(), done.push(cur))
    } else {
        split_from(s, i + 1, cur.push(s[i]), done)
    }
}

/// The colon-separated pieces of a search path, empty ones included.
pub open spec fn split_colons(s: Seq<char>) -> Seq<Seq<char>> {
    split_from(s, 0, Seq::empty(), Seq::empty())
}

/// The directories named in a `PATH` value, in order.
pub fn path_directories(path: &str) -> (r: Vec<String>)
    ensures
        views(r@) == split_colons(path@),
{
    let n = path.unicode_len();
    let mut dirs: Vec<String> = Vec::new();
    let mut cur = String::new();
    let mut i: usize = 0;
    assert(views(dirs@) =~= Seq::<Seq<char>>::empty());
    while i < n
        invariant
            n == path@.len(),
            i <= n,
            split_colons(path@) == split_from(path@, i as int, cur@, views(dirs@)),
        decreases n - i,
    {
        let c = path.get_char(i);
        if c == ':' {
            let ghost before = dirs@;
            dirs.push(cur);
            assert(views(dirs@) =~= views(before).push(cur@));
            cur = String::new();
        } else {
            push_char(&mut cur, c);
        }
        i = i + 1;
    }
    let ghost before = dirs@;
    dirs.push(cur);
    assert(views(dirs@) =~= views(before).push(cur@));
    dirs
}

} // verus!
