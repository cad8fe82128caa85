//! The command registry: it maps command names to handlers, the last
//! registration for a name winning, and dispatches one command at a time with
//! exclusive access to the session state.

use crate::command::{Command, CommandAction, HandlerKind};
use crate::errors::CommandError;
use crate::handlers::{exit, handler_action, help};
use crate::session::Session;
use crate::text::str_eq;
use vstd::prelude::*;

verus! {

struct RegEntry {
    command: Command,
    handler: HandlerKind,
}

/// The registry of commands. Its mathematical value is the map from command
/// name to bound handler.
pub struct CommandRegistry {
    entries: Vec<RegEntry>,
}

spec fn unique_names(s: Seq<RegEntry>) -> bool {
    forall|i: int, j: int|
        0 <= i < j < s.len() ==> s[i].command.name@ != s[j].command.name@
}

spec fn as_map(s: Seq<RegEntry>) -> Map<Seq<char>, HandlerKind>
    decreases s.len(),
{
    if s.len() == 0 {
        Map::empty()
    } else {
        as_map(s.drop_last()).insert(s.last().command.name@, s.last().handler)
    }
}

/// The name and description of each command of a sequence, in its order.
pub open spec fn command_pairs(s: Seq<Command>) -> Seq<(Seq<char>, Seq<char>)> {
    s.map_values(|c: Command| (c.name@, c.description@))
}

proof fn lemma_as_map_index(s: Seq<RegEntry>, i: int)
    requires
        unique_names(s),
        0 <= i < s.len(),
    ensures
        as_map(s).contains_key(s[i].command.name@),
        as_map(s)[s[i].command.name@] == s[i].handler,
    decreases s.len(),
{
    if i < s.len() - 1 {
        lemma_as_map_index(s.drop_last(), i);
    }
}

proof fn lemma_as_map_absent(s: Seq<RegEntry>, n: Seq<char>)
    requires
        forall|i: int| 0 <= i < s.len() ==> s[i].command.name@ != n,
    ensures
        !as_map(s).contains_key(n),
    decreases s.len(),
{
    if s.len() > 0 {
        lemma_as_map_absent(s.drop_last(), n);
    }
}

proof fn lemma_as_map_key_index(s: Seq<RegEntry>, n: Seq<char>)
    requires
        as_map(s).contains_key(n),
    ensures
        exists|i: int| 0 <= i < s.len() && (#[trigger] s[i]).command.name@ == n,
    decreases s.len(),
{
    if s.len() > 0 {
        if s.last().command.name@ == n {
            assert(s[s.len() - 1].command.name@ == n);
        } else {
            lemma_as_map_key_index(s.drop_last(), n);
            let i = choose|i: int|
                0 <= i < s.drop_last().len() && (#[trigger] s.drop_last()[i]).command.name@ == n;
            assert(s[i].command.name@ == n);
        }
    }
}

proof fn lemma_as_map_update(s: Seq<RegEntry>, i: int, e: RegEntry)
    requires
        unique_names(s),
        0 <= i < s.len(),
        e.command.name@ == s[i].command.name@,
    ensures
        as_map(s.update(i, e)) == as_map(s).insert(e.command.name@, e.handler),
    decreases s.len(),
{
    let n = e.command.name@;
    let s2 = s.update(i, e);
    if i == s.len() - 1 {
        assert(s2.drop_last() =~= s.drop_last());
        assert(as_map(s.drop_last()).insert(n, s.last().handler).insert(n, e.handler)
            =~= as_map(s.drop_last()).insert(n, e.handler));
    } else {
        assert(s2.drop_last() =~= s.drop_last().update(i, e));
        lemma_as_map_update(s.drop_last(), i, e);
        let m = s.last().command.name@;
        assert(s2.last() == s.last());
        assert(as_map(s.drop_last()).insert(n, e.handler).insert(m, s.last().handler)
            =~= as_map(s.drop_last()).insert(m, s.last().handler).insert(n, e.handler));
    }
}

/// Registering a name twice leaves exactly one binding for it, the second:
/// inserting a handler over a previous one for the same name gives the same
/// registry as inserting only the second.
pub proof fn lemma_register_last_wins(
    m: Map<Seq<char>, HandlerKind>,
    name: Seq<char>,
    h1: HandlerKind,
    h2: HandlerKind,
)
    ensures
        m.insert(name, h1).insert(name, h2) == m.insert(name, h2),
{
    assert(m.insert(name, h1).insert(name, h2) =~= m.insert(name, h2));
}

impl View for CommandRegistry {
    type V = Map<Seq<char>, HandlerKind>;

    closed spec fn view(&self) -> Map<Seq<char>, HandlerKind> {
        as_map(self.entries@)
    }
}

impl CommandRegistry {
    /// The registry invariant: no command name is bound twice.
    pub closed spec fn wf(&self) -> bool {
        unique_names(self.entries@)
    }

    /// The name and description of each registered command, in registration
    /// order.
    pub closed spec fn commands_view(&self) -> Seq<(Seq<char>, Seq<char>)> {
        self.entries@.map_values(|e: RegEntry| (e.command.name@, e.command.description@))
    }

    /// An empty registry.
    pub fn new() -> (r: CommandRegistry)
        ensures
            r.wf(),
            r@ == Map::<Seq<char>, HandlerKind>::empty(),
            r.commands_view().len() == 0,
    {
        let r = CommandRegistry { entries: Vec::new() };
        proof {
            assert(r@ =~= Map::<Seq<char>, HandlerKind>::empty());
        }
        r
    }

    /// Binds `command.name` to the handler, inserting it or replacing the
    /// previous binding: the last registration for a given name wins, and a
    /// duplicate name is no error. The command listing changes the same way:
    /// a bound name has its one listed entry replaced in place, a fresh name
    /// is appended.
    pub fn register(&mut self, command: Command, handler: HandlerKind)
        requires
            old(self).wf(),
        ensures
            final(self).wf(),
            final(self)@ == old(self)@.insert(command.name@, handler),
            old(self)@.contains_key(command.name@) ==> exists|i: int|
                0 <= i < old(self).commands_view().len() && (#[trigger] old(
                    self,
                ).commands_view()[i]).0 == command.name@ && final(self).commands_view() == old(
                    self,
                ).commands_view().update(i, (command.name@, command.description@)),
            !old(self)@.contains_key(command.name@) ==> final(self).commands_view() == old(
                self,
            ).commands_view().push((command.name@, command.description@)),
    {
        let n = self.entries.len();
        let mut i: usize = 0;
        while i < n
            invariant
                i <= n,
                n == self.entries@.len(),
                unique_names(self.entries@),
                self.entries@ == old(self).entries@,
                forall|j: int| 0 <= j < i ==> self.entries@[j].command.name@ != command.name@,
            decreases n - i,
        {
            if str_eq(self.entries[i].command.name.as_str(), command.name.as_str()) {
                let e = RegEntry { command, handler };
                proof {
                    lemma_as_map_index(self.entries@, i as int);
                    lemma_as_map_update(self.entries@, i as int, e);
                }
                self.entries[i] = e;
                proof {
                    assert forall|p: int, q: int|
                        0 <= p < q < self.entries@.len() implies self.entries@[p].command.name@
                        != self.entries@[q].command.name@ by {
                        assert(old(self).entries@[p].command.name@
                            != old(self).entries@[q].command.name@);
                    }
                    assert(self.commands_view() =~= old(self).commands_view().update(
                        i as int,
                        (command.name@, command.description@),
                    ));
                    assert((old(self).commands_view()[i as int]).0 == command.name@);
                }
                return ;
            }
            i += 1;
        }
        let e = RegEntry { command, handler };
        proof {
            lemma_as_map_absent(self.entries@, command.name@);
        }
        self.entries.push(e);
        proof {
            assert(self.entries@.drop_last() =~= old(self).entries@);
            assert(self.commands_view() =~= old(self).commands_view().push(
                (command.name@, command.description@),
            ));
        }
    }

    /// The registered commands, in registration order.
    pub fn get_all_commands(&self) -> (r: Vec<Command>)
        ensures
            command_pairs(r@) == self.commands_view(),
    {
        let n = self.entries.len();
        let mut out: Vec<Command> = Vec::new();
        let mut i: usize = 0;
        while i < n
            invariant
                i <= n,
                n == self.entries@.len(),
                out@.len() == i,
                forall|j: int|
                    0 <= j < i ==> out@[j].name@ == self.entries@[j].command.name@
                        && out@[j].description@ == self.entries@[j].command.description@,
            decreases n - i,
        {
            out.push(self.entries[i].command.duplicate());
            i += 1;
        }
        proof {
            assert(command_pairs(out@) =~= self.commands_view());
        }
        out
    }

    /// The command listing names exactly the registered names: no name is
    /// listed twice, every listed name is bound in the registry, and every
    /// bound name is listed. With `register`'s contract this makes the
    /// listing hold exactly one entry per distinct registered name.
    pub proof fn lemma_listing_matches_map(&self)
        requires
            self.wf(),
        ensures
            forall|i: int, j: int|
                0 <= i < j < self.commands_view().len() ==> (#[trigger] self.commands_view()[i]).0
                    != (#[trigger] self.commands_view()[j]).0,
            forall|i: int|
                0 <= i < self.commands_view().len() ==> self@.contains_key(
                    (#[trigger] self.commands_view()[i]).0,
                ),
            forall|n: Seq<char>|
                #[trigger] self@.contains_key(n) ==> exists|i: int|
                    0 <= i < self.commands_view().len() && (#[trigger] self.commands_view()[i]).0
                        == n,
    {
        assert forall|i: int|
            0 <= i < self.commands_view().len() implies self@.contains_key(
            (#[trigger] self.commands_view()[i]).0,
        ) by {
            lemma_as_map_index(self.entries@, i);
        }
        assert forall|n: Seq<char>| #[trigger] self@.contains_key(n) implies exists|i: int|
            0 <= i < self.commands_view().len() && (#[trigger] self.commands_view()[i]).0
                == n by {
            lemma_as_map_key_index(self.entries@, n);
            let i = choose|i: int|
                0 <= i < self.entries@.len() && (#[trigger] self.entries@[i]).command.name@ == n;
            assert((self.commands_view()[i]).0 == n);
        }
    }

    /// Looks the command up and runs its handler with exclusive access to the
    /// session, handing it the raw argument string. An unregistered name
    /// fails with `UnknownCommand` and leaves the session untouched; a
    /// handler's own outcome is passed on unchanged.
    pub fn execute(&self, name: &str, args: &str, session: &mut Session) -> (r: Result<
        CommandAction,
        CommandError,
    >)
        requires
            self.wf(),
        ensures
            *final(session) == *old(session),
            self@.contains_key(name@) ==> (r matches Ok(a) && a@ == handler_action(
                self@[name@],
                args@,
            )),
            !self@.contains_key(name@) ==> r == Err::<CommandAction, CommandError>(
                CommandError::UnknownCommand,
            ),
    {
        let n = self.entries.len();
        let mut i: usize = 0;
        while i < n
            invariant
                i <= n,
                n == self.entries@.len(),
                self.wf(),
                *session == *old(session),
                forall|j: int| 0 <= j < i ==> self.entries@[j].command.name@ != name@,
            decreases n - i,
        {
            if str_eq(self.entries[i].command.name.as_str(), name) {
                proof {
                    lemma_as_map_index(self.entries@, i as int);
                }
                return match self.entries[i].handler {
                    HandlerKind::Exit => exit(session, args),
                    HandlerKind::Help => help(session, args),
                    HandlerKind::SetCmd => crate::handlers::set(session, args),
                };
            }
            i += 1;
        }
        proof {
            lemma_as_map_absent(self.entries@, name@);
        }
        Err(CommandError::UnknownCommand)
    }
}

} // verus!
