use crate::command::SlashCommand;
use vstd::prelude::*;
use vstd::string::*;

verus! {

/// Some command in `s` is named `name`.
pub open spec fn has_name<C: SlashCommand>(s: Seq<C>, name: Seq<char>) -> bool {
    exists|i: int| 0 <= i < s.len() && (#[trigger] s[i]).spec_name() == name
}

/// Where in `s` the command named `name` stands.
pub open spec fn position<C: SlashCommand>(s: Seq<C>, name: Seq<char>) -> int
    recommends
        has_name(s, name),
{
    choose|i: int| 0 <= i < s.len() && (#[trigger] s[i]).spec_name() == name
}

/// No two commands in `s` share a name.
pub open spec fn names_unique<C: SlashCommand>(s: Seq<C>) -> bool {
    forall|i: int, j: int|
        0 <= i < s.len() && 0 <= j < s.len() && i != j ==> (#[trigger] s[i]).spec_name()
            != (#[trigger] s[j]).spec_name()
}

/// The command named `name` in `s`, if any.
pub open spec fn lookup<C: SlashCommand>(s: Seq<C>, name: Seq<char>) -> Option<C> {
    if has_name(s, name) {
        Some(s[position(s, name)])
    } else {
        None
    }
}

/// `s` after registering `cmd`: it takes the place of the command of the
/// same name, or else comes last.
pub open spec fn registered<C: SlashCommand>(s: Seq<C>, cmd: C) -> Seq<C> {
    if has_name(s, cmd.spec_name()) {
        s.update(position(s, cmd.spec_name()), cmd)
    } else {
        s.push(cmd)
    }
}

/// The commands known by name, in the order they were first registered.
pub struct SlashCommandRegistry<C> {
    commands: Vec<C>,
}

impl<C> View for SlashCommandRegistry<C> {
    type V = Seq<C>;

    closed spec fn view(&self) -> Seq<C> {
        self.commands@
    }
}

impl<C: SlashCommand> SlashCommandRegistry<C> {
    pub open spec fn wf(&self) -> bool {
        names_unique(self@)
    }

    pub fn new() -> (r: Self)
        ensures
            r@ == Seq::<C>::empty(),
            r.wf(),
    {
        SlashCommandRegistry { commands: Vec::new() }
    }

    /// Where the command named `name` stands, if any.
    fn find(&self, name: &String) -> (r: Option<usize>)
        requires
            self.wf(),
        ensures
            has_name(self@, name@) <==> r is Some,
            match r {
                Some(i) => i == position(self@, name@),
                None => true,
            },
    {
        let mut i: usize = 0;
        while i < self.commands.len()
            invariant
                0 <= i <= self@.len(),
                self.wf(),
                forall|j: int| 0 <= j < i ==> (#[trigger] self@[j]).spec_name() != name@,
            decreases self@.len() - i,
        {
            if self.commands[i].name() == *name {
                assert(has_name(self@, name@));
                return Some(i);
            }
            i += 1;
        }
        None
    }

    /// Adds `command` under its name, replacing any command of that name in
    /// its place.
    pub fn register(&mut self, command: C)
        requires
            old(self).wf(),
        ensures
            final(self).wf(),
            final(self)@ == registered(old(self)@, command),
    {
        let name = command.name();
        match self.find(&name) {
            Some(i) => {
                self.commands.set(i, command);
            },
            None => {
                self.commands.push(command);
            },
        }
    }

    /// The command named exactly `name`, if one is registered.
    pub fn get(&self, name: &str) -> (r: Option<&C>)
        requires
            self.wf(),
        ensures
            match r {
                Some(c) => lookup(self@, name@) == Some(*c),
                None => lookup(self@, name@) is None,
            },
    {
        let name = name.to_owned();
        match self.find(&name) {
            Some(i) => Some(&self.commands[i]),
            None => None,
        }
    }

    /// Every registered command, in order of first registration.
    pub fn list(&self) -> (r: &Vec<C>)
        ensures
            r@ == self@,
    {
        &self.commands
    }
}

/// The registry that an application builds once at startup and hands to
/// every place that resolves commands: empty until commands are registered.
pub fn init<C: SlashCommand>() -> (r: SlashCommandRegistry<C>)
    ensures
        r@ == Seq::<C>::empty(),
        r.wf(),
{
    SlashCommandRegistry::new()
}

/// After registering `cmd`, looking up its name finds `cmd`, and every other
/// name finds what it found before.
pub proof fn lemma_register_then_get<C: SlashCommand>(s: Seq<C>, cmd: C)
    requires
        names_unique(s),
    ensures
        names_unique(registered(s, cmd)),
        lookup(registered(s, cmd), cmd.spec_name()) == Some(cmd),
        forall|name: Seq<char>|
            name != cmd.spec_name() ==> #[trigger] lookup(registered(s, cmd), name) == lookup(
                s,
                name,
            ),
{
    let n0 = cmd.spec_name();
    let t = registered(s, cmd);
    let p = if has_name(s, n0) {
        position(s, n0)
    } else {
        s.len() as int
    };
    assert(0 <= p < t.len() && t[p] == cmd);
    assert(forall|i: int| 0 <= i < t.len() && i != p ==> t[i] == s[i]);
    assert(forall|i: int| 0 <= i < t.len() && i != p ==> (#[trigger] t[i]).spec_name() != n0);
    assert(names_unique(t));
    assert(has_name(t, n0));
    assert forall|name: Seq<char>| name != n0 implies #[trigger] lookup(t, name) == lookup(s, name) by {
        if has_name(s, name) {
            let q = position(s, name);
            assert(q != p && t[q] == s[q]);
            assert(has_name(t, name));
        }
        if has_name(t, name) {
            let q = position(t, name);
            assert(q != p && t[q] == s[q]);
            assert(has_name(s, name));
        }
    }
}

/// Registering a command under a name already present does not lengthen the
/// list.
pub proof fn lemma_reregister_keeps_length<C: SlashCommand>(s: Seq<C>, cmd: C)
    requires
        has_name(s, cmd.spec_name()),
    ensures
        registered(s, cmd).len() == s.len(),
{
}

} // verus!
