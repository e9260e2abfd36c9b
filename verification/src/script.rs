//! Scripts of commands, and what they create.
use vstd::prelude::*;

use crate::command::{Command, Handle, Object, ObjectKind};

verus! {

/// How many objects a script creates.
pub open spec fn creations(script: Seq<Command>) -> nat
    decreases script.len(),
{
    if script.len() == 0 {
        0
    } else {
        creations(script.drop_last()) + (if script.last().creates() is Some {
            1nat
        } else {
            0
        })
    }
}

/// No command names an object that the commands before it have not created.
pub open spec fn well_scoped(script: Seq<Command>) -> bool {
    forall|i: int|
        0 <= i < script.len() ==> (#[trigger] script[i]).in_scope(creations(script.take(i)))
}

/// The script's creation number `number` brings about an object of this kind.
pub open spec fn creates_kind(script: Seq<Command>, number: nat, kind: ObjectKind) -> bool {
    exists|i: int|
        0 <= i < script.len() && (#[trigger] script[i]).creates() == Some(kind) && creations(
            script.take(i),
        ) == number
}

/// Some command of the script ends the life of this object.
pub open spec fn releases(script: Seq<Command>, kind: ObjectKind, handle: Handle) -> bool {
    exists|i: int|
        0 <= i < script.len() && (#[trigger] script[i]).releases() == Some(Object { kind, handle })
}

/// How many commands of the script end the life of this object.
pub open spec fn release_count(script: Seq<Command>, kind: ObjectKind, handle: Handle) -> nat
    decreases script.len(),
{
    if script.len() == 0 {
        0
    } else {
        release_count(script.drop_last(), kind, handle) + (if script.last().releases() == Some(
            Object { kind, handle },
        ) {
            1nat
        } else {
            0
        })
    }
}

pub proof fn lemma_creations_push(script: Seq<Command>, command: Command)
    ensures
        creations(script.push(command)) == creations(script) + (if command.creates() is Some {
            1nat
        } else {
            0
        }),
{
    assert(script.push(command).drop_last() =~= script);
}

pub proof fn lemma_creations_add(first: Seq<Command>, second: Seq<Command>)
    ensures
        creations(first + second) == creations(first) + creations(second),
    decreases second.len(),
{
    if second.len() == 0 {
        assert(first + second =~= first);
    } else {
        lemma_creations_add(first, second.drop_last());
        assert((first + second).drop_last() =~= first + second.drop_last());
    }
}

pub proof fn lemma_creations_bounded(script: Seq<Command>)
    ensures
        creations(script) <= script.len(),
    decreases script.len(),
{
    if script.len() > 0 {
        lemma_creations_bounded(script.drop_last());
    }
}

/// What either of two scripts releases, the one behind the other releases, and
/// nothing more.
pub proof fn lemma_releases_add(
    first: Seq<Command>,
    second: Seq<Command>,
    kind: ObjectKind,
    handle: Handle,
)
    ensures
        releases(first + second, kind, handle) <==> releases(first, kind, handle) || releases(
            second,
            kind,
            handle,
        ),
{
    let object = Object { kind, handle };
    let both = first + second;
    if releases(first, kind, handle) {
        let i = choose|i: int|
            0 <= i < first.len() && (#[trigger] first[i]).releases() == Some(object);
        assert(both[i] == first[i]);
    }
    if releases(second, kind, handle) {
        let i = choose|i: int|
            0 <= i < second.len() && (#[trigger] second[i]).releases() == Some(object);
        assert(both[first.len() + i] == second[i]);
    }
    if releases(both, kind, handle) {
        let i = choose|i: int|
            0 <= i < both.len() && (#[trigger] both[i]).releases() == Some(object);
        if i < first.len() {
            assert(both[i] == first[i]);
        } else {
            assert(both[i] == second[i - first.len()]);
        }
    }
}

pub proof fn lemma_release_count_add(
    first: Seq<Command>,
    second: Seq<Command>,
    kind: ObjectKind,
    handle: Handle,
)
    ensures
        release_count(first + second, kind, handle) == release_count(first, kind, handle)
            + release_count(second, kind, handle),
    decreases second.len(),
{
    if second.len() == 0 {
        assert(first + second =~= first);
    } else {
        lemma_release_count_add(first, second.drop_last(), kind, handle);
        assert((first + second).drop_last() =~= first + second.drop_last());
    }
}

/// A script under construction, whose commands only ever name objects that
/// exist by then.
pub(crate) struct Script {
    commands: Vec<Command>,
    created: usize,
}

impl View for Script {
    type V = Seq<Command>;

    closed spec fn view(&self) -> Seq<Command> {
        self.commands@
    }
}

impl Script {
    pub closed spec fn wf(&self) -> bool {
        &&& self.created == creations(self.commands@)
        &&& well_scoped(self.commands@)
    }

    /// The empty script.
    pub fn new() -> (script: Script)
        ensures
            script.wf(),
            script@ == Seq::<Command>::empty(),
            creations(script@) == 0,
    {
        Script { commands: Vec::new(), created: 0 }
    }

    /// Adds a command that creates nothing.
    pub fn push(&mut self, command: Command)
        requires
            old(self).wf(),
            command.creates() is None,
            command.in_scope(creations(old(self)@)),
        ensures
            final(self).wf(),
            final(self)@ == old(self)@.push(command),
            creations(final(self)@) == creations(old(self)@),
    {
        let ghost before = self.commands@;
        self.commands.push(command);
        proof {
            lemma_creations_push(before, command);
            lemma_scope_push(before, command);
        }
    }

    /// Adds a command that creates an object, and returns that object.
    pub fn create(&mut self, command: Command) -> (object: Handle)
        requires
            old(self).wf(),
            command.creates() is Some,
            command.in_scope(creations(old(self)@)),
        ensures
            final(self).wf(),
            final(self)@ == old(self)@.push(command),
            object is Created,
            object->Created_0 == creations(old(self)@),
            creations(final(self)@) == creations(old(self)@) + 1,
    {
        let ghost before = self.commands@;
        let number: usize = self.created;
        self.commands.push(command);
        proof {
            lemma_creations_push(before, command);
            lemma_scope_push(before, command);
            lemma_creations_bounded(self.commands@);
        }
        let length: usize = self.commands.len();
        assert(number + 1 <= length);
        self.created = number + 1;
        Handle::Created(number)
    }

    /// The commands in order.
    pub fn into_commands(self) -> (commands: Vec<Command>)
        requires
            self.wf(),
        ensures
            commands@ == self@,
            well_scoped(commands@),
    {
        self.commands
    }
}

proof fn lemma_scope_push(script: Seq<Command>, command: Command)
    requires
        well_scoped(script),
        command.in_scope(creations(script)),
    ensures
        well_scoped(script.push(command)),
{
    let longer = script.push(command);
    assert forall|i: int| 0 <= i < longer.len() implies (#[trigger] longer[i]).in_scope(
        creations(longer.take(i)),
    ) by {
        if i < script.len() {
            assert(longer.take(i) =~= script.take(i));
            assert(longer[i] == script[i]);
        } else {
            assert(longer.take(i) =~= script);
        }
    }
}

} // verus!
