//! A script being carried out: the command that is due, and the handles that
//! the device has reported so far.
use vstd::prelude::*;

use crate::command::{resolve, Command, Handle};
use crate::config::Extent;
use crate::script::{creations, lemma_creations_push, well_scoped, Script};
use crate::texture::TextureKey;

verus! {

/// What becomes of the image that an upload creates.
#[derive(Clone, Copy, Debug, PartialEq, Eq, Structural)]
pub enum Fate {
    /// It is kept as the texture.
    Register,
    /// It is copied into the texture that is there, and destroyed.
    Patch,
    /// There is no texture to copy it into.
    Orphan,
}

/// What a script is for.
#[derive(Clone, Copy, Debug, PartialEq, Eq, Structural)]
pub enum Purpose {
    /// To create what an integration over this many swapchain images needs.
    Setup { image_count: usize },
    /// To bring an image to the device.
    Upload { id: TextureKey, extent: Extent, fate: Fate },
    /// To replace the pipeline.
    Swapchain,
    /// To create the descriptor set of a user texture.
    UserTexture,
    /// Something of which nothing is to be kept.
    Plain,
}

/// How many objects a script with this purpose creates.
pub open spec fn expected_creations(purpose: Purpose) -> nat {
    match purpose {
        Purpose::Setup { image_count } => (5 * image_count + 7) as nat,
        Purpose::Upload { fate: Fate::Register, .. } => 9,
        Purpose::Upload { .. } => 8,
        Purpose::Swapchain => 3,
        Purpose::UserTexture => 1,
        Purpose::Plain => 0,
    }
}

/// What performing a command led to.
#[derive(Clone, Copy, Debug, PartialEq, Eq, Structural)]
pub enum Event {
    /// It is done.
    Done,
    /// It is done, and the object it created has this handle.
    Created(u64),
}

#[derive(Clone, Copy, Debug, PartialEq, Eq, Structural)]
pub enum TaskError {
    /// The script was at its end already.
    Finished,
    /// A handle was reported for a command that creates nothing, or none for
    /// one that does.
    UnexpectedEvent,
    /// The script is not at its end yet.
    Unfinished,
    /// The script serves another purpose.
    WrongPurpose,
}

/// A task as a mathematical value.
pub struct TaskModel {
    pub script: Seq<Command>,
    /// How many commands have been performed.
    pub position: nat,
    /// The handles of the objects created, in order.
    pub created: Seq<u64>,
    pub purpose: Purpose,
    /// The bytes that `WriteData` copies.
    pub data: Seq<u8>,
}

impl TaskModel {
    pub open spec fn wf(self) -> bool {
        &&& self.position <= self.script.len()
        &&& self.created.len() == creations(self.script.take(self.position as int))
        &&& well_scoped(self.script)
        &&& creations(self.script) == expected_creations(self.purpose)
    }

    pub open spec fn finished(self) -> bool {
        self.position == self.script.len()
    }

    /// The command that is due.
    pub open spec fn due(self) -> Command {
        self.script[self.position as int]
    }

    /// Whether this can be what performing the due command led to.
    pub open spec fn accepts(self, event: Event) -> bool {
        (event is Created) == (self.due().creates() is Some)
    }

    /// The task after the due command led to this event.
    pub open spec fn after(self, event: Event) -> TaskModel {
        TaskModel {
            position: self.position + 1,
            created: match event {
                Event::Created(raw) => self.created.push(raw),
                Event::Done => self.created,
            },
            ..self
        }
    }

    /// The task before anything has been performed.
    pub open spec fn fresh(script: Seq<Command>, purpose: Purpose, data: Seq<u8>) -> TaskModel {
        TaskModel { script, position: 0, created: Seq::empty(), purpose, data }
    }
}

/// A script together with how far it has been carried out.
pub struct Task {
    script: Vec<Command>,
    position: usize,
    created: Vec<u64>,
    purpose: Purpose,
    data: Vec<u8>,
}

impl View for Task {
    type V = TaskModel;

    closed spec fn view(&self) -> TaskModel {
        TaskModel {
            script: self.script@,
            position: self.position as nat,
            created: self.created@,
            purpose: self.purpose,
            data: self.data@,
        }
    }
}

impl Task {
    /// A task that starts a script.
    pub(crate) fn new(script: Script, purpose: Purpose, data: Vec<u8>) -> (task: Task)
        requires
            script.wf(),
            creations(script@) == expected_creations(purpose),
        ensures
            task@ == TaskModel::fresh(script@, purpose, data@),
            task@.wf(),
    {
        let commands = script.into_commands();
        let task = Task { script: commands, position: 0, created: Vec::new(), purpose, data };
        assert(task@.script.take(0) =~= Seq::<Command>::empty());
        task
    }

    /// The command to perform next, or `None` at the end of the script.
    pub fn command(&self) -> (command: Option<Command>)
        requires
            self@.wf(),
        ensures
            command == (if self@.finished() {
                None::<Command>
            } else {
                Some(self@.due())
            }),
    {
        if self.position < self.script.len() {
            Some(self.script[self.position])
        } else {
            None
        }
    }

    /// Takes note of what performing the due command led to.
    pub fn advance(&mut self, event: Event) -> (result: Result<(), TaskError>)
        requires
            old(self)@.wf(),
        ensures
            final(self)@.wf(),
            result == (if old(self)@.finished() {
                Err::<(), TaskError>(TaskError::Finished)
            } else if !old(self)@.accepts(event) {
                Err(TaskError::UnexpectedEvent)
            } else {
                Ok(())
            }),
            final(self)@ == (if result is Ok {
                old(self)@.after(event)
            } else {
                old(self)@
            }),
    {
        if self.position >= self.script.len() {
            return Err(TaskError::Finished);
        }
        let creates = self.script[self.position].creates_object();
        proof {
            let model = self@;
            let done = model.script.take(model.position as int);
            assert(model.script.take(model.position as int + 1) =~= done.push(model.due()));
            lemma_creations_push(done, model.due());
        }
        match event {
            Event::Created(raw) => {
                if !creates {
                    return Err(TaskError::UnexpectedEvent);
                }
                self.created.push(raw);
            },
            Event::Done => {
                if creates {
                    return Err(TaskError::UnexpectedEvent);
                }
            },
        }
        self.position = self.position + 1;
        Ok(())
    }

    /// Whether every command has been performed.
    pub fn is_finished(&self) -> (r: bool)
        requires
            self@.wf(),
        ensures
            r == self@.finished(),
    {
        self.position == self.script.len()
    }

    /// The device's handle of an object that a command names, or `None` where
    /// it has not been created yet.
    pub fn handle(&self, handle: Handle) -> (raw: Option<u64>)
        ensures
            raw == (match handle {
                Handle::Known(_) => Some(resolve(handle, self@.created)),
                Handle::Created(number) => if number < self@.created.len() {
                    Some(resolve(handle, self@.created))
                } else {
                    None
                },
            }),
    {
        match handle {
            Handle::Known(raw) => Some(raw),
            Handle::Created(number) => {
                if number < self.created.len() {
                    Some(self.created[number])
                } else {
                    None
                }
            },
        }
    }

    /// What the script is for.
    pub fn purpose(&self) -> (purpose: Purpose)
        ensures
            purpose == self@.purpose,
    {
        self.purpose
    }

    /// The bytes that the script's `WriteData` copies.
    pub fn data(&self) -> (data: &Vec<u8>)
        ensures
            data@ == self@.data,
    {
        &self.data
    }

    /// The handles of the objects created so far, in order.
    pub fn created(&self) -> (created: &Vec<u64>)
        ensures
            created@ == self@.created,
    {
        &self.created
    }
}

/// When a command of a task is due, every object it names has been created, so
/// each can be resolved to the device's handle.
pub proof fn law_due_command_in_scope(task: TaskModel)
    requires
        task.wf(),
        !task.finished(),
    ensures
        task.due().in_scope(task.created.len()),
{
}

/// A finished task has a handle for each object that its purpose calls for.
pub proof fn law_finished_task_has_all_handles(task: TaskModel)
    requires
        task.wf(),
        task.finished(),
    ensures
        task.created.len() == expected_creations(task.purpose),
{
    assert(task.script.take(task.position as int) =~= task.script);
}

/// A script starts at its first command, with nothing created.
pub proof fn law_fresh_task_is_at_its_first_command(
    script: Seq<Command>,
    purpose: Purpose,
    data: Seq<u8>,
)
    ensures
        ({
            let task = TaskModel::fresh(script, purpose, data);
            &&& task.script == script
            &&& task.purpose == purpose
            &&& task.data == data
            &&& task.created.len() == 0
            &&& task.finished() <==> script.len() == 0
            &&& script.len() > 0 ==> task.due() == script[0]
        }),
{
}

/// Commands are due one after the other, each once, until there is none left;
/// what the script is for and what it copies stay the same.
pub proof fn law_commands_are_due_in_order(task: TaskModel, event: Event)
    requires
        task.wf(),
        !task.finished(),
    ensures
        ({
            let next = task.after(event);
            &&& task.due() == task.script[task.position as int]
            &&& next.position == task.position + 1
            &&& next.script == task.script
            &&& next.purpose == task.purpose
            &&& next.data == task.data
            &&& next.finished() <==> task.position + 1 == task.script.len()
        }),
{
}

/// A handle is taken exactly where the due command creates an object. It is then
/// the handle of that object, and those of earlier objects stay as they are.
pub proof fn law_reported_handle_is_that_of_the_object(task: TaskModel, raw: u64, known: u64)
    requires
        task.wf(),
        !task.finished(),
        task.created.len() < usize::MAX,
    ensures
        task.accepts(Event::Created(raw)) <==> task.due().creates() is Some,
        task.accepts(Event::Done) <==> task.due().creates() is None,
        resolve(
            Handle::Created(task.created.len() as usize),
            task.after(Event::Created(raw)).created,
        ) == raw,
        forall|number: usize|
            number < task.created.len() ==> #[trigger] resolve(
                Handle::Created(number),
                task.after(Event::Created(raw)).created,
            ) == task.created[number as int],
        task.after(Event::Done).created == task.created,
        resolve(Handle::Known(known), task.created) == known,
{
}

} // verus!
