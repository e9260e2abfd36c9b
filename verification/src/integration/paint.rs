//! Painting a frame: first the textures that changed are uploaded, then the
//! meshes are recorded, then the textures that are no longer needed are given
//! up.
use vstd::prelude::*;

use crate::command::{resolve, Command, Handle};
use crate::config::Extent;
use crate::integration::{Integration, IntegrationModel};
use crate::integration::draw::{draw_error, draw_script, DrawError, Primitive};
use crate::integration::release::{free_script, tables_without};
use crate::integration::upload::{
    delta_extent, upload_error, upload_finished, upload_started, upload_task, UploadError,
};
use crate::tables::{law_tables_stay_consistent, TextureModel};
use crate::task::{Event, Purpose, Task, TaskError, TaskModel};
use crate::texture::{ImageDelta, TextureKey};

verus! {

/// A texture and the change to it.
pub struct TextureUpdate {
    pub id: TextureKey,
    pub delta: ImageDelta,
}

/// What to paint.
pub struct PaintRequest {
    /// The swapchain image to paint on.
    pub image_index: usize,
    /// The width of the screen in points, as the bits of a 32-bit float.
    pub width_points: u32,
    /// The height of the screen in points, as the bits of a 32-bit float.
    pub height_points: u32,
    pub primitives: Vec<Primitive>,
    /// The textures that change before the frame.
    pub updates: Vec<TextureUpdate>,
    /// The textures that are not needed after the frame.
    pub free: Vec<TextureKey>,
}

/// What a paint job is at.
#[derive(Clone, Copy, Debug, PartialEq, Eq, Structural)]
pub enum Stage {
    /// Bringing a texture to the device.
    Upload,
    /// Recording the meshes.
    Record,
    /// Giving up textures.
    Release,
    /// Nothing is left to do.
    Done,
}

#[derive(Clone, Copy, Debug, PartialEq, Eq, Structural)]
pub enum PaintError {
    /// A texture could not be uploaded.
    Upload(UploadError),
    /// The meshes could not be recorded.
    Draw(DrawError),
    /// The event was not one that the job waited for.
    Task(TaskError),
}

/// A paint job as a mathematical value.
pub struct JobModel {
    pub request: PaintRequest,
    pub stage: Stage,
    /// How many updates have been started.
    pub started: nat,
    pub task: TaskModel,
    /// For each update that was finished, the handles of its creations.
    pub replies: Seq<Seq<u64>>,
}

/// A frame being painted.
pub struct PaintJob {
    request: PaintRequest,
    stage: Stage,
    started: usize,
    task: Task,
    replies: Ghost<Seq<Seq<u64>>>,
}

impl View for PaintJob {
    type V = JobModel;

    closed spec fn view(&self) -> JobModel {
        JobModel {
            request: self.request,
            stage: self.stage,
            started: self.started as nat,
            task: self.task@,
            replies: self.replies@,
        }
    }
}

/// The task that records the meshes of a request.
pub open spec fn record_task(model: IntegrationModel, request: PaintRequest) -> TaskModel {
    TaskModel::fresh(
        draw_script(
            model,
            request.image_index,
            request.width_points,
            request.height_points,
            request.primitives@,
        ),
        Purpose::Plain,
        Seq::empty(),
    )
}

/// The task that gives up the textures of a request.
pub open spec fn release_task(model: IntegrationModel, request: PaintRequest) -> TaskModel {
    TaskModel::fresh(
        free_script(model.textures, request.free@, request.free@.len()),
        Purpose::Plain,
        Seq::empty(),
    )
}

/// The renderer without the textures that a request gives up.
pub open spec fn released(model: IntegrationModel, request: PaintRequest) -> IntegrationModel {
    IntegrationModel {
        textures: tables_without(model.textures, request.free@, request.free@.len()),
        ..model
    }
}

/// Why the job cannot go on after the first `n` updates.
pub open spec fn next_error(
    model: IntegrationModel,
    request: PaintRequest,
    n: nat,
) -> Option<PaintError> {
    if n < request.updates@.len() {
        let update = request.updates@[n as int];
        match upload_error(model, update.id, update.delta) {
            Some(error) => Some(PaintError::Upload(error)),
            None => None,
        }
    } else {
        match draw_error(model, request.image_index, request.primitives@) {
            Some(error) => Some(PaintError::Draw(error)),
            None => None,
        }
    }
}

/// The renderer once the job went on after the first `n` updates.
pub open spec fn next_model(
    model: IntegrationModel,
    request: PaintRequest,
    n: nat,
) -> IntegrationModel {
    if n < request.updates@.len() {
        upload_started(model, request.updates@[n as int].id, request.updates@[n as int].delta)
    } else {
        model
    }
}

/// The job once it went on after the first `n` updates, which led to these
/// replies: at the next update, or at the meshes where there is none.
pub open spec fn next_job(
    model: IntegrationModel,
    request: PaintRequest,
    n: nat,
    replies: Seq<Seq<u64>>,
) -> JobModel {
    if n < request.updates@.len() {
        let update = request.updates@[n as int];
        JobModel {
            request,
            stage: Stage::Upload,
            started: n + 1,
            task: upload_task(model, update.id, update.delta),
            replies,
        }
    } else {
        JobModel {
            request,
            stage: Stage::Record,
            started: n,
            task: record_task(model, request),
            replies,
        }
    }
}

impl JobModel {
    /// The update that is being uploaded.
    pub open spec fn current(self) -> TextureUpdate {
        self.request.updates@[self.started - 1]
    }

    /// The job fits the renderer that it is carried out on, and has a command
    /// that is due unless it is done.
    pub open spec fn in_step(self, model: IntegrationModel) -> bool {
        &&& model.wf()
        &&& self.task.wf()
        &&& self.stage is Done <==> self.task.finished()
        &&& self.stage is Upload ==> {
            &&& 0 < self.started <= self.request.updates@.len()
            &&& self.replies.len() == self.started - 1
            &&& self.task.purpose is Upload
            &&& self.task.purpose->id == self.current().id
            &&& model.textures.extents.contains_key(self.current().id)
        }
    }
}

/// The renderer after an event on a job.
pub open spec fn resumed_model(
    model: IntegrationModel,
    job: JobModel,
    event: Event,
) -> IntegrationModel {
    let task = job.task.after(event);
    if job.task.finished() || !job.task.accepts(event) || !task.finished() {
        model
    } else {
        match job.stage {
            Stage::Upload => {
                let stored = upload_finished(
                    model,
                    job.current().id,
                    task.purpose->fate,
                    task.created,
                );
                if next_error(stored, job.request, job.started) is None {
                    next_model(stored, job.request, job.started)
                } else {
                    stored
                }
            },
            Stage::Record => released(model, job.request),
            Stage::Release => model,
            Stage::Done => model,
        }
    }
}

/// The job after an event on it.
pub open spec fn resumed_job(model: IntegrationModel, job: JobModel, event: Event) -> JobModel {
    let task = job.task.after(event);
    if job.task.finished() || !job.task.accepts(event) {
        job
    } else if !task.finished() {
        JobModel { task, ..job }
    } else {
        match job.stage {
            Stage::Upload => {
                let stored = upload_finished(
                    model,
                    job.current().id,
                    task.purpose->fate,
                    task.created,
                );
                let replies = job.replies.push(task.created);
                if next_error(stored, job.request, job.started) is None {
                    next_job(stored, job.request, job.started, replies)
                } else {
                    JobModel { task, replies, stage: Stage::Done, ..job }
                }
            },
            Stage::Record => {
                let release = release_task(model, job.request);
                JobModel {
                    task: release,
                    stage: if release.finished() {
                        Stage::Done
                    } else {
                        Stage::Release
                    },
                    ..job
                }
            },
            Stage::Release => JobModel { task, stage: Stage::Done, ..job },
            Stage::Done => job,
        }
    }
}

/// Why an event on a job is an error.
pub open spec fn resume_error(
    model: IntegrationModel,
    job: JobModel,
    event: Event,
) -> Option<PaintError> {
    let task = job.task.after(event);
    if job.task.finished() {
        Some(PaintError::Task(TaskError::Finished))
    } else if !job.task.accepts(event) {
        Some(PaintError::Task(TaskError::UnexpectedEvent))
    } else if task.finished() && job.stage is Upload {
        next_error(
            upload_finished(model, job.current().id, task.purpose->fate, task.created),
            job.request,
            job.started,
        )
    } else {
        None
    }
}

impl PaintJob {
    /// What the job is at.
    pub fn stage(&self) -> (stage: Stage)
        ensures
            stage == self@.stage,
    {
        self.stage
    }

    /// The command to perform next, or `None` when the job is done.
    pub fn command(&self) -> (command: Option<Command>)
        requires
            self@.task.wf(),
        ensures
            command == (if self@.task.finished() {
                None::<Command>
            } else {
                Some(self@.task.due())
            }),
    {
        self.task.command()
    }

    /// The device's handle of an object that a command names, or `None` where
    /// it has not been created yet.
    pub fn handle(&self, handle: Handle) -> (raw: Option<u64>)
        ensures
            raw == (match handle {
                Handle::Known(_) => Some(resolve(handle, self@.task.created)),
                Handle::Created(number) => if number < self@.task.created.len() {
                    Some(resolve(handle, self@.task.created))
                } else {
                    None
                },
            }),
    {
        self.task.handle(handle)
    }

    /// The bytes that `WriteData` copies.
    pub fn data(&self) -> (data: &Vec<u8>)
        ensures
            data@ == self@.task.data,
    {
        self.task.data()
    }
}

impl Integration {
    /// Starts to paint a frame.
    pub fn paint(&mut self, request: PaintRequest) -> (result: Result<PaintJob, PaintError>)
        requires
            old(self)@.wf(),
        ensures
            match next_error(old(self)@, request, 0) {
                Some(error) => result == Err::<PaintJob, PaintError>(error) && final(self)@ == old(
                    self,
                )@,
                None => {
                    &&& result is Ok
                    &&& result->Ok_0@ == next_job(old(self)@, request, 0, Seq::empty())
                    &&& final(self)@ == next_model(old(self)@, request, 0)
                    &&& result->Ok_0@.in_step(final(self)@)
                    &&& request.updates@.len() == 0 ==> {
                        &&& result->Ok_0@.task.script[4] == Command::PushConstants {
                            layout: Handle::Known(old(self)@.pipeline_layout),
                            offset: 0,
                            word: request.width_points,
                        }
                        &&& result->Ok_0@.task.script[5] == Command::PushConstants {
                            layout: Handle::Known(old(self)@.pipeline_layout),
                            offset: 4,
                            word: request.height_points,
                        }
                    }
                },
            },
    {
        match self.go_on(&request, 0) {
            Ok((stage, started, task)) => Ok(
                PaintJob { request, stage, started, task, replies: Ghost(Seq::empty()) },
            ),
            Err(error) => Err(error),
        }
    }

    /// Takes note of what performing the job's command led to. Where a later
    /// part of the job turns out to be impossible, that is the error, and the
    /// job is over.
    pub fn resume_paint(&mut self, job: &mut PaintJob, event: Event) -> (result: Result<
        (),
        PaintError,
    >)
        requires
            old(job)@.in_step(old(self)@),
        ensures
            final(job)@.in_step(final(self)@),
            final(self)@ == resumed_model(old(self)@, old(job)@, event),
            final(job)@ == resumed_job(old(self)@, old(job)@, event),
            result == (match resume_error(old(self)@, old(job)@, event) {
                Some(error) => Err::<(), PaintError>(error),
                None => Ok(()),
            }),
            old(job)@.stage is Upload && final(job)@.stage is Record ==> {
                &&& final(job)@.task.script[4] == Command::PushConstants {
                    layout: Handle::Known(final(self)@.pipeline_layout),
                    offset: 0,
                    word: old(job)@.request.width_points,
                }
                &&& final(job)@.task.script[5] == Command::PushConstants {
                    layout: Handle::Known(final(self)@.pipeline_layout),
                    offset: 4,
                    word: old(job)@.request.height_points,
                }
            },
    {
        match job.task.advance(event) {
            Err(error) => {
                return Err(PaintError::Task(error));
            },
            Ok(()) => {},
        }
        if !job.task.is_finished() {
            return Ok(());
        }
        match job.stage {
            Stage::Upload => {
                let ghost model = self@;
                let ghost update = job@.current();
                let _ = self.finish_update_texture(&job.task);
                proof {
                    let created = job.task@.created;
                    assert(model.textures.extents.insert(
                        update.id,
                        model.textures.extents[update.id],
                    ) =~= model.textures.extents);
                    law_tables_stay_consistent(
                        model.textures,
                        update.id,
                        model.textures.extents[update.id],
                        created[5],
                        created[6],
                        created[7],
                        created[8],
                    );
                    assert(self@.wf());
                }
                job.replies = Ghost(job.replies@.push(job.task@.created));
                match self.go_on(&job.request, job.started) {
                    Ok((stage, started, task)) => {
                        job.stage = stage;
                        job.started = started;
                        job.task = task;
                        Ok(())
                    },
                    Err(error) => {
                        job.stage = Stage::Done;
                        Err(error)
                    },
                }
            },
            Stage::Record => {
                proof {
                    lemma_tables_without_consistent(
                        self@.textures,
                        job@.request.free@,
                        job@.request.free@.len(),
                    );
                }
                let task = self.free_textures(&job.request.free);
                job.stage = if task.is_finished() {
                    Stage::Done
                } else {
                    Stage::Release
                };
                job.task = task;
                Ok(())
            },
            Stage::Release => {
                job.stage = Stage::Done;
                Ok(())
            },
            Stage::Done => Ok(()),
        }
    }

    /// Starts what comes after the first `n` updates.
    fn go_on(&mut self, request: &PaintRequest, n: usize) -> (result: Result<
        (Stage, usize, Task),
        PaintError,
    >)
        requires
            old(self)@.wf(),
            n <= request.updates@.len(),
        ensures
            match next_error(old(self)@, *request, n as nat) {
                Some(error) => {
                    &&& result == Err::<(Stage, usize, Task), PaintError>(error)
                    &&& final(self)@ == old(self)@
                },
                None => {
                    let next = next_job(old(self)@, *request, n as nat, Seq::empty());
                    &&& result is Ok
                    &&& result->Ok_0.0 == next.stage
                    &&& result->Ok_0.1 == next.started
                    &&& result->Ok_0.2@ == next.task
                    &&& next.task.wf()
                    &&& !next.task.finished()
                    &&& final(self)@ == next_model(old(self)@, *request, n as nat)
                    &&& final(self)@.wf()
                },
            },
    {
        if n < request.updates.len() {
            let update = &request.updates[n];
            proof {
                law_tables_stay_consistent(
                    self@.textures,
                    update.id,
                    delta_extent(update.delta),
                    0,
                    0,
                    0,
                    0,
                );
            }
            match self.update_texture(update.id, &update.delta) {
                Ok(task) => Ok((Stage::Upload, n + 1, task)),
                Err(error) => Err(PaintError::Upload(error)),
            }
        } else {
            match self.record(
                request.image_index,
                request.width_points,
                request.height_points,
                &request.primitives,
            ) {
                Ok(task) => Ok((Stage::Record, n, task)),
                Err(error) => Err(PaintError::Draw(error)),
            }
        }
    }
}

/// Giving textures up keeps the tables in step with each other.
pub proof fn lemma_tables_without_consistent(
    tables: TextureModel,
    keys: Seq<TextureKey>,
    n: nat,
)
    requires
        tables.consistent(),
        n <= keys.len(),
    ensures
        tables_without(tables, keys, n).consistent(),
    decreases n,
{
    if n > 0 {
        lemma_tables_without_consistent(tables, keys, (n - 1) as nat);
        law_tables_stay_consistent(
            tables_without(tables, keys, (n - 1) as nat),
            keys[n - 1],
            Extent { width: 0, height: 0, depth: 0 },
            0,
            0,
            0,
            0,
        );
    }
}

} // verus!
