//! Of the parts of a frame, and what leads from one to the next.
use vstd::prelude::*;

use crate::command::{Command, Handle};
use crate::integration::IntegrationModel;
use crate::integration::draw::{draw_error, primitives_commands};
use crate::integration::paint::{
    next_error, next_job, next_model, resume_error, resumed_job, resumed_model, JobModel,
    PaintError, PaintRequest, Stage,
};
use crate::integration::release::{free_script, tables_without};
use crate::integration::upload::{upload_error, upload_finished, upload_started, upload_task};
use crate::task::{Event, Purpose, TaskError};

verus! {

/// A frame goes on after so many updates unless the next update is refused or,
/// where there is none, its meshes cannot be recorded; and that is its error.
pub proof fn law_frame_goes_on_unless_refused(
    model: IntegrationModel,
    request: PaintRequest,
    n: nat,
)
    ensures
        n < request.updates@.len() ==> next_error(model, request, n) == (match upload_error(
            model,
            request.updates@[n as int].id,
            request.updates@[n as int].delta,
        ) {
            Some(error) => Some(PaintError::Upload(error)),
            None => None,
        }),
        n >= request.updates@.len() ==> next_error(model, request, n) == (match draw_error(
            model,
            request.image_index,
            request.primitives@,
        ) {
            Some(error) => Some(PaintError::Draw(error)),
            None => None,
        }),
{
}

/// A frame without updates records its meshes at once, on the swapchain image
/// that was asked for. It tells the vertex shader the size in points: the width
/// at the start, and the height four bytes behind it.
pub proof fn law_frame_without_updates_is_recorded_at_once(
    model: IntegrationModel,
    request: PaintRequest,
)
    requires
        request.updates@.len() == 0,
    ensures
        ({
            let job = next_job(model, request, 0, Seq::empty());
            &&& next_model(model, request, 0) == model
            &&& job.request == request
            &&& job.stage is Record
            &&& job.task.position == 0
            &&& job.task.created.len() == 0
            &&& job.task.data.len() == 0
            &&& job.task.purpose is Plain
            &&& job.task.script.len() >= 6
            &&& job.task.script[0] == Command::BindPipeline { pipeline: Handle::Known(model.pipeline) }
            &&& job.task.script[1] == Command::BindVertexBuffer {
                buffer: Handle::Known(model.vertex_buffers[request.image_index as int]),
            }
            &&& job.task.script[2] == Command::BindIndexBuffer {
                buffer: Handle::Known(model.index_buffers[request.image_index as int]),
            }
            &&& job.task.script[3] == Command::SetViewport {
                width: model.physical_width,
                height: model.physical_height,
            }
            &&& job.task.script[4] == Command::PushConstants {
                layout: Handle::Known(model.pipeline_layout),
                offset: 0,
                word: request.width_points,
            }
            &&& job.task.script[5] == Command::PushConstants {
                layout: Handle::Known(model.pipeline_layout),
                offset: 4,
                word: request.height_points,
            }
            &&& job.task.script.skip(6) =~= primitives_commands(
                model,
                request.image_index,
                request.primitives@,
                request.primitives@.len(),
            )
        }),
{
}

/// A frame with updates starts with the first of them.
pub proof fn law_frame_starts_with_its_first_update(
    model: IntegrationModel,
    request: PaintRequest,
)
    requires
        request.updates@.len() > 0,
    ensures
        ({
            let job = next_job(model, request, 0, Seq::empty());
            let first = request.updates@[0];
            &&& next_model(model, request, 0) == upload_started(model, first.id, first.delta)
            &&& job.request == request
            &&& job.stage is Upload
            &&& job.started == 1
            &&& job.task == upload_task(model, first.id, first.delta)
        }),
{
}

/// An event within a part of a frame is one step on in its script, and changes
/// nothing else.
pub proof fn law_event_is_one_step_on(model: IntegrationModel, job: JobModel, event: Event)
    requires
        !job.task.finished(),
        job.task.accepts(event),
        job.task.position + 1 < job.task.script.len(),
    ensures
        resumed_model(model, job, event) == model,
        resume_error(model, job, event) is None,
        ({
            let after = resumed_job(model, job, event);
            &&& after.request == job.request
            &&& after.stage == job.stage
            &&& after.started == job.started
            &&& after.task.script == job.task.script
            &&& after.task.data == job.task.data
            &&& after.task.purpose == job.task.purpose
            &&& after.task.position == job.task.position + 1
            &&& after.task.created == (match event {
                Event::Created(raw) => job.task.created.push(raw),
                Event::Done => job.task.created,
            })
        }),
{
}

/// An event that a frame does not wait for is refused, and changes nothing.
pub proof fn law_unexpected_events_change_nothing(
    model: IntegrationModel,
    job: JobModel,
    event: Event,
)
    requires
        job.task.finished() || (event is Created) != (job.task.due().creates() is Some),
    ensures
        resumed_model(model, job, event) == model,
        resumed_job(model, job, event) == job,
        resume_error(model, job, event) == Some(
            PaintError::Task(
                if job.task.position == job.task.script.len() {
                    TaskError::Finished
                } else {
                    TaskError::UnexpectedEvent
                },
            ),
        ),
{
}

/// The event is the last one of the part that a frame is at.
pub open spec fn completes_part(job: JobModel, event: Event) -> bool {
    &&& job.task.position + 1 == job.task.script.len()
    &&& (event is Created) == (job.task.script[job.task.position as int].creates() is Some)
}

/// When an update of a frame is done, its objects are kept and the next update
/// is started.
pub proof fn law_update_follows_update(
    model: IntegrationModel,
    job: JobModel,
    event: Event,
    handles: Seq<u64>,
)
    requires
        completes_part(job, event),
        job.stage is Upload,
        0 < job.started < job.request.updates@.len(),
        job.task.purpose is Upload,
        handles == (match event {
            Event::Created(raw) => job.task.created.push(raw),
            Event::Done => job.task.created,
        }),
    ensures
        ({
            let done = job.request.updates@[job.started - 1];
            let next = job.request.updates@[job.started as int];
            let stored = upload_finished(model, done.id, job.task.purpose->fate, handles);
            let after = resumed_job(model, job, event);
            match upload_error(stored, next.id, next.delta) {
                Some(error) => {
                    &&& resume_error(model, job, event) == Some(PaintError::Upload(error))
                    &&& resumed_model(model, job, event) == stored
                    &&& after.stage is Done
                },
                None => {
                    &&& resume_error(model, job, event) is None
                    &&& resumed_model(model, job, event) == upload_started(
                        stored,
                        next.id,
                        next.delta,
                    )
                    &&& after.request == job.request
                    &&& after.stage is Upload
                    &&& after.started == job.started + 1
                    &&& after.task == upload_task(stored, next.id, next.delta)
                },
            }
        }),
{
}

/// When the last update of a frame is done, its objects are kept and the meshes
/// are recorded, on the swapchain image that was asked for. The vertex shader is
/// told the size in points: the width at the start, and the height four bytes
/// behind it.
pub proof fn law_meshes_follow_the_last_update(
    model: IntegrationModel,
    job: JobModel,
    event: Event,
    handles: Seq<u64>,
)
    requires
        completes_part(job, event),
        job.stage is Upload,
        0 < job.started == job.request.updates@.len(),
        job.task.purpose is Upload,
        handles == (match event {
            Event::Created(raw) => job.task.created.push(raw),
            Event::Done => job.task.created,
        }),
    ensures
        ({
            let request = job.request;
            let done = request.updates@[job.started - 1];
            let stored = upload_finished(model, done.id, job.task.purpose->fate, handles);
            let after = resumed_job(model, job, event);
            &&& resumed_model(model, job, event) == stored
            &&& after.request == request
            &&& match draw_error(stored, request.image_index, request.primitives@) {
                Some(error) => {
                    &&& resume_error(model, job, event) == Some(PaintError::Draw(error))
                    &&& after.stage is Done
                },
                None => {
                    &&& resume_error(model, job, event) is None
                    &&& after.stage is Record
                    &&& after.task.position == 0
                    &&& after.task.purpose == Purpose::Plain
                    &&& records_request(stored, request, after.task.script)
                },
            }
        }),
{
}

/// The script records the meshes of a request.
pub open spec fn records_request(
    model: IntegrationModel,
    request: PaintRequest,
    script: Seq<Command>,
) -> bool {
    &&& script.len() >= 6
    &&& script[0] == Command::BindPipeline { pipeline: Handle::Known(model.pipeline) }
    &&& script[1] == Command::BindVertexBuffer {
        buffer: Handle::Known(model.vertex_buffers[request.image_index as int]),
    }
    &&& script[2] == Command::BindIndexBuffer {
        buffer: Handle::Known(model.index_buffers[request.image_index as int]),
    }
    &&& script[3] == Command::SetViewport {
        width: model.physical_width,
        height: model.physical_height,
    }
    &&& script[4] == Command::PushConstants {
        layout: Handle::Known(model.pipeline_layout),
        offset: 0,
        word: request.width_points,
    }
    &&& script[5] == Command::PushConstants {
        layout: Handle::Known(model.pipeline_layout),
        offset: 4,
        word: request.height_points,
    }
    &&& script.skip(6) =~= primitives_commands(
        model,
        request.image_index,
        request.primitives@,
        request.primitives@.len(),
    )
}

/// When the meshes of a frame are recorded, the textures that it gives up leave
/// the tables, and what the tables held of them is released. Without any the
/// frame is done.
pub proof fn law_release_follows_the_meshes(
    model: IntegrationModel,
    job: JobModel,
    event: Event,
)
    requires
        completes_part(job, event),
        job.stage is Record,
    ensures
        ({
            let free = job.request.free@;
            let after = resumed_job(model, job, event);
            &&& resume_error(model, job, event) is None
            &&& resumed_model(model, job, event) == (IntegrationModel {
                textures: tables_without(model.textures, free, free.len()),
                ..model
            })
            &&& after.request == job.request
            &&& after.task.script == free_script(model.textures, free, free.len())
            &&& after.task.position == 0
            &&& after.stage == (if after.task.script.len() == 0 {
                Stage::Done
            } else {
                Stage::Release
            })
        }),
{
}

/// When what a frame gives up is released, it is done.
pub proof fn law_frame_ends_with_the_release(
    model: IntegrationModel,
    job: JobModel,
    event: Event,
)
    requires
        completes_part(job, event),
        job.stage is Release,
    ensures
        resume_error(model, job, event) is None,
        resumed_model(model, job, event) == model,
        resumed_job(model, job, event).stage is Done,
        resumed_job(model, job, event).task.finished(),
{
}

} // verus!
