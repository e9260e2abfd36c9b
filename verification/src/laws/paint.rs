//! Of painting whole frames.
use vstd::prelude::*;

use crate::command::{Handle, Object, ObjectKind};
use crate::integration::IntegrationModel;
use crate::integration::draw::{draw_error, verdict, MeshInfo, Primitive};
use crate::integration::paint::{
    next_error, next_job, next_model, record_task, release_task, released, resume_error,
    resumed_job, resumed_model, JobModel, PaintRequest, Stage, TextureUpdate,
};
use crate::integration::release::{free_commands, free_script, tables_without};
use crate::integration::upload::{
    upload_error, upload_fate, upload_finished, upload_started, upload_task,
};
use crate::laws::balance::lemma_upload_creations;
use crate::script::{creations, lemma_creations_push, lemma_releases_add, releases};
use crate::tables::{lookup, TextureModel};
use crate::task::{expected_creations, Event};
use crate::texture::TextureKey;

verus! {

/// The renderer after the first `n` updates, which led to these handles.
pub open spec fn uploads_applied(
    model: IntegrationModel,
    updates: Seq<TextureUpdate>,
    replies: Seq<Seq<u64>>,
    n: nat,
) -> IntegrationModel
    decreases n,
{
    if n == 0 {
        model
    } else {
        let before = uploads_applied(model, updates, replies, (n - 1) as nat);
        let update = updates[n - 1];
        upload_finished(
            upload_started(before, update.id, update.delta),
            update.id,
            upload_fate(before, update.id, update.delta),
            replies[n - 1],
        )
    }
}

/// The renderer after a job with this request has led to these handles.
pub open spec fn painted(
    model: IntegrationModel,
    request: PaintRequest,
    replies: Seq<Seq<u64>>,
) -> IntegrationModel {
    released(
        uploads_applied(model, request.updates@, replies, request.updates@.len()),
        request,
    )
}

/// The renderer and the job after a run of events on a job.
pub open spec fn after_events(
    model: IntegrationModel,
    job: JobModel,
    events: Seq<Event>,
) -> (IntegrationModel, JobModel)
    decreases events.len(),
{
    if events.len() == 0 {
        (model, job)
    } else {
        let before = after_events(model, job, events.drop_last());
        (
            resumed_model(before.0, before.1, events.last()),
            resumed_job(before.0, before.1, events.last()),
        )
    }
}

/// No event of the run is an error.
pub open spec fn runs_without_error(
    model: IntegrationModel,
    job: JobModel,
    events: Seq<Event>,
) -> bool
    decreases events.len(),
{
    events.len() == 0 || {
        let before = after_events(model, job, events.drop_last());
        &&& runs_without_error(model, job, events.drop_last())
        &&& resume_error(before.0, before.1, events.last()) is None
    }
}

/// The update with this index was not refused, and the device created all that
/// it should.
pub open spec fn update_succeeded(
    start: IntegrationModel,
    updates: Seq<TextureUpdate>,
    replies: Seq<Seq<u64>>,
    i: nat,
) -> bool {
    let before = uploads_applied(start, updates, replies, i);
    let update = updates[i as int];
    &&& upload_error(before, update.id, update.delta) is None
    &&& replies[i as int].len() == expected_creations(
        upload_task(before, update.id, update.delta).purpose,
    )
}

/// Every update that led to a reply succeeded.
pub open spec fn updates_succeeded(
    start: IntegrationModel,
    updates: Seq<TextureUpdate>,
    replies: Seq<Seq<u64>>,
) -> bool {
    forall|i: nat| i < replies.len() ==> #[trigger] update_succeeded(start, updates, replies, i)
}

/// The meshes of a request can be recorded once its updates are applied.
pub open spec fn meshes_succeed(
    start: IntegrationModel,
    request: PaintRequest,
    replies: Seq<Seq<u64>>,
) -> bool {
    let before = uploads_applied(start, request.updates@, replies, request.updates@.len());
    draw_error(before, request.image_index, request.primitives@) is None
}

/// What a job has brought about so far: the renderer is the one it started on
/// with the updates applied that are finished, none of which was refused, and
/// the job waits for what comes next.
pub open spec fn job_on_course(
    start: IntegrationModel,
    request: PaintRequest,
    model: IntegrationModel,
    job: JobModel,
) -> bool {
    let updates = request.updates@;
    &&& job.request == request
    &&& updates_succeeded(start, updates, job.replies)
    &&& job.stage is Upload || meshes_succeed(start, request, job.replies)
    &&& match job.stage {
        Stage::Upload => {
            let before = uploads_applied(start, updates, job.replies, (job.started - 1) as nat);
            &&& 0 < job.started <= updates.len()
            &&& job.replies.len() == job.started - 1
            &&& upload_error(before, job.current().id, job.current().delta) is None
            &&& job.task.position <= job.task.script.len()
            &&& job.task.created.len() == creations(
                job.task.script.take(job.task.position as int),
            )
            &&& model == upload_started(before, job.current().id, job.current().delta)
            &&& job.task.script == upload_task(
                before,
                job.current().id,
                job.current().delta,
            ).script
            &&& job.task.purpose == upload_task(
                before,
                job.current().id,
                job.current().delta,
            ).purpose
        },
        Stage::Record => {
            &&& job.replies.len() == updates.len()
            &&& model == uploads_applied(start, updates, job.replies, updates.len())
            &&& job.task.script == record_task(model, request).script
        },
        Stage::Release => {
            let before = uploads_applied(start, updates, job.replies, updates.len());
            &&& job.replies.len() == updates.len()
            &&& model == painted(start, request, job.replies)
            &&& job.task.script == release_task(before, request).script
        },
        Stage::Done => {
            &&& job.replies.len() == updates.len()
            &&& model == painted(start, request, job.replies)
        },
    }
}

proof fn lemma_more_replies(
    model: IntegrationModel,
    updates: Seq<TextureUpdate>,
    replies: Seq<Seq<u64>>,
    more: Seq<u64>,
    n: nat,
)
    requires
        n <= replies.len(),
    ensures
        uploads_applied(model, updates, replies.push(more), n) == uploads_applied(
            model,
            updates,
            replies,
            n,
        ),
    decreases n,
{
    if n > 0 {
        lemma_more_replies(model, updates, replies, more, (n - 1) as nat);
        assert(replies.push(more)[n - 1] == replies[n - 1]);
    }
}

/// A job that starts is on course.
proof fn lemma_start_on_course(start: IntegrationModel, request: PaintRequest)
    requires
        next_error(start, request, 0) is None,
    ensures
        job_on_course(
            start,
            request,
            next_model(start, request, 0),
            next_job(start, request, 0, Seq::empty()),
        ),
{
    let job = next_job(start, request, 0, Seq::empty());
    assert(job.task.script.take(0) =~= Seq::empty());
}

/// A job that is on course stays so with every event that is no error.
proof fn lemma_step_on_course(
    start: IntegrationModel,
    request: PaintRequest,
    model: IntegrationModel,
    job: JobModel,
    event: Event,
)
    requires
        job_on_course(start, request, model, job),
        resume_error(model, job, event) is None,
    ensures
        job_on_course(
            start,
            request,
            resumed_model(model, job, event),
            resumed_job(model, job, event),
        ),
{
    let task = job.task.after(event);
    if job.stage is Upload {
        let done = job.task.script.take(job.task.position as int);
        assert(task.script.take(task.position as int) =~= done.push(job.task.due()));
        lemma_creations_push(done, job.task.due());
    }
    if task.finished() && job.stage is Upload {
        let updates = request.updates@;
        let n = (job.started - 1) as nat;
        let replies = job.replies.push(task.created);
        lemma_more_replies(start, updates, job.replies, task.created, n);
        assert(replies[n as int] == task.created);
        let before = uploads_applied(start, updates, job.replies, n);
        let stored = upload_finished(model, job.current().id, task.purpose->fate, task.created);
        assert(stored == uploads_applied(start, updates, replies, job.started));
        assert(task.script.take(task.position as int) =~= task.script);
        lemma_upload_creations(before, job.current().id, job.current().delta);
        assert forall|i: nat| i < replies.len() implies #[trigger] update_succeeded(
            start,
            updates,
            replies,
            i,
        ) by {
            lemma_more_replies(start, updates, job.replies, task.created, i);
            if i < n {
                assert(update_succeeded(start, updates, job.replies, i));
                assert(replies[i as int] == job.replies[i as int]);
            }
        }
        let next = resumed_job(model, job, event);
        assert(next.task.script.take(0) =~= Seq::empty());
    }
}

/// At every point of a run without errors, the updates that are finished have
/// been applied in order and nothing else has changed; the meshes are recorded
/// when all of them are; and when the job is done, the textures to be given up
/// are gone.
pub proof fn law_paint_runs_in_order(
    start: IntegrationModel,
    request: PaintRequest,
    events: Seq<Event>,
)
    requires
        next_error(start, request, 0) is None,
        runs_without_error(
            next_model(start, request, 0),
            next_job(start, request, 0, Seq::empty()),
            events,
        ),
    ensures
        ({
            let now = after_events(
                next_model(start, request, 0),
                next_job(start, request, 0, Seq::empty()),
                events,
            );
            job_on_course(start, request, now.0, now.1)
        }),
    decreases events.len(),
{
    let model = next_model(start, request, 0);
    let job = next_job(start, request, 0, Seq::empty());
    if events.len() == 0 {
        lemma_start_on_course(start, request);
    } else {
        law_paint_runs_in_order(start, request, events.drop_last());
        let before = after_events(model, job, events.drop_last());
        lemma_step_on_course(start, request, before.0, before.1, events.last());
    }
}

/// How many parts of a job are not through yet.
pub open spec fn parts_left(job: JobModel) -> int {
    match job.stage {
        Stage::Upload => job.request.updates@.len() - job.started + 3,
        Stage::Record => 2,
        Stage::Release => 1,
        Stage::Done => 0,
    }
}

/// How many commands of its current part a job has not performed yet.
pub open spec fn commands_left(job: JobModel) -> int {
    job.task.script.len() - job.task.position
}

/// Every event that a job waits for brings it nearer to its end: there are
/// fewer parts left, or as many parts and fewer commands. So whoever performs
/// the commands comes to an end, whatever handles the device gives out.
pub proof fn law_paint_comes_to_an_end(model: IntegrationModel, job: JobModel, event: Event)
    requires
        job.in_step(model),
        !(job.stage is Done),
        job.task.accepts(event),
    ensures
        ({
            let after = resumed_job(model, job, event);
            &&& 0 <= parts_left(after)
            &&& 0 <= commands_left(after)
            &&& parts_left(after) <= parts_left(job)
            &&& parts_left(after) == parts_left(job) ==> commands_left(after) < commands_left(job)
        }),
{
}

/// A frame that was painted to the end leaves the renderer with the updates
/// applied and the textures to be given up gone.
pub proof fn law_finished_paint(
    start: IntegrationModel,
    request: PaintRequest,
    events: Seq<Event>,
)
    requires
        next_error(start, request, 0) is None,
        runs_without_error(
            next_model(start, request, 0),
            next_job(start, request, 0, Seq::empty()),
            events,
        ),
        after_events(
            next_model(start, request, 0),
            next_job(start, request, 0, Seq::empty()),
            events,
        ).1.stage is Done,
    ensures
        ({
            let now = after_events(
                next_model(start, request, 0),
                next_job(start, request, 0, Seq::empty()),
                events,
            );
            &&& now.1.replies.len() == request.updates@.len()
            &&& updates_succeeded(start, request.updates@, now.1.replies)
            &&& meshes_succeed(start, request, now.1.replies)
            &&& now.0 == painted(start, request, now.1.replies)
        }),
{
    law_paint_runs_in_order(start, request, events);
}

/// Painting changes nothing of the renderer but what its tables say of managed
/// textures.
pub proof fn law_paint_changes_only_textures(
    start: IntegrationModel,
    request: PaintRequest,
    replies: Seq<Seq<u64>>,
)
    ensures
        painted(start, request, replies) == (IntegrationModel {
            textures: painted(start, request, replies).textures,
            ..start
        }),
{
    lemma_uploads_change_only_textures(start, request.updates@, replies, request.updates@.len());
}

proof fn lemma_uploads_change_only_textures(
    model: IntegrationModel,
    updates: Seq<TextureUpdate>,
    replies: Seq<Seq<u64>>,
    n: nat,
)
    ensures
        uploads_applied(model, updates, replies, n) == (IntegrationModel {
            textures: uploads_applied(model, updates, replies, n).textures,
            ..model
        }),
    decreases n,
{
    if n > 0 {
        lemma_uploads_change_only_textures(model, updates, replies, (n - 1) as nat);
    }
}

/// A texture that an update of a frame sets as a whole can be drawn in that
/// same frame.
pub proof fn law_updated_texture_can_be_drawn(
    model: IntegrationModel,
    updates: Seq<TextureUpdate>,
    replies: Seq<Seq<u64>>,
    i: int,
    mesh: MeshInfo,
)
    requires
        0 <= i < updates.len(),
        updates[i].delta.pos is None,
        updates[i].id is Managed,
        mesh.texture == updates[i].id,
        mesh.vertex_count > 0,
        mesh.index_count > 0,
    ensures
        verdict(
            uploads_applied(model, updates, replies, updates.len()),
            Primitive::Mesh(mesh),
        ) is Draw,
{
    lemma_updated_texture_stays(model, updates, replies, i, updates.len());
}

proof fn lemma_updated_texture_stays(
    model: IntegrationModel,
    updates: Seq<TextureUpdate>,
    replies: Seq<Seq<u64>>,
    i: int,
    n: nat,
)
    requires
        0 <= i < n <= updates.len(),
        updates[i].delta.pos is None,
    ensures
        uploads_applied(model, updates, replies, n).textures.descriptor_sets.contains_key(
            updates[i].id,
        ),
    decreases n,
{
    if n > i + 1 {
        lemma_updated_texture_stays(model, updates, replies, i, (n - 1) as nat);
    }
}

/// A texture that is drawable before a frame stays drawable in it, whatever
/// the frame uploads.
pub proof fn law_uploads_lose_no_texture(
    model: IntegrationModel,
    updates: Seq<TextureUpdate>,
    replies: Seq<Seq<u64>>,
    n: nat,
    id: TextureKey,
)
    requires
        n <= updates.len(),
        model.textures.descriptor_sets.contains_key(id),
    ensures
        uploads_applied(model, updates, replies, n).textures.descriptor_sets.contains_key(id),
    decreases n,
{
    if n > 0 {
        law_uploads_lose_no_texture(model, updates, replies, (n - 1) as nat, id);
    }
}

/// A texture that is given up is in none of the tables afterwards.
pub proof fn law_freed_texture_is_gone(
    tables: TextureModel,
    keys: Seq<TextureKey>,
    n: nat,
    i: int,
)
    requires
        0 <= i < n <= keys.len(),
    ensures
        ({
            let after = tables_without(tables, keys, n);
            &&& !after.images.contains_key(keys[i])
            &&& !after.views.contains_key(keys[i])
            &&& !after.allocations.contains_key(keys[i])
            &&& !after.descriptor_sets.contains_key(keys[i])
            &&& !after.extents.contains_key(keys[i])
        }),
    decreases n,
{
    if n > i + 1 {
        law_freed_texture_is_gone(tables, keys, (n - 1) as nat, i);
    }
}

/// Giving up textures changes nothing of the others.
pub proof fn law_other_textures_stay(
    tables: TextureModel,
    keys: Seq<TextureKey>,
    n: nat,
    other: TextureKey,
)
    requires
        n <= keys.len(),
        !keys.contains(other),
    ensures
        ({
            let after = tables_without(tables, keys, n);
            &&& lookup(after.images, other) == lookup(tables.images, other)
            &&& lookup(after.views, other) == lookup(tables.views, other)
            &&& lookup(after.allocations, other) == lookup(tables.allocations, other)
            &&& lookup(after.descriptor_sets, other) == lookup(tables.descriptor_sets, other)
            &&& lookup(after.extents, other) == lookup(tables.extents, other)
        }),
    decreases n,
{
    if n > 0 {
        law_other_textures_stay(tables, keys, (n - 1) as nat, other);
        assert(keys.contains(keys[n - 1]));
    }
}

/// The image, the view and the memory of every texture that is given up are
/// released.
pub proof fn law_freed_texture_is_released(
    tables: TextureModel,
    keys: Seq<TextureKey>,
    n: nat,
    i: int,
)
    requires
        0 <= i < n <= keys.len(),
    ensures
        ({
            let script = free_script(tables, keys, n);
            &&& tables.images.contains_key(keys[i]) ==> releases(
                script,
                ObjectKind::Image,
                Handle::Known(tables.images[keys[i]]),
            )
            &&& tables.views.contains_key(keys[i]) ==> releases(
                script,
                ObjectKind::ImageView,
                Handle::Known(tables.views[keys[i]]),
            )
            &&& tables.allocations.contains_key(keys[i]) ==> releases(
                script,
                ObjectKind::Allocation,
                Handle::Known(tables.allocations[keys[i]]),
            )
        }),
    decreases n,
{
    let last = (n - 1) as nat;
    let head = free_script(tables, keys, last);
    let tail = free_commands(tables_without(tables, keys, last), keys[last as int]);
    let script = free_script(tables, keys, n);
    assert(script == head + tail);
    if exists|j: int| 0 <= j < last && keys[j] == keys[i] {
        let j = choose|j: int| 0 <= j < last && keys[j] == keys[i];
        law_freed_texture_is_released(tables, keys, last, j);
        assert forall|kind: ObjectKind, handle: Handle| #[trigger]
            releases(head, kind, handle) implies releases(script, kind, handle) by {
            lemma_releases_add(head, tail, kind, handle);
        }
    } else {
        assert(i == last);
        lemma_untouched(tables, keys, last, keys[i]);
        let here = tables_without(tables, keys, last);
        let image = lookup(here.images, keys[i]);
        let view = lookup(here.views, keys[i]);
        let allocation = lookup(here.allocations, keys[i]);
        if image is Some {
            assert(tail[0].releases() == Some(
                Object { kind: ObjectKind::Image, handle: Handle::Known(image->0) },
            ));
        }
        if view is Some {
            let at: int = if image is Some {
                1
            } else {
                0
            };
            assert(tail[at].releases() == Some(
                Object {
                    kind: ObjectKind::ImageView,
                    handle: Handle::Known(view->0),
                },
            ));
        }
        if allocation is Some {
            let at = tail.len() - 1;
            assert(tail[at].releases() == Some(
                Object {
                    kind: ObjectKind::Allocation,
                    handle: Handle::Known(allocation->0),
                },
            ));
        }
        assert forall|kind: ObjectKind, handle: Handle| #[trigger]
            releases(tail, kind, handle) implies releases(script, kind, handle) by {
            lemma_releases_add(head, tail, kind, handle);
        }
        assert(image is Some ==> releases(tail, ObjectKind::Image, Handle::Known(image->0)));
        assert(view is Some ==> releases(tail, ObjectKind::ImageView, Handle::Known(view->0)));
        assert(allocation is Some ==> releases(
            tail,
            ObjectKind::Allocation,
            Handle::Known(allocation->0),
        ));
    }
}

/// Textures that come later in the list are untouched by those before them.
pub proof fn lemma_untouched(
    tables: TextureModel,
    keys: Seq<TextureKey>,
    n: nat,
    key: TextureKey,
)
    requires
        n <= keys.len(),
        forall|j: int| 0 <= j < n ==> keys[j] != key,
    ensures
        lookup(tables_without(tables, keys, n).images, key) == lookup(tables.images, key),
        lookup(tables_without(tables, keys, n).views, key) == lookup(tables.views, key),
        lookup(tables_without(tables, keys, n).allocations, key) == lookup(
            tables.allocations,
            key,
        ),
    decreases n,
{
    if n > 0 {
        lemma_untouched(tables, keys, (n - 1) as nat, key);
    }
}

} // verus!
