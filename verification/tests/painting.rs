use egui_ash_integration::command::{Command, Handle};
use egui_ash_integration::integration::draw::{DrawError, MeshInfo, Primitive, Verdict};
use egui_ash_integration::integration::paint::{
    PaintError, PaintJob, PaintRequest, Stage, TextureUpdate,
};
use egui_ash_integration::integration::upload::UploadError;
use egui_ash_integration::integration::Integration;
use egui_ash_integration::task::{Event, Task, TaskError};
use egui_ash_integration::texture::{ImageData, ImageDelta, Rgba, TextureKey};

const FONT: TextureKey = TextureKey::Managed(0);
const ICON: TextureKey = TextureKey::Managed(1);

/// Performs a task; the objects it creates get the handles from `next` on.
fn run(task: &mut Task, next: &mut u64) -> Vec<Command> {
    let mut performed = Vec::new();
    while let Some(command) = task.command() {
        let event = if command.creates_object() {
            *next += 1;
            Event::Created(*next - 1)
        } else {
            Event::Done
        };
        assert_eq!(task.advance(event), Ok(()));
        performed.push(command);
    }
    performed
}

/// A renderer for two swapchain images: its pool is object 1, its descriptor
/// set layouts 2 and 3, its pipeline layout 4, its pipeline 7, its sampler 8,
/// the buffers of the first image and their memory 9 to 12, those of the second
/// 13 to 16, and the layout of user textures 17.
fn renderer(next: &mut u64) -> Integration {
    let mut setup = Integration::setup(2);
    *next = 1;
    run(&mut setup, next);
    assert_eq!(*next, 18);
    Integration::new(egui::Context::default(), 800, 600, 5, &setup).unwrap()
}

fn whole(pixel: u8) -> ImageDelta {
    let pixels = vec![Rgba { r: pixel, g: pixel, b: pixel, a: pixel }];
    ImageDelta { image: ImageData::Color { width: 1, height: 1, pixels }, pos: None }
}

fn broken() -> ImageDelta {
    ImageDelta { image: ImageData::Color { width: 1, height: 1, pixels: vec![] }, pos: None }
}

fn mesh(texture: TextureKey) -> Primitive {
    Primitive::Mesh(MeshInfo { texture, vertex_count: 4, index_count: 6 })
}

fn request(primitives: Vec<Primitive>, updates: Vec<TextureUpdate>) -> PaintRequest {
    PaintRequest {
        image_index: 0,
        width_points: 0,
        height_points: 0,
        primitives,
        updates,
        free: vec![],
    }
}

/// Performs the job's command and reports what came of it.
fn step(
    renderer: &mut Integration,
    job: &mut PaintJob,
    next: &mut u64,
) -> Result<(), PaintError> {
    let event = if job.command().unwrap().creates_object() {
        *next += 1;
        Event::Created(*next - 1)
    } else {
        Event::Done
    };
    renderer.resume_paint(job, event)
}

/// Performs a job to its end; each command comes with the stage it belongs to.
fn finish(
    renderer: &mut Integration,
    job: &mut PaintJob,
    next: &mut u64,
) -> Vec<(Stage, Command)> {
    let mut performed = Vec::new();
    while let Some(command) = job.command() {
        performed.push((job.stage(), command));
        assert_eq!(step(renderer, job, next), Ok(()));
    }
    performed
}

#[test]
fn a_frame_uploads_then_draws_then_frees() {
    let mut next = 0;
    let mut renderer = renderer(&mut next);
    let mut job = renderer
        .paint(PaintRequest {
            free: vec![FONT],
            ..request(
                vec![mesh(FONT), mesh(ICON)],
                vec![
                    TextureUpdate { id: FONT, delta: whole(1) },
                    TextureUpdate { id: ICON, delta: whole(2) },
                ],
            )
        })
        .unwrap();
    assert_eq!(job.stage(), Stage::Upload);
    assert_eq!(job.data(), &vec![1, 1, 1, 1]);
    let performed = finish(&mut renderer, &mut job, &mut next);
    assert_eq!(job.stage(), Stage::Done);
    let count = |stage: Stage| performed.iter().filter(|(at, _)| *at == stage).count();
    assert_eq!(count(Stage::Upload), 48);
    assert_eq!(count(Stage::Record), 16);
    assert_eq!(count(Stage::Release), 3);
    assert!(performed[..48].iter().all(|(at, _)| *at == Stage::Upload));
    assert!(performed[64..].iter().all(|(at, _)| *at == Stage::Release));
    let binds: Vec<Command> = performed
        .iter()
        .map(|(_, command)| *command)
        .filter(|command| matches!(command, Command::BindDescriptorSet { .. }))
        .collect();
    let layout = Handle::Known(4);
    assert_eq!(
        binds,
        vec![
            Command::BindDescriptorSet { layout, descriptor_set: Handle::Known(26) },
            Command::BindDescriptorSet { layout, descriptor_set: Handle::Known(35) },
        ],
    );
    assert_eq!(
        performed[64].1,
        Command::DestroyImage { image: Handle::Known(23) },
    );
    assert_eq!(
        renderer.judge(mesh(FONT)),
        Verdict::Fail(DrawError::UnknownTexture),
    );
    assert_eq!(renderer.judge(mesh(ICON)), Verdict::Draw(35));
}

#[test]
fn an_empty_frame_only_sets_up_the_state() {
    let mut next = 0;
    let mut renderer = renderer(&mut next);
    let mut job = renderer.paint(request(vec![], vec![])).unwrap();
    assert_eq!(job.stage(), Stage::Record);
    assert_eq!(finish(&mut renderer, &mut job, &mut next).len(), 6);
    assert_eq!(job.stage(), Stage::Done);
    assert_eq!(job.command(), None);
}

#[test]
fn handles_of_the_upload_resolve_while_it_runs() {
    let mut next = 0;
    let mut renderer = renderer(&mut next);
    let updates = vec![TextureUpdate { id: FONT, delta: whole(1) }];
    let mut job = renderer.paint(request(vec![], updates)).unwrap();
    assert_eq!(job.handle(Handle::Created(0)), None);
    assert_eq!(step(&mut renderer, &mut job, &mut next), Ok(()));
    assert_eq!(job.handle(Handle::Created(0)), Some(18));
    assert_eq!(job.handle(Handle::Known(7)), Some(7));
    assert_eq!(job.command(), Some(Command::AllocateCommandBuffer { pool: Handle::Created(0) }));
}

#[test]
fn a_texture_is_known_once_its_upload_is_through() {
    let mut next = 0;
    let mut renderer = renderer(&mut next);
    let updates = vec![TextureUpdate { id: FONT, delta: whole(1) }];
    let mut job = renderer.paint(request(vec![mesh(FONT)], updates)).unwrap();
    while job.stage() == Stage::Upload {
        assert_eq!(
            renderer.judge(mesh(FONT)),
            Verdict::Fail(DrawError::UnknownTexture),
        );
        assert_eq!(step(&mut renderer, &mut job, &mut next), Ok(()));
    }
    assert_eq!(job.stage(), Stage::Record);
    assert_eq!(renderer.judge(mesh(FONT)), Verdict::Draw(26));
}

#[test]
fn a_freed_texture_can_still_be_drawn_in_its_last_frame() {
    let mut next = 0;
    let mut renderer = renderer(&mut next);
    let updates = vec![TextureUpdate { id: FONT, delta: whole(1) }];
    let mut job = renderer.paint(request(vec![], updates)).unwrap();
    finish(&mut renderer, &mut job, &mut next);
    let mut job = renderer
        .paint(PaintRequest { free: vec![FONT], ..request(vec![mesh(FONT)], vec![]) })
        .unwrap();
    assert_eq!(finish(&mut renderer, &mut job, &mut next).len(), 14);
    assert_eq!(
        renderer.paint(request(vec![mesh(FONT)], vec![])).err(),
        Some(PaintError::Draw(DrawError::UnknownTexture)),
    );
}

#[test]
fn a_broken_first_update_is_refused_at_once() {
    let mut next = 0;
    let mut renderer = renderer(&mut next);
    let updates = vec![TextureUpdate { id: FONT, delta: broken() }];
    assert_eq!(
        renderer.paint(request(vec![], updates)).err(),
        Some(PaintError::Upload(UploadError::SizeMismatch)),
    );
}

#[test]
fn a_broken_second_update_ends_the_job_after_the_first() {
    let mut next = 0;
    let mut renderer = renderer(&mut next);
    let updates = vec![
        TextureUpdate { id: FONT, delta: whole(1) },
        TextureUpdate { id: ICON, delta: broken() },
    ];
    let mut job = renderer.paint(request(vec![], updates)).unwrap();
    let mut result = Ok(());
    while result.is_ok() {
        result = step(&mut renderer, &mut job, &mut next);
    }
    assert_eq!(result, Err(PaintError::Upload(UploadError::SizeMismatch)));
    assert_eq!(job.stage(), Stage::Done);
    assert_eq!(job.command(), None);
    assert_eq!(renderer.judge(mesh(FONT)), Verdict::Draw(26));
}

#[test]
fn meshes_that_cannot_be_drawn_end_the_job_after_the_uploads() {
    let mut next = 0;
    let mut renderer = renderer(&mut next);
    let updates = vec![TextureUpdate { id: FONT, delta: whole(1) }];
    let mut job = renderer.paint(request(vec![Primitive::Callback], updates)).unwrap();
    let mut result = Ok(());
    while result.is_ok() {
        result = step(&mut renderer, &mut job, &mut next);
    }
    assert_eq!(result, Err(PaintError::Draw(DrawError::CallbackUnsupported)));
    assert_eq!(job.stage(), Stage::Done);
}

#[test]
fn a_job_refuses_events_that_do_not_fit() {
    let mut next = 0;
    let mut renderer = renderer(&mut next);
    let mut job = renderer.paint(request(vec![], vec![])).unwrap();
    assert_eq!(
        renderer.resume_paint(&mut job, Event::Created(1)),
        Err(PaintError::Task(TaskError::UnexpectedEvent)),
    );
    finish(&mut renderer, &mut job, &mut next);
    assert_eq!(
        renderer.resume_paint(&mut job, Event::Done),
        Err(PaintError::Task(TaskError::Finished)),
    );
    assert_eq!(job.stage(), Stage::Done);
}

#[test]
fn painting_keeps_user_textures() {
    let mut next = 0;
    let mut renderer = renderer(&mut next);
    let mut task = renderer.prepare_user_texture(1000, 1001);
    run(&mut task, &mut next);
    let user = renderer.register_user_texture(&task).unwrap();
    let updates = vec![TextureUpdate { id: FONT, delta: whole(1) }];
    let mut job = renderer
        .paint(PaintRequest { free: vec![FONT], ..request(vec![mesh(user)], updates) })
        .unwrap();
    finish(&mut renderer, &mut job, &mut next);
    assert_eq!(renderer.judge(mesh(user)), Verdict::Draw(18));
}
