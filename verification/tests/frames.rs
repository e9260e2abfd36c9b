use egui_ash_integration::command::{Command, Handle, Notice};
use egui_ash_integration::config::{INDEX_SIZE, VERTEX_SIZE};
use egui_ash_integration::integration::draw::{DrawError, MeshInfo, Primitive, Verdict};
use egui_ash_integration::integration::Integration;
use egui_ash_integration::task::{Event, Purpose, Task};
use egui_ash_integration::texture::{ImageData, ImageDelta, Rgba, TextureKey};

const FONT: TextureKey = TextureKey::Managed(0);

/// Performs a task; the objects it creates get the handles from `next` on.
fn run(task: &mut Task, next: &mut u64) -> Vec<Command> {
    let mut performed = Vec::new();
    while let Some(command) = task.command() {
        let event = if command.creates_object() {
            *next += 1;
            Event::Created(*next - 1)
        } else {
            Event::Done
        };
        assert_eq!(task.advance(event), Ok(()));
        performed.push(command);
    }
    performed
}

/// A renderer for two swapchain images: its pool is object 1, its descriptor
/// set layouts 2 and 3, its pipeline layout 4, its pipeline 7, its sampler 8,
/// the buffers of the first image and their memory 9 to 12, those of the second
/// 13 to 16, and the layout of user textures 17.
fn renderer(next: &mut u64) -> Integration {
    let mut setup = Integration::setup(2);
    *next = 1;
    run(&mut setup, next);
    assert_eq!(*next, 18);
    Integration::new(egui::Context::default(), 800, 600, 5, &setup).unwrap()
}

fn mesh(texture: TextureKey, vertex_count: usize, index_count: usize) -> Primitive {
    Primitive::Mesh(MeshInfo { texture, vertex_count, index_count })
}

/// A renderer with one managed texture, whose descriptor set is object 26.
fn with_font(next: &mut u64) -> Integration {
    let mut renderer = renderer(next);
    let pixels = vec![Rgba { r: 1, g: 1, b: 1, a: 1 }];
    let image = ImageData::Color { width: 1, height: 1, pixels };
    let mut task = renderer.update_texture(FONT, &ImageDelta { image, pos: None }).unwrap();
    run(&mut task, next);
    assert_eq!(renderer.finish_update_texture(&task), Ok(()));
    renderer
}

fn error(renderer: &Integration, primitives: Vec<Primitive>) -> Option<DrawError> {
    renderer.record(0, 0, 0, &primitives).err()
}

#[test]
fn the_buffers_hold_four_and_two_megabytes() {
    assert_eq!(Integration::vertex_buffer_size(), 4_194_304);
    assert_eq!(Integration::index_buffer_size(), 2_097_152);
}

#[test]
fn a_frame_without_meshes_sets_up_the_state() {
    let mut next = 0;
    let renderer = renderer(&mut next);
    let width = 400.0f32.to_bits();
    let height = 300.0f32.to_bits();
    let mut task = renderer.record(1, width, height, &vec![]).unwrap();
    assert_eq!(task.purpose(), Purpose::Plain);
    assert_eq!(
        run(&mut task, &mut next),
        vec![
            Command::BindPipeline { pipeline: Handle::Known(7) },
            Command::BindVertexBuffer { buffer: Handle::Known(13) },
            Command::BindIndexBuffer { buffer: Handle::Known(15) },
            Command::SetViewport { width: 800, height: 600 },
            Command::PushConstants { layout: Handle::Known(4), offset: 0, word: width },
            Command::PushConstants { layout: Handle::Known(4), offset: 4, word: height },
        ],
    );
}

#[test]
fn meshes_lie_one_behind_the_other() {
    let mut next = 0;
    let renderer = with_font(&mut next);
    let primitives = vec![mesh(FONT, 4, 6), mesh(FONT, 0, 3), mesh(FONT, 3, 0), mesh(FONT, 3, 3)];
    let mut task = renderer.record(0, 0, 0, &primitives).unwrap();
    let commands = run(&mut task, &mut next);
    assert_eq!(
        commands[6..],
        [
            Command::BindDescriptorSet {
                layout: Handle::Known(4),
                descriptor_set: Handle::Known(26),
            },
            Command::WriteVertices {
                mesh: 0,
                allocation: Handle::Known(10),
                offset: 0,
                size: 80,
            },
            Command::WriteIndices {
                mesh: 0,
                allocation: Handle::Known(12),
                offset: 0,
                size: 24,
            },
            Command::SetScissor { mesh: 0 },
            Command::DrawIndexed { index_count: 6, first_index: 0, vertex_offset: 0 },
            Command::BindDescriptorSet {
                layout: Handle::Known(4),
                descriptor_set: Handle::Known(26),
            },
            Command::WriteVertices {
                mesh: 3,
                allocation: Handle::Known(10),
                offset: 80,
                size: 60,
            },
            Command::WriteIndices {
                mesh: 3,
                allocation: Handle::Known(12),
                offset: 24,
                size: 12,
            },
            Command::SetScissor { mesh: 3 },
            Command::DrawIndexed { index_count: 3, first_index: 6, vertex_offset: 4 },
        ],
    );
}

#[test]
fn a_stale_mesh_is_reported_and_takes_no_room() {
    let mut next = 0;
    let mut renderer = with_font(&mut next);
    let mut task = renderer.prepare_user_texture(1000, 1001);
    run(&mut task, &mut next);
    let user = renderer.register_user_texture(&task).unwrap();
    renderer.unregister_user_texture(user).unwrap();
    let primitives = vec![mesh(user, 5, 6), mesh(FONT, 3, 3)];
    let mut task = renderer.record(0, 0, 0, &primitives).unwrap();
    let commands = run(&mut task, &mut next);
    assert_eq!(
        commands[6],
        Command::Report { notice: Notice::TextureUnregistered(TextureKey::User(0)) },
    );
    assert_eq!(
        commands[8],
        Command::WriteVertices { mesh: 1, allocation: Handle::Known(10), offset: 0, size: 60 },
    );
    assert_eq!(commands.len(), 12);
}

#[test]
fn empty_meshes_need_no_texture() {
    let mut next = 0;
    let renderer = renderer(&mut next);
    let primitives = vec![mesh(FONT, 0, 0), mesh(TextureKey::User(9), 3, 0)];
    let mut task = renderer.record(0, 0, 0, &primitives).unwrap();
    assert_eq!(run(&mut task, &mut next).len(), 6);
}

#[test]
fn a_swapchain_image_that_is_not_there_is_refused() {
    let mut next = 0;
    let renderer = renderer(&mut next);
    assert_eq!(
        renderer.record(2, 0, 0, &vec![]).err(),
        Some(DrawError::NoSwapchainImage),
    );
}

#[test]
fn callbacks_are_refused() {
    let mut next = 0;
    let renderer = with_font(&mut next);
    let primitives = vec![mesh(FONT, 3, 3), Primitive::Callback];
    assert_eq!(error(&renderer, primitives), Some(DrawError::CallbackUnsupported));
}

#[test]
fn unknown_textures_are_refused() {
    let mut next = 0;
    let renderer = with_font(&mut next);
    assert_eq!(
        error(&renderer, vec![mesh(TextureKey::Managed(1), 3, 3)]),
        Some(DrawError::UnknownTexture),
    );
    assert_eq!(
        error(&renderer, vec![mesh(TextureKey::User(0), 3, 3)]),
        Some(DrawError::UnknownUserTexture),
    );
}

#[test]
fn the_earliest_error_counts() {
    let mut next = 0;
    let renderer = with_font(&mut next);
    let primitives = vec![mesh(TextureKey::Managed(1), 3, 3), Primitive::Callback];
    assert_eq!(error(&renderer, primitives), Some(DrawError::UnknownTexture));
    let primitives = vec![Primitive::Callback, mesh(TextureKey::Managed(1), 3, 3)];
    assert_eq!(error(&renderer, primitives), Some(DrawError::CallbackUnsupported));
}

#[test]
fn the_last_byte_of_the_vertex_buffer_stays_free() {
    let mut next = 0;
    let renderer = with_font(&mut next);
    // 209715 vertices take 4194300 bytes, four less than there are.
    assert_eq!(209_715 * VERTEX_SIZE, 4_194_300);
    assert_eq!(error(&renderer, vec![mesh(FONT, 209_715, 3)]), None);
    assert_eq!(error(&renderer, vec![mesh(FONT, 209_716, 3)]), Some(DrawError::OutOfMemory));
    assert_eq!(
        error(&renderer, vec![mesh(FONT, 209_714, 3), mesh(FONT, 2, 3)]),
        Some(DrawError::OutOfMemory),
    );
}

#[test]
fn the_index_buffer_is_never_quite_full() {
    let mut next = 0;
    let renderer = with_font(&mut next);
    // 524288 indices would fill the buffer to the last byte.
    assert_eq!(524_288 * INDEX_SIZE, 2_097_152);
    assert_eq!(error(&renderer, vec![mesh(FONT, 3, 524_287)]), None);
    assert_eq!(error(&renderer, vec![mesh(FONT, 3, 524_288)]), Some(DrawError::OutOfMemory));
    assert_eq!(error(&renderer, vec![mesh(FONT, 3, usize::MAX)]), Some(DrawError::OutOfMemory));
}

#[test]
fn primitives_are_judged_one_by_one() {
    let mut next = 0;
    let renderer = with_font(&mut next);
    assert_eq!(renderer.judge(mesh(FONT, 3, 3)), Verdict::Draw(26));
    assert_eq!(renderer.judge(mesh(FONT, 3, 0)), Verdict::Skip);
    assert_eq!(
        renderer.judge(Primitive::Callback),
        Verdict::Fail(DrawError::CallbackUnsupported),
    );
    assert_eq!(
        renderer.judge(mesh(TextureKey::User(u64::MAX), 3, 3)),
        Verdict::Fail(DrawError::UnknownUserTexture),
    );
}
