use egui_ash_integration::command::{Command, Handle, Notice};
use egui_ash_integration::config::ImageLayout;
use egui_ash_integration::integration::draw::{MeshInfo, Primitive, Verdict};
use egui_ash_integration::integration::user::UserTextureError;
use egui_ash_integration::integration::Integration;
use egui_ash_integration::task::{Event, Purpose, Task, TaskError};
use egui_ash_integration::texture::TextureKey;

/// Performs a task; the objects it creates get the handles from `next` on.
fn run(task: &mut Task, next: &mut u64) -> Vec<Command> {
    let mut performed = Vec::new();
    while let Some(command) = task.command() {
        let event = if command.creates_object() {
            *next += 1;
            Event::Created(*next - 1)
        } else {
            Event::Done
        };
        assert_eq!(task.advance(event), Ok(()));
        performed.push(command);
    }
    performed
}

/// A renderer for two swapchain images: its pool is object 1, its descriptor
/// set layouts 2 and 3, its pipeline layout 4, its pipeline 7, its sampler 8,
/// the buffers of the first image and their memory 9 to 12, those of the second
/// 13 to 16, and the layout of user textures 17.
fn renderer(next: &mut u64) -> Integration {
    let mut setup = Integration::setup(2);
    *next = 1;
    run(&mut setup, next);
    assert_eq!(*next, 18);
    Integration::new(egui::Context::default(), 800, 600, 5, &setup).unwrap()
}

/// Registers a user texture; its descriptor set is the object `next`.
fn register(renderer: &mut Integration, next: &mut u64) -> TextureKey {
    let mut task = renderer.prepare_user_texture(1000, 1001);
    run(&mut task, next);
    renderer.register_user_texture(&task).unwrap()
}

fn verdict(renderer: &Integration, texture: TextureKey) -> Verdict {
    renderer.judge(Primitive::Mesh(MeshInfo { texture, vertex_count: 3, index_count: 3 }))
}

#[test]
fn a_user_texture_gets_a_descriptor_set() {
    let mut next = 0;
    let renderer = renderer(&mut next);
    let mut task = renderer.prepare_user_texture(1000, 1001);
    assert_eq!(task.purpose(), Purpose::UserTexture);
    assert_eq!(
        run(&mut task, &mut next),
        vec![
            Command::AllocateDescriptorSet { pool: Handle::Known(1), layout: Handle::Known(17) },
            Command::UpdateDescriptorSet {
                descriptor_set: Handle::Created(0),
                binding: 0,
                array_element: 0,
                image_view: Handle::Known(1000),
                image_layout: ImageLayout::ShaderReadOnly,
                sampler: Handle::Known(1001),
            },
        ],
    );
}

#[test]
fn user_textures_are_numbered_in_order() {
    let mut next = 0;
    let mut renderer = renderer(&mut next);
    assert_eq!(register(&mut renderer, &mut next), TextureKey::User(0));
    assert_eq!(register(&mut renderer, &mut next), TextureKey::User(1));
    assert_eq!(register(&mut renderer, &mut next), TextureKey::User(2));
    assert_eq!(verdict(&renderer, TextureKey::User(0)), Verdict::Draw(18));
    assert_eq!(verdict(&renderer, TextureKey::User(1)), Verdict::Draw(19));
    assert_eq!(verdict(&renderer, TextureKey::User(2)), Verdict::Draw(20));
}

#[test]
fn a_free_slot_is_used_again() {
    let mut next = 0;
    let mut renderer = renderer(&mut next);
    for _ in 0..3 {
        register(&mut renderer, &mut next);
    }
    renderer.unregister_user_texture(TextureKey::User(2)).unwrap();
    renderer.unregister_user_texture(TextureKey::User(1)).unwrap();
    assert_eq!(register(&mut renderer, &mut next), TextureKey::User(1));
    assert_eq!(register(&mut renderer, &mut next), TextureKey::User(2));
    assert_eq!(register(&mut renderer, &mut next), TextureKey::User(3));
    assert_eq!(verdict(&renderer, TextureKey::User(0)), Verdict::Draw(18));
    assert_eq!(verdict(&renderer, TextureKey::User(1)), Verdict::Draw(21));
}

#[test]
fn unregistering_undoes_registering() {
    let mut next = 0;
    let mut renderer = renderer(&mut next);
    register(&mut renderer, &mut next);
    let texture = register(&mut renderer, &mut next);
    let mut task = renderer.unregister_user_texture(texture).unwrap();
    assert_eq!(
        run(&mut task, &mut next),
        vec![Command::FreeDescriptorSet {
            pool: Handle::Known(1),
            descriptor_set: Handle::Known(19),
        }],
    );
    assert_eq!(verdict(&renderer, TextureKey::User(0)), Verdict::Draw(18));
    assert_eq!(register(&mut renderer, &mut next), texture);
}

#[test]
fn unregistering_frees_the_descriptor_set_once() {
    let mut next = 0;
    let mut renderer = renderer(&mut next);
    let first = register(&mut renderer, &mut next);
    let second = register(&mut renderer, &mut next);
    let mut task = renderer.unregister_user_texture(first).unwrap();
    assert_eq!(
        run(&mut task, &mut next),
        vec![Command::FreeDescriptorSet {
            pool: Handle::Known(1),
            descriptor_set: Handle::Known(18),
        }],
    );
    assert_eq!(verdict(&renderer, first), Verdict::Stale(first));
    assert_eq!(verdict(&renderer, second), Verdict::Draw(19));
    let mut task = renderer.unregister_user_texture(first).unwrap();
    assert_eq!(run(&mut task, &mut next), vec![]);
    assert_eq!(verdict(&renderer, first), Verdict::Stale(first));
}

#[test]
fn managed_textures_cannot_be_unregistered() {
    let mut next = 0;
    let mut renderer = renderer(&mut next);
    let first = register(&mut renderer, &mut next);
    let mut task = renderer.unregister_user_texture(TextureKey::Managed(0)).unwrap();
    assert_eq!(
        run(&mut task, &mut next),
        vec![Command::Report { notice: Notice::TextureNotUnregistrable }],
    );
    assert_eq!(verdict(&renderer, first), Verdict::Draw(18));
}

#[test]
fn a_texture_that_never_was_cannot_be_unregistered() {
    let mut next = 0;
    let mut renderer = renderer(&mut next);
    register(&mut renderer, &mut next);
    assert_eq!(
        renderer.unregister_user_texture(TextureKey::User(1)).err(),
        Some(UserTextureError::NeverRegistered),
    );
}

#[test]
fn registering_needs_its_own_finished_task() {
    let mut next = 0;
    let mut renderer = renderer(&mut next);
    let task = renderer.prepare_user_texture(1000, 1001);
    assert_eq!(renderer.register_user_texture(&task), Err(TaskError::Unfinished));
    let mut other = renderer.update_swapchain(1, 1);
    run(&mut other, &mut next);
    assert_eq!(renderer.register_user_texture(&other), Err(TaskError::WrongPurpose));
    assert_eq!(
        renderer.unregister_user_texture(TextureKey::User(0)).err(),
        Some(UserTextureError::NeverRegistered),
    );
}
