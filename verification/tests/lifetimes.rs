use egui_ash_integration::command::{Command, Handle};
use egui_ash_integration::config::{swapchain_pipeline, ShaderStage};
use egui_ash_integration::integration::draw::DrawError;
use egui_ash_integration::integration::Integration;
use egui_ash_integration::task::{Event, Purpose, Task, TaskError};
use egui_ash_integration::texture::{ImageData, ImageDelta, Rgba, TextureKey};

/// Performs a task; the objects it creates get the handles from `next` on.
fn run(task: &mut Task, next: &mut u64) -> Vec<Command> {
    let mut performed = Vec::new();
    while let Some(command) = task.command() {
        let event = if command.creates_object() {
            *next += 1;
            Event::Created(*next - 1)
        } else {
            Event::Done
        };
        assert_eq!(task.advance(event), Ok(()));
        performed.push(command);
    }
    performed
}

/// A renderer for two swapchain images: its pool is object 1, its descriptor
/// set layouts 2 and 3, its pipeline layout 4, its pipeline 7, its sampler 8,
/// the buffers of the first image and their memory 9 to 12, those of the second
/// 13 to 16, and the layout of user textures 17.
fn renderer(next: &mut u64) -> Integration {
    let mut setup = Integration::setup(2);
    *next = 1;
    run(&mut setup, next);
    assert_eq!(*next, 18);
    Integration::new(egui::Context::default(), 800, 600, 5, &setup).unwrap()
}

fn known(raw: u64) -> Handle {
    Handle::Known(raw)
}

/// Uploads a texture; its image, memory and view are the sixth to eighth object
/// from `next` on.
fn upload(renderer: &mut Integration, key: TextureKey, next: &mut u64) {
    let pixels = vec![Rgba { r: 1, g: 1, b: 1, a: 1 }];
    let image = ImageData::Color { width: 1, height: 1, pixels };
    let mut task = renderer.update_texture(key, &ImageDelta { image, pos: None }).unwrap();
    run(&mut task, next);
    assert_eq!(renderer.finish_update_texture(&task), Ok(()));
}

/// What has to be released in the end of a renderer without textures.
fn everything(pipeline: u64) -> Vec<Command> {
    let mut commands = vec![Command::DestroyDescriptorSetLayout { layout: known(17) }];
    for buffer in [11, 15, 9, 13] {
        commands.push(Command::DestroyBuffer { buffer: known(buffer) });
        commands.push(Command::FreeAllocation { allocation: known(buffer + 1) });
    }
    commands.extend([
        Command::DestroySampler { sampler: known(8) },
        Command::DestroyPipeline { pipeline: known(pipeline) },
        Command::DestroyPipelineLayout { layout: known(4) },
        Command::DestroyDescriptorSetLayout { layout: known(2) },
        Command::DestroyDescriptorSetLayout { layout: known(3) },
        Command::DestroyDescriptorPool { pool: known(1) },
    ]);
    commands
}

#[test]
fn destroying_releases_what_setup_created() {
    let mut next = 0;
    let mut renderer = renderer(&mut next);
    let mut task = renderer.destroy();
    assert_eq!(task.purpose(), Purpose::Plain);
    assert_eq!(run(&mut task, &mut next), everything(7));
    assert_eq!(
        renderer.record(0, 0, 0, &vec![]).err(),
        Some(DrawError::NoSwapchainImage),
    );
}

#[test]
fn destroying_releases_the_textures_last() {
    let mut next = 0;
    let mut renderer = renderer(&mut next);
    upload(&mut renderer, TextureKey::Managed(0), &mut next);
    upload(&mut renderer, TextureKey::Managed(1), &mut next);
    let mut task = renderer.destroy();
    let commands = run(&mut task, &mut next);
    let fixed = everything(7);
    assert_eq!(commands[..fixed.len()], fixed);
    let textures = &commands[fixed.len()..];
    assert_eq!(textures.len(), 6);
    for offset in [0, 9] {
        assert!(textures[..2].contains(&Command::DestroyImage { image: known(23 + offset) }));
        assert!(textures[2..4].contains(&Command::DestroyImageView { view: known(25 + offset) }));
        assert!(textures[4..]
            .contains(&Command::FreeAllocation { allocation: known(24 + offset) }));
    }
}

#[test]
fn a_second_destroy_repeats_only_the_single_objects() {
    let mut next = 0;
    let mut renderer = renderer(&mut next);
    upload(&mut renderer, TextureKey::Managed(0), &mut next);
    renderer.destroy();
    let mut task = renderer.destroy();
    let commands = run(&mut task, &mut next);
    let expected: Vec<Command> = everything(7)
        .into_iter()
        .filter(|command| {
            !matches!(command, Command::DestroyBuffer { .. } | Command::FreeAllocation { .. })
        })
        .collect();
    assert_eq!(commands, expected);
}

#[test]
fn freed_textures_are_released_once() {
    let mut next = 0;
    let mut renderer = renderer(&mut next);
    let key = TextureKey::Managed(4);
    upload(&mut renderer, key, &mut next);
    let mut task = renderer.free_textures(&vec![key, TextureKey::Managed(9), key]);
    assert_eq!(
        run(&mut task, &mut next),
        vec![
            Command::DestroyImage { image: known(23) },
            Command::DestroyImageView { view: known(25) },
            Command::FreeAllocation { allocation: known(24) },
        ],
    );
    let mut task = renderer.destroy();
    assert_eq!(run(&mut task, &mut next), everything(7));
}

#[test]
fn a_texture_set_again_takes_the_place_of_the_first() {
    let mut next = 0;
    let mut renderer = renderer(&mut next);
    let key = TextureKey::Managed(0);
    upload(&mut renderer, key, &mut next);
    upload(&mut renderer, key, &mut next);
    let mut task = renderer.free_textures(&vec![key]);
    assert_eq!(
        run(&mut task, &mut next),
        vec![
            Command::DestroyImage { image: known(32) },
            Command::DestroyImageView { view: known(34) },
            Command::FreeAllocation { allocation: known(33) },
        ],
    );
}

#[test]
fn a_new_swapchain_replaces_the_pipeline() {
    let mut next = 0;
    let mut renderer = renderer(&mut next);
    let mut task = renderer.update_swapchain(1024, 768);
    assert_eq!(task.purpose(), Purpose::Swapchain);
    assert_eq!(renderer.physical_width(), 1024);
    assert_eq!(renderer.physical_height(), 768);
    assert_eq!(
        run(&mut task, &mut next),
        vec![
            Command::DestroyPipeline { pipeline: known(7) },
            Command::GetSwapchainImages,
            Command::CreateShaderModule { stage: ShaderStage::Vertex },
            Command::CreateShaderModule { stage: ShaderStage::Fragment },
            Command::CreateGraphicsPipeline {
                config: swapchain_pipeline(),
                vertex_module: Handle::Created(0),
                fragment_module: Handle::Created(1),
                layout: known(4),
            },
            Command::DestroyShaderModule { module: Handle::Created(0) },
            Command::DestroyShaderModule { module: Handle::Created(1) },
        ],
    );
    assert_eq!(renderer.finish_update_swapchain(&task), Ok(()));
    // The pipeline was the third creation behind object 17.
    let mut frame = renderer.record(0, 0, 0, &vec![]).unwrap();
    let commands = run(&mut frame, &mut next);
    assert_eq!(commands[0], Command::BindPipeline { pipeline: known(20) });
    assert_eq!(commands[3], Command::SetViewport { width: 1024, height: 768 });
    let mut task = renderer.destroy();
    assert_eq!(run(&mut task, &mut next), everything(20));
}

#[test]
fn a_swapchain_needs_its_own_finished_task() {
    let mut next = 0;
    let mut renderer = renderer(&mut next);
    let task = renderer.update_swapchain(1, 1);
    assert_eq!(renderer.finish_update_swapchain(&task), Err(TaskError::Unfinished));
    let mut other = renderer.prepare_user_texture(1, 2);
    run(&mut other, &mut next);
    assert_eq!(renderer.finish_update_swapchain(&other), Err(TaskError::WrongPurpose));
}
