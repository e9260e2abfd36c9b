use egui_ash_integration::command::{Command, Handle};
use egui_ash_integration::config::{
    sampler, setup_pipeline, swapchain_pipeline, vertex_input, AddressMode, BufferUsage,
    Comparison, DepthStencilState, Filter, Format, MemoryLocation, PipelineConfig, ShaderStage,
    VERTEX_SIZE,
};
use egui_ash_integration::integration::Integration;
use egui_ash_integration::task::{Event, Purpose, Task, TaskError};

/// Performs a task; the objects it creates get the handles from `next` on.
fn run(task: &mut Task, next: &mut u64) -> Vec<Command> {
    let mut performed = Vec::new();
    while let Some(command) = task.command() {
        let event = if command.creates_object() {
            *next += 1;
            Event::Created(*next - 1)
        } else {
            Event::Done
        };
        assert_eq!(task.advance(event), Ok(()));
        performed.push(command);
    }
    performed
}

fn layout_command() -> Command {
    Command::CreateDescriptorSetLayout {
        binding: 0,
        descriptor_count: 1,
        stage: ShaderStage::Fragment,
    }
}

fn buffer_commands(first: usize) -> Vec<Command> {
    let mut commands = Vec::new();
    for (number, size, usage) in [
        (first, 4 * 1024 * 1024, BufferUsage::Vertex),
        (first + 2, 2 * 1024 * 1024, BufferUsage::Index),
    ] {
        commands.push(Command::CreateBuffer { size, usage });
        commands.push(Command::AllocateForBuffer {
            buffer: Handle::Created(number),
            location: MemoryLocation::CpuToGpu,
            linear: true,
        });
        commands.push(Command::BindBufferMemory {
            buffer: Handle::Created(number),
            allocation: Handle::Created(number + 1),
        });
    }
    commands
}

#[test]
fn setup_creates_what_two_images_need() {
    let mut task = Integration::setup(2);
    assert_eq!(task.purpose(), Purpose::Setup { image_count: 2 });
    let mut expected = vec![
        Command::CreateDescriptorPool { max_sets: 1024, descriptor_count: 1024, free_sets: true },
        layout_command(),
        layout_command(),
        Command::CreatePipelineLayout {
            first_layout: 1,
            layout_count: 2,
            push_stage: ShaderStage::Vertex,
            push_offset: 0,
            push_size: 8,
        },
        Command::CreateShaderModule { stage: ShaderStage::Vertex },
        Command::CreateShaderModule { stage: ShaderStage::Fragment },
        Command::CreateGraphicsPipeline {
            config: setup_pipeline(),
            vertex_module: Handle::Created(4),
            fragment_module: Handle::Created(5),
            layout: Handle::Created(3),
        },
        Command::DestroyShaderModule { module: Handle::Created(4) },
        Command::DestroyShaderModule { module: Handle::Created(5) },
        Command::CreateSampler { config: sampler() },
    ];
    expected.extend(buffer_commands(8));
    expected.extend(buffer_commands(12));
    expected.push(layout_command());
    let mut next = 100;
    assert_eq!(run(&mut task, &mut next), expected);
    assert_eq!(task.created(), &(100..117).collect::<Vec<u64>>());
    assert!(task.is_finished());
}

#[test]
fn setup_without_images_still_has_the_shared_objects() {
    let mut task = Integration::setup(0);
    let mut next = 0;
    assert_eq!(run(&mut task, &mut next).len(), 9);
    assert_eq!(task.created().len(), 7);
}

#[test]
fn a_renderer_takes_size_and_context() {
    let context = egui::Context::default();
    let mut task = Integration::setup(1);
    let mut next = 1;
    run(&mut task, &mut next);
    let renderer = Integration::new(context.clone(), 640, 480, 3, &task).unwrap();
    assert_eq!(renderer.physical_width(), 640);
    assert_eq!(renderer.physical_height(), 480);
    assert!(renderer.context() == context);
    assert!(renderer.context() != egui::Context::default());
}

#[test]
fn a_renderer_needs_a_finished_setup() {
    let task = Integration::setup(1);
    let error = Integration::new(egui::Context::default(), 1, 1, 0, &task).err();
    assert_eq!(error, Some(TaskError::Unfinished));
}

#[test]
fn a_renderer_needs_a_setup_task() {
    let mut task = Integration::setup(1);
    let mut next = 1;
    run(&mut task, &mut next);
    let mut renderer = Integration::new(egui::Context::default(), 1, 1, 0, &task).unwrap();
    let mut other = renderer.update_swapchain(2, 2);
    run(&mut other, &mut next);
    let error = Integration::new(egui::Context::default(), 1, 1, 0, &other).err();
    assert_eq!(error, Some(TaskError::WrongPurpose));
}

#[test]
fn a_creating_command_takes_a_handle() {
    let mut task = Integration::setup(0);
    assert_eq!(task.advance(Event::Done), Err(TaskError::UnexpectedEvent));
    assert_eq!(
        task.command(),
        Some(Command::CreateDescriptorPool {
            max_sets: 1024,
            descriptor_count: 1024,
            free_sets: true,
        }),
    );
    assert_eq!(task.advance(Event::Created(5)), Ok(()));
    assert_eq!(task.created(), &vec![5]);
}

#[test]
fn a_command_that_creates_nothing_takes_no_handle() {
    let mut task = Integration::setup(0);
    // Pool, pipeline layout, two shader modules and the pipeline.
    for handle in 1..=5 {
        assert_eq!(task.advance(Event::Created(handle)), Ok(()));
    }
    assert_eq!(
        task.command(),
        Some(Command::DestroyShaderModule { module: Handle::Created(2) }),
    );
    assert_eq!(task.advance(Event::Created(6)), Err(TaskError::UnexpectedEvent));
    assert_eq!(task.advance(Event::Done), Ok(()));
}

#[test]
fn a_finished_task_takes_no_event() {
    let mut task = Integration::setup(0);
    let mut next = 1;
    run(&mut task, &mut next);
    assert_eq!(task.command(), None);
    assert_eq!(task.advance(Event::Done), Err(TaskError::Finished));
    assert_eq!(task.advance(Event::Created(9)), Err(TaskError::Finished));
}

#[test]
fn handles_resolve_once_they_are_created() {
    let mut task = Integration::setup(0);
    assert_eq!(task.handle(Handle::Created(0)), None);
    assert_eq!(task.handle(Handle::Known(77)), Some(77));
    assert_eq!(task.advance(Event::Created(42)), Ok(()));
    assert_eq!(task.handle(Handle::Created(0)), Some(42));
    assert_eq!(task.handle(Handle::Created(1)), None);
}

#[test]
fn a_due_command_names_only_objects_that_exist() {
    let mut task = Integration::setup(3);
    let mut next = 1;
    while let Some(command) = task.command() {
        let named = match command {
            Command::CreateGraphicsPipeline { vertex_module, fragment_module, layout, .. } => {
                vec![vertex_module, fragment_module, layout]
            }
            Command::DestroyShaderModule { module } => vec![module],
            Command::AllocateForBuffer { buffer, .. } => vec![buffer],
            Command::BindBufferMemory { buffer, allocation } => vec![buffer, allocation],
            Command::CreatePipelineLayout { first_layout, layout_count, .. } => {
                (first_layout..first_layout + layout_count).map(Handle::Created).collect()
            }
            _ => vec![],
        };
        assert!(named.iter().all(|handle| task.handle(*handle).is_some()));
        let event = if command.creates_object() {
            next += 1;
            Event::Created(next)
        } else {
            Event::Done
        };
        assert_eq!(task.advance(event), Ok(()));
    }
    assert_eq!(task.created().len(), 22);
}

#[test]
fn vertices_are_two_points_and_a_color() {
    let input = vertex_input();
    assert_eq!(input.stride as usize, VERTEX_SIZE);
    assert_eq!(input.stride as usize, std::mem::size_of::<egui::epaint::Vertex>());
    assert_eq!((input.position.offset, input.uv.offset, input.color.offset), (0, 8, 16));
    assert_eq!((input.position.location, input.uv.location, input.color.location), (0, 1, 2));
    assert_eq!(input.position.format, Format::R32G32Sfloat);
    assert_eq!(input.uv.format, Format::R32G32Sfloat);
    assert_eq!(input.color.format, Format::R8G8B8A8Unorm);
}

#[test]
fn a_new_swapchain_changes_the_use_of_depth_only() {
    let first = setup_pipeline();
    assert!(!first.depth_stencil.depth_test);
    assert!(!first.depth_stencil.depth_write);
    assert_eq!(first.depth_stencil.depth_comparison, Comparison::Always);
    let expected = PipelineConfig {
        depth_stencil: DepthStencilState {
            depth_test: true,
            depth_write: true,
            depth_comparison: Comparison::LessOrEqual,
            ..first.depth_stencil
        },
        ..first
    };
    assert_eq!(swapchain_pipeline(), expected);
}

#[test]
fn the_sampler_clamps_and_filters_linearly() {
    let config = sampler();
    assert_eq!(config.address_mode_u, AddressMode::ClampToEdge);
    assert_eq!(config.address_mode_v, AddressMode::ClampToEdge);
    assert_eq!(config.address_mode_w, AddressMode::ClampToEdge);
    assert_eq!(config.min_filter, Filter::Linear);
    assert_eq!(config.mag_filter, Filter::Linear);
    assert_eq!(config.mipmap_mode, Filter::Linear);
    assert!(!config.anisotropy);
}
