use egui_ash_integration::command::{Command, Handle};
use egui_ash_integration::config::{
    texture_image, Access, BlitRegion, BufferUsage, CopyRegion, Extent, Filter, Format, ImageLayout,
    MemoryLocation, Offset, PipelineStage, Transition,
};
use egui_ash_integration::integration::draw::{DrawError, MeshInfo, Primitive, Verdict};
use egui_ash_integration::integration::upload::UploadError;
use egui_ash_integration::integration::Integration;
use egui_ash_integration::task::{Event, Fate, Purpose, Task, TaskError};
use egui_ash_integration::texture::{ImageData, ImageDelta, Rgba, TextureKey};

const FONT: TextureKey = TextureKey::Managed(0);

/// Performs a task; the objects it creates get the handles from `next` on.
fn run(task: &mut Task, next: &mut u64) -> Vec<Command> {
    let mut performed = Vec::new();
    while let Some(command) = task.command() {
        let event = if command.creates_object() {
            *next += 1;
            Event::Created(*next - 1)
        } else {
            Event::Done
        };
        assert_eq!(task.advance(event), Ok(()));
        performed.push(command);
    }
    performed
}

/// A renderer for two swapchain images: its pool is object 1, its descriptor
/// set layouts 2 and 3, its pipeline layout 4, its pipeline 7, its sampler 8,
/// the buffers of the first image and their memory 9 to 12, those of the second
/// 13 to 16, and the layout of user textures 17.
fn renderer(next: &mut u64) -> Integration {
    let mut setup = Integration::setup(2);
    *next = 1;
    run(&mut setup, next);
    assert_eq!(*next, 18);
    Integration::new(egui::Context::default(), 800, 600, 5, &setup).unwrap()
}

fn pixel(r: u8) -> Rgba {
    Rgba { r, g: 2, b: 3, a: 4 }
}

fn whole(width: usize, height: usize) -> ImageDelta {
    let pixels = (0..width * height).map(|i| pixel(i as u8)).collect();
    ImageDelta { image: ImageData::Color { width, height, pixels }, pos: None }
}

fn patch(width: usize, height: usize, pos: (usize, usize)) -> ImageDelta {
    ImageDelta { pos: Some(pos), ..whole(width, height) }
}

fn mesh_with(texture: TextureKey) -> Primitive {
    Primitive::Mesh(MeshInfo { texture, vertex_count: 3, index_count: 3 })
}

fn created(number: usize) -> Handle {
    Handle::Created(number)
}

fn barrier(
    image: Handle,
    access: (Access, Access),
    layout: (ImageLayout, ImageLayout),
    stage: (PipelineStage, PipelineStage),
) -> Command {
    Command::ImageBarrier {
        commands: created(1),
        image,
        transition: Transition {
            src_access: access.0,
            dst_access: access.1,
            old_layout: layout.0,
            new_layout: layout.1,
            src_stage: stage.0,
            dst_stage: stage.1,
        },
    }
}

/// The commands that bring an image of this size to the device.
fn transfer(width: u32, height: u32) -> Vec<Command> {
    let extent = Extent { width, height, depth: 1 };
    vec![
        Command::CreateCommandPool { queue_family: 5 },
        Command::AllocateCommandBuffer { pool: created(0) },
        Command::CreateFence,
        Command::CreateBuffer {
            size: 4 * width as u64 * height as u64,
            usage: BufferUsage::TransferSource,
        },
        Command::AllocateForBuffer {
            buffer: created(3),
            location: MemoryLocation::CpuToGpu,
            linear: true,
        },
        Command::BindBufferMemory { buffer: created(3), allocation: created(4) },
        Command::WriteData { allocation: created(4) },
        Command::CreateImage { config: texture_image(extent) },
        Command::AllocateForImage {
            image: created(5),
            location: MemoryLocation::GpuOnly,
            linear: false,
        },
        Command::BindImageMemory { image: created(5), allocation: created(6) },
        Command::CreateImageView { image: created(5), format: Format::R8G8B8A8Unorm },
        Command::BeginCommandBuffer { commands: created(1) },
        barrier(
            created(5),
            (Access::NoAccess, Access::TransferWrite),
            (ImageLayout::Undefined, ImageLayout::TransferDst),
            (PipelineStage::Host, PipelineStage::Transfer),
        ),
        Command::CopyBufferToImage {
            commands: created(1),
            buffer: created(3),
            image: created(5),
            region: CopyRegion {
                buffer_offset: 0,
                buffer_row_length: width,
                buffer_image_height: height,
                image_offset: Offset { x: 0, y: 0, z: 0 },
                image_extent: extent,
            },
        },
        barrier(
            created(5),
            (Access::TransferWrite, Access::ShaderRead),
            (ImageLayout::TransferDst, ImageLayout::ShaderReadOnly),
            (PipelineStage::Transfer, PipelineStage::VertexShader),
        ),
        Command::EndCommandBuffer { commands: created(1) },
        Command::QueueSubmit { commands: created(1), fence: created(2) },
        Command::WaitForFence { fence: created(2) },
    ]
}

fn cleanup() -> Vec<Command> {
    vec![
        Command::DestroyBuffer { buffer: created(3) },
        Command::FreeAllocation { allocation: created(4) },
        Command::DestroyCommandPool { pool: created(0) },
        Command::DestroyFence { fence: created(2) },
    ]
}

#[test]
fn a_whole_image_becomes_the_texture() {
    let mut next = 0;
    let mut renderer = renderer(&mut next);
    let mut task = renderer.update_texture(FONT, &whole(3, 2)).unwrap();
    assert_eq!(
        task.purpose(),
        Purpose::Upload {
            id: FONT,
            extent: Extent { width: 3, height: 2, depth: 1 },
            fate: Fate::Register,
        },
    );
    let bytes: Vec<u8> = (0..6).flat_map(|i| [i, 2, 3, 4]).collect();
    assert_eq!(task.data(), &bytes);
    let mut expected = transfer(3, 2);
    expected.extend([
        Command::AllocateDescriptorSet { pool: Handle::Known(1), layout: Handle::Known(2) },
        Command::UpdateDescriptorSet {
            descriptor_set: created(8),
            binding: 0,
            array_element: 0,
            image_view: created(7),
            image_layout: ImageLayout::ShaderReadOnly,
            sampler: Handle::Known(8),
        },
    ]);
    expected.extend(cleanup());
    assert_eq!(run(&mut task, &mut next), expected);
    assert_eq!(task.created(), &(18..27).collect::<Vec<u64>>());
    assert_eq!(
        renderer.judge(mesh_with(FONT)),
        Verdict::Fail(DrawError::UnknownTexture),
    );
    assert_eq!(renderer.finish_update_texture(&task), Ok(()));
    assert_eq!(renderer.judge(mesh_with(FONT)), Verdict::Draw(26));
}

#[test]
fn a_patch_is_copied_into_the_texture() {
    let mut next = 0;
    let mut renderer = renderer(&mut next);
    let mut task = renderer.update_texture(FONT, &whole(8, 8)).unwrap();
    run(&mut task, &mut next);
    assert_eq!(renderer.finish_update_texture(&task), Ok(()));
    // The texture's image was the sixth creation behind object 17.
    let texture = Handle::Known(23);
    let mut task = renderer.update_texture(FONT, &patch(3, 2, (4, 5))).unwrap();
    assert!(matches!(task.purpose(), Purpose::Upload { id: FONT, fate: Fate::Patch, .. }));
    let mut expected = transfer(3, 2);
    expected.extend([
        Command::ResetCommandPool { pool: created(0) },
        Command::ResetFence { fence: created(2) },
        Command::BeginCommandBuffer { commands: created(1) },
        barrier(
            texture,
            (Access::ShaderRead, Access::TransferWrite),
            (ImageLayout::Undefined, ImageLayout::TransferDst),
            (PipelineStage::FragmentShader, PipelineStage::Transfer),
        ),
        barrier(
            created(5),
            (Access::ShaderRead, Access::TransferRead),
            (ImageLayout::ShaderReadOnly, ImageLayout::TransferSrc),
            (PipelineStage::FragmentShader, PipelineStage::Transfer),
        ),
        Command::BlitImage {
            commands: created(1),
            src: created(5),
            dst: texture,
            region: BlitRegion {
                src_from: Offset { x: 0, y: 0, z: 0 },
                src_to: Offset { x: 3, y: 2, z: 1 },
                dst_from: Offset { x: 4, y: 5, z: 0 },
                dst_to: Offset { x: 7, y: 7, z: 1 },
            },
            filter: Filter::Nearest,
        },
        barrier(
            texture,
            (Access::TransferWrite, Access::ShaderRead),
            (ImageLayout::TransferDst, ImageLayout::ShaderReadOnly),
            (PipelineStage::Transfer, PipelineStage::FragmentShader),
        ),
        Command::EndCommandBuffer { commands: created(1) },
        Command::QueueSubmit { commands: created(1), fence: created(2) },
        Command::WaitForFence { fence: created(2) },
        Command::DestroyImage { image: created(5) },
        Command::DestroyImageView { view: created(7) },
        Command::FreeAllocation { allocation: created(6) },
    ]);
    expected.extend(cleanup());
    assert_eq!(run(&mut task, &mut next), expected);
    assert_eq!(task.created().len(), 8);
    assert_eq!(renderer.finish_update_texture(&task), Ok(()));
    assert_eq!(renderer.judge(mesh_with(FONT)), Verdict::Draw(26));
}

#[test]
fn a_patch_without_a_texture_is_left_alone() {
    let mut next = 0;
    let mut renderer = renderer(&mut next);
    let mut task = renderer.update_texture(FONT, &patch(3, 2, (4, 5))).unwrap();
    assert!(matches!(task.purpose(), Purpose::Upload { id: FONT, fate: Fate::Orphan, .. }));
    assert_eq!(run(&mut task, &mut next), transfer(3, 2));
    assert_eq!(renderer.finish_update_texture(&task), Ok(()));
    assert_eq!(
        renderer.judge(mesh_with(FONT)),
        Verdict::Fail(DrawError::UnknownTexture),
    );
}

#[test]
fn a_font_image_is_uploaded_as_it_is() {
    let mut next = 0;
    let mut renderer = renderer(&mut next);
    let image = ImageData::Font { width: 1, height: 2, pixels: vec![pixel(9), pixel(8)] };
    let task = renderer.update_texture(FONT, &ImageDelta { image, pos: None }).unwrap();
    assert_eq!(task.data(), &vec![9, 2, 3, 4, 8, 2, 3, 4]);
}

#[test]
fn a_color_image_of_the_wrong_size_is_refused() {
    let mut next = 0;
    let mut renderer = renderer(&mut next);
    let image = ImageData::Color { width: 2, height: 2, pixels: vec![pixel(1)] };
    let result = renderer.update_texture(FONT, &ImageDelta { image, pos: None });
    assert_eq!(result.err(), Some(UploadError::SizeMismatch));
}

#[test]
fn a_patch_beyond_the_device_is_refused() {
    let mut next = 0;
    let mut renderer = renderer(&mut next);
    let mut task = renderer.update_texture(FONT, &whole(2, 2)).unwrap();
    run(&mut task, &mut next);
    assert_eq!(renderer.finish_update_texture(&task), Ok(()));
    let far = i32::MAX as usize;
    let result = renderer.update_texture(FONT, &patch(1, 1, (far, 0)));
    assert_eq!(result.err(), Some(UploadError::RegionOverflow));
    let result = renderer.update_texture(FONT, &patch(1, 1, (0, far)));
    assert_eq!(result.err(), Some(UploadError::RegionOverflow));
    assert!(renderer.update_texture(FONT, &patch(1, 1, (far - 1, far - 1))).is_ok());
}

#[test]
fn without_swapchain_images_no_texture_can_be_registered() {
    let mut next = 1;
    let mut setup = Integration::setup(0);
    run(&mut setup, &mut next);
    let mut renderer = Integration::new(egui::Context::default(), 1, 1, 0, &setup).unwrap();
    let result = renderer.update_texture(FONT, &whole(1, 1));
    assert_eq!(result.err(), Some(UploadError::NoDescriptorSetLayout));
    assert!(renderer.update_texture(FONT, &patch(1, 1, (0, 0))).is_ok());
}

#[test]
fn an_upload_ends_when_its_task_does() {
    let mut next = 0;
    let mut renderer = renderer(&mut next);
    let task = renderer.update_texture(FONT, &whole(1, 1)).unwrap();
    assert_eq!(renderer.finish_update_texture(&task), Err(TaskError::Unfinished));
    let mut other = renderer.update_swapchain(1, 1);
    run(&mut other, &mut next);
    assert_eq!(renderer.finish_update_texture(&other), Err(TaskError::WrongPurpose));
    assert_eq!(
        renderer.judge(mesh_with(FONT)),
        Verdict::Fail(DrawError::UnknownTexture),
    );
}

#[test]
fn an_upload_leaves_other_textures_alone() {
    let mut next = 0;
    let mut renderer = renderer(&mut next);
    let other = TextureKey::Managed(1);
    for key in [FONT, other] {
        let mut task = renderer.update_texture(key, &whole(1, 1)).unwrap();
        run(&mut task, &mut next);
        assert_eq!(renderer.finish_update_texture(&task), Ok(()));
    }
    assert_eq!(renderer.judge(mesh_with(FONT)), Verdict::Draw(26));
    assert_eq!(renderer.judge(mesh_with(other)), Verdict::Draw(35));
}
