use std::collections::BTreeSet;

use egui_ash_integration::command::{Command, Handle, ObjectKind};
use egui_ash_integration::integration::draw::{MeshInfo, Primitive};
use egui_ash_integration::integration::paint::{PaintRequest, Stage, TextureUpdate};
use egui_ash_integration::integration::Integration;
use egui_ash_integration::task::{Event, Task};
use egui_ash_integration::texture::{ImageData, ImageDelta, Rgba, TextureKey};

/// A device that keeps a list of the objects that are alive.
struct Device {
    next: u64,
    alive: BTreeSet<(String, u64)>,
}

fn created(command: Command) -> Option<ObjectKind> {
    match command {
        Command::CreateDescriptorPool { .. } => Some(ObjectKind::DescriptorPool),
        Command::CreateDescriptorSetLayout { .. } => Some(ObjectKind::DescriptorSetLayout),
        Command::CreatePipelineLayout { .. } => Some(ObjectKind::PipelineLayout),
        Command::CreateShaderModule { .. } => Some(ObjectKind::ShaderModule),
        Command::CreateGraphicsPipeline { .. } => Some(ObjectKind::Pipeline),
        Command::CreateSampler { .. } => Some(ObjectKind::Sampler),
        Command::CreateBuffer { .. } => Some(ObjectKind::Buffer),
        Command::AllocateForBuffer { .. } => Some(ObjectKind::Allocation),
        Command::AllocateForImage { .. } => Some(ObjectKind::Allocation),
        Command::CreateCommandPool { .. } => Some(ObjectKind::CommandPool),
        Command::AllocateCommandBuffer { .. } => Some(ObjectKind::CommandBuffer),
        Command::CreateFence => Some(ObjectKind::Fence),
        Command::CreateImage { .. } => Some(ObjectKind::Image),
        Command::CreateImageView { .. } => Some(ObjectKind::ImageView),
        Command::AllocateDescriptorSet { .. } => Some(ObjectKind::DescriptorSet),
        _ => None,
    }
}

fn released(command: Command) -> Option<(ObjectKind, Handle)> {
    match command {
        Command::DestroyShaderModule { module } => Some((ObjectKind::ShaderModule, module)),
        Command::FreeDescriptorSet { descriptor_set, .. } => {
            Some((ObjectKind::DescriptorSet, descriptor_set))
        }
        Command::DestroyImage { image } => Some((ObjectKind::Image, image)),
        Command::DestroyImageView { view } => Some((ObjectKind::ImageView, view)),
        Command::FreeAllocation { allocation } => Some((ObjectKind::Allocation, allocation)),
        Command::DestroyBuffer { buffer } => Some((ObjectKind::Buffer, buffer)),
        Command::DestroyCommandPool { pool } => Some((ObjectKind::CommandPool, pool)),
        Command::DestroyFence { fence } => Some((ObjectKind::Fence, fence)),
        Command::DestroyDescriptorSetLayout { layout } => {
            Some((ObjectKind::DescriptorSetLayout, layout))
        }
        Command::DestroySampler { sampler } => Some((ObjectKind::Sampler, sampler)),
        Command::DestroyPipeline { pipeline } => Some((ObjectKind::Pipeline, pipeline)),
        Command::DestroyPipelineLayout { layout } => Some((ObjectKind::PipelineLayout, layout)),
        Command::DestroyDescriptorPool { pool } => Some((ObjectKind::DescriptorPool, pool)),
        _ => None,
    }
}

impl Device {
    fn new() -> Device {
        Device { next: 1, alive: BTreeSet::new() }
    }

    fn perform(&mut self, command: Command, handle: impl Fn(Handle) -> Option<u64>) -> Event {
        assert_eq!(created(command).is_some(), command.creates_object());
        if let Some((kind, object)) = released(command) {
            let raw = handle(object).unwrap();
            assert!(self.alive.remove(&(format!("{:?}", kind), raw)));
        }
        match created(command) {
            Some(kind) => {
                self.next += 1;
                self.alive.insert((format!("{:?}", kind), self.next));
                Event::Created(self.next)
            }
            None => Event::Done,
        }
    }

    fn run(&mut self, task: &mut Task) {
        while let Some(command) = task.command() {
            let event = self.perform(command, |handle| task.handle(handle));
            assert_eq!(task.advance(event), Ok(()));
        }
    }

    fn paint(&mut self, renderer: &mut Integration, request: PaintRequest) {
        let mut job = renderer.paint(request).unwrap();
        while let Some(command) = job.command() {
            assert_ne!(job.stage(), Stage::Done);
            let event = self.perform(command, |handle| job.handle(handle));
            assert_eq!(renderer.resume_paint(&mut job, event), Ok(()));
        }
        assert_eq!(job.stage(), Stage::Done);
    }

    fn count(&self, kind: ObjectKind) -> usize {
        let kind = format!("{:?}", kind);
        self.alive.iter().filter(|(alive, _)| *alive == kind).count()
    }
}

fn delta(width: usize, pos: Option<(usize, usize)>) -> ImageDelta {
    let pixels = (0..width).map(|_| Rgba { r: 0, g: 0, b: 0, a: 0 }).collect();
    ImageDelta { image: ImageData::Color { width, height: 1, pixels }, pos }
}

fn mesh(texture: TextureKey) -> Primitive {
    Primitive::Mesh(MeshInfo { texture, vertex_count: 3, index_count: 3 })
}

fn request(updates: Vec<(u64, ImageDelta)>, free: Vec<u64>) -> PaintRequest {
    PaintRequest {
        image_index: 0,
        width_points: 0,
        height_points: 0,
        primitives: updates.iter().map(|(id, _)| mesh(TextureKey::Managed(*id))).collect(),
        updates: updates
            .into_iter()
            .map(|(id, delta)| TextureUpdate { id: TextureKey::Managed(id), delta })
            .collect(),
        free: free.into_iter().map(TextureKey::Managed).collect(),
    }
}

fn renderer(device: &mut Device) -> Integration {
    let mut setup = Integration::setup(3);
    device.run(&mut setup);
    Integration::new(egui::Context::default(), 8, 8, 0, &setup).unwrap()
}

#[test]
fn nothing_is_left_after_a_whole_life() {
    let mut device = Device::new();
    let mut renderer = renderer(&mut device);
    device.paint(&mut renderer, request(vec![(0, delta(4, None)), (1, delta(2, None))], vec![]));
    device.paint(&mut renderer, request(vec![(0, delta(1, Some((3, 0))))], vec![1, 1]));
    let mut task = renderer.update_swapchain(9, 9);
    device.run(&mut task);
    assert_eq!(renderer.finish_update_swapchain(&task), Ok(()));
    device.paint(&mut renderer, request(vec![(0, delta(1, Some((0, 0))))], vec![]));
    let mut task = renderer.destroy();
    device.run(&mut task);
    // What is left goes with the pools that it came from.
    let pooled = device.count(ObjectKind::DescriptorSet) + device.count(ObjectKind::CommandBuffer);
    assert_eq!(device.alive.len(), pooled);
    assert_eq!(device.count(ObjectKind::DescriptorSet), 2);
    assert_eq!(device.count(ObjectKind::CommandBuffer), 4);
}

#[test]
fn user_textures_free_their_descriptor_sets_once() {
    let mut device = Device::new();
    let mut renderer = renderer(&mut device);
    let mut keys = Vec::new();
    for _ in 0..3 {
        let mut task = renderer.prepare_user_texture(1000, 1001);
        device.run(&mut task);
        keys.push(renderer.register_user_texture(&task).unwrap());
    }
    assert_eq!(device.count(ObjectKind::DescriptorSet), 3);
    for key in [keys[1], keys[1], keys[0]] {
        let mut task = renderer.unregister_user_texture(key).unwrap();
        device.run(&mut task);
    }
    assert_eq!(device.count(ObjectKind::DescriptorSet), 1);
    let mut task = renderer.destroy();
    device.run(&mut task);
    assert_eq!(device.alive.len(), 1);
    assert_eq!(device.count(ObjectKind::DescriptorSet), 1);
}

#[test]
fn a_long_life_leaves_nothing_behind() {
    let mut device = Device::new();
    let mut renderer = renderer(&mut device);
    for round in 0..5 {
        let id = round % 2;
        device.paint(&mut renderer, request(vec![(id, delta(3, None))], vec![]));
        device.paint(&mut renderer, request(vec![(id, delta(1, Some((1, 0))))], vec![id]));
        let mut task = renderer.update_swapchain(9 + round as u32, 9);
        device.run(&mut task);
        assert_eq!(renderer.finish_update_swapchain(&task), Ok(()));
        assert_eq!(device.count(ObjectKind::Pipeline), 1);
        assert_eq!(device.count(ObjectKind::Image), 0);
    }
    let mut task = renderer.destroy();
    device.run(&mut task);
    let pooled = device.count(ObjectKind::DescriptorSet) + device.count(ObjectKind::CommandBuffer);
    assert_eq!(device.alive.len(), pooled);
}

#[test]
fn a_patch_leaves_no_object_behind() {
    let mut device = Device::new();
    let mut renderer = renderer(&mut device);
    device.paint(&mut renderer, request(vec![(0, delta(4, None))], vec![]));
    let before = device.alive.len() - device.count(ObjectKind::CommandBuffer);
    device.paint(&mut renderer, request(vec![(0, delta(1, Some((3, 0))))], vec![]));
    assert_eq!(device.alive.len() - device.count(ObjectKind::CommandBuffer), before);
}

#[test]
fn an_orphan_leaves_all_its_objects_behind() {
    let mut device = Device::new();
    let mut renderer = renderer(&mut device);
    let before = device.alive.len();
    let mut task =
        renderer.update_texture(TextureKey::Managed(0), &delta(1, Some((0, 0)))).unwrap();
    device.run(&mut task);
    assert_eq!(renderer.finish_update_texture(&task), Ok(()));
    assert_eq!(device.alive.len(), before + 8);
}

#[test]
fn a_texture_set_again_leaves_the_old_objects_behind() {
    let mut device = Device::new();
    let mut renderer = renderer(&mut device);
    device.paint(&mut renderer, request(vec![(0, delta(4, None))], vec![]));
    device.paint(&mut renderer, request(vec![(0, delta(2, None))], vec![0]));
    assert_eq!(device.count(ObjectKind::Image), 1);
    assert_eq!(device.count(ObjectKind::ImageView), 1);
    let mut task = renderer.destroy();
    device.run(&mut task);
    assert_eq!(device.count(ObjectKind::Image), 1);
    assert_eq!(device.count(ObjectKind::Allocation), 1);
}
