//! Creating a renderer.
use vstd::prelude::*;

use crate::command::{Command, Handle};
use crate::config::{
    sampler, sampler_spec, setup_pipeline, setup_pipeline_spec, BufferUsage, MemoryLocation,
    PipelineConfig, ShaderStage, INDEX_BUFFER_BYTES, POOL_CAPACITY, PUSH_CONSTANT_BYTES,
    VERTEX_BUFFER_BYTES,
};
use crate::integration::{Integration, IntegrationModel};
use crate::script::{creations, Script};
use crate::tables::{TextureModel, TextureTables};
use crate::task::{Purpose, Task, TaskError, TaskModel};

verus! {

/// A descriptor set layout with one texture for the fragment shader.
pub open spec fn texture_layout_command() -> Command {
    Command::CreateDescriptorSetLayout {
        binding: 0,
        descriptor_count: 1,
        stage: ShaderStage::Fragment,
    }
}

/// The number of the setup's creation that is the buffer of this kind of the
/// swapchain image with this index: 0 for its vertices, 1 for their memory, 2
/// for its indices, 3 for theirs.
pub open spec fn buffer_number(image_count: int, i: int, part: int) -> int {
    image_count + 6 + 4 * i + part
}

/// The commands that create the shaders, the pipeline with them, and release
/// them again. `first` is the number of their first creation.
pub open spec fn pipeline_script(
    config: PipelineConfig,
    layout: Handle,
    first: int,
) -> Seq<Command> {
    let vertex_module = Handle::Created(first as usize);
    let fragment_module = Handle::Created((first + 1) as usize);
    seq![
        Command::CreateShaderModule { stage: ShaderStage::Vertex },
        Command::CreateShaderModule { stage: ShaderStage::Fragment },
        Command::CreateGraphicsPipeline { config, vertex_module, fragment_module, layout },
        Command::DestroyShaderModule { module: vertex_module },
        Command::DestroyShaderModule { module: fragment_module },
    ]
}

/// The commands that create the buffers of the swapchain image with this index.
pub open spec fn image_buffers_script(image_count: int, i: int) -> Seq<Command> {
    let vertices = Handle::Created(buffer_number(image_count, i, 0) as usize);
    let vertex_memory = Handle::Created(buffer_number(image_count, i, 1) as usize);
    let indices = Handle::Created(buffer_number(image_count, i, 2) as usize);
    let index_memory = Handle::Created(buffer_number(image_count, i, 3) as usize);
    seq![
        Command::CreateBuffer { size: VERTEX_BUFFER_BYTES, usage: BufferUsage::Vertex },
        Command::AllocateForBuffer {
            buffer: vertices,
            location: MemoryLocation::CpuToGpu,
            linear: true,
        },
        Command::BindBufferMemory { buffer: vertices, allocation: vertex_memory },
        Command::CreateBuffer { size: INDEX_BUFFER_BYTES, usage: BufferUsage::Index },
        Command::AllocateForBuffer {
            buffer: indices,
            location: MemoryLocation::CpuToGpu,
            linear: true,
        },
        Command::BindBufferMemory { buffer: indices, allocation: index_memory },
    ]
}

/// The commands that create the buffers of the first `n` swapchain images.
pub open spec fn buffers_script(image_count: int, n: nat) -> Seq<Command>
    decreases n,
{
    if n == 0 {
        seq![]
    } else {
        buffers_script(image_count, (n - 1) as nat) + image_buffers_script(image_count, n - 1)
    }
}

/// The commands that create what a renderer needs: the pool, a descriptor set
/// layout for each swapchain image, the pipeline and its layout, the sampler,
/// the buffers of each swapchain image, and the layout of user textures.
pub open spec fn setup_script(image_count: usize) -> Seq<Command> {
    seq![
        Command::CreateDescriptorPool {
            max_sets: POOL_CAPACITY,
            descriptor_count: POOL_CAPACITY,
            free_sets: true,
        },
    ] + Seq::new(image_count as nat, |i: int| texture_layout_command()) + seq![
        Command::CreatePipelineLayout {
            first_layout: 1,
            layout_count: image_count,
            push_stage: ShaderStage::Vertex,
            push_offset: 0,
            push_size: PUSH_CONSTANT_BYTES,
        },
    ] + pipeline_script(
        setup_pipeline_spec(),
        Handle::Created((image_count + 1) as usize),
        image_count + 2,
    ) + seq![Command::CreateSampler { config: sampler_spec() }] + buffers_script(
        image_count as int,
        image_count as nat,
    ) + seq![texture_layout_command()]
}

/// The renderer whose setup led to these handles.
pub open spec fn setup_model(
    context: egui::Context,
    physical_width: u32,
    physical_height: u32,
    queue_family: u32,
    image_count: int,
    created: Seq<u64>,
) -> IntegrationModel {
    IntegrationModel {
        context,
        physical_width,
        physical_height,
        queue_family,
        descriptor_pool: created[0],
        descriptor_set_layouts: created.subrange(1, image_count + 1),
        pipeline_layout: created[image_count + 1],
        pipeline: created[image_count + 4],
        sampler: created[image_count + 5],
        vertex_buffers: Seq::new(
            image_count as nat,
            |i: int| created[buffer_number(image_count, i, 0)],
        ),
        vertex_buffer_allocations: Seq::new(
            image_count as nat,
            |i: int| created[buffer_number(image_count, i, 1)],
        ),
        index_buffers: Seq::new(
            image_count as nat,
            |i: int| created[buffer_number(image_count, i, 2)],
        ),
        index_buffer_allocations: Seq::new(
            image_count as nat,
            |i: int| created[buffer_number(image_count, i, 3)],
        ),
        textures: TextureModel::empty(),
        user_texture_layout: created[5 * image_count + 6],
        user_textures: Seq::empty(),
    }
}

/// Writes the commands that create a pipeline.
pub(crate) fn write_pipeline(script: &mut Script, config: PipelineConfig, layout: Handle)
    requires
        old(script).wf(),
        layout is Created ==> layout->Created_0 < creations(old(script)@),
    ensures
        final(script).wf(),
        final(script)@ == old(script)@ + pipeline_script(
            config,
            layout,
            creations(old(script)@) as int,
        ),
        creations(final(script)@) == creations(old(script)@) + 3,
{
    let vertex_module = script.create(Command::CreateShaderModule { stage: ShaderStage::Vertex });
    let fragment_module = script.create(
        Command::CreateShaderModule { stage: ShaderStage::Fragment },
    );
    let _pipeline = script.create(
        Command::CreateGraphicsPipeline { config, vertex_module, fragment_module, layout },
    );
    script.push(Command::DestroyShaderModule { module: vertex_module });
    script.push(Command::DestroyShaderModule { module: fragment_module });
    assert(script@ =~= old(script)@ + pipeline_script(
        config,
        layout,
        creations(old(script)@) as int,
    ));
}

/// Writes the commands that create the buffers of a swapchain image.
fn write_image_buffers(script: &mut Script, image_count: Ghost<int>, i: Ghost<int>)
    requires
        old(script).wf(),
        creations(old(script)@) == buffer_number(image_count@, i@, 0),
    ensures
        final(script).wf(),
        final(script)@ == old(script)@ + image_buffers_script(image_count@, i@),
        creations(final(script)@) == creations(old(script)@) + 4,
{
    let vertices = script.create(
        Command::CreateBuffer { size: VERTEX_BUFFER_BYTES, usage: BufferUsage::Vertex },
    );
    let vertex_memory = script.create(
        Command::AllocateForBuffer {
            buffer: vertices,
            location: MemoryLocation::CpuToGpu,
            linear: true,
        },
    );
    script.push(Command::BindBufferMemory { buffer: vertices, allocation: vertex_memory });
    let indices = script.create(
        Command::CreateBuffer { size: INDEX_BUFFER_BYTES, usage: BufferUsage::Index },
    );
    let index_memory = script.create(
        Command::AllocateForBuffer {
            buffer: indices,
            location: MemoryLocation::CpuToGpu,
            linear: true,
        },
    );
    script.push(Command::BindBufferMemory { buffer: indices, allocation: index_memory });
    assert(script@ =~= old(script)@ + image_buffers_script(image_count@, i@));
}

/// Every fourth handle from `first` on.
fn every_fourth(created: &Vec<u64>, first: usize, count: usize) -> (handles: Vec<u64>)
    requires
        count > 0 ==> first + 4 * (count - 1) < created@.len(),
    ensures
        handles@ == Seq::new(count as nat, |i: int| created@[first + 4 * i]),
{
    let length: usize = created.len();
    let mut handles: Vec<u64> = Vec::new();
    let mut i: usize = 0;
    while i < count
        invariant
            i <= count,
            count > 0 ==> first + 4 * (count - 1) < created@.len(),
            length == created@.len(),
            handles@.len() == i,
            forall|k: int| 0 <= k < i ==> handles@[k] == created@[first + 4 * k],
        decreases count - i,
    {
        handles.push(created[first + 4 * i]);
        i = i + 1;
    }
    assert(handles@ =~= Seq::new(count as nat, |i: int| created@[first + 4 * i]));
    handles
}

impl Integration {
    /// Starts the creation of a renderer for this many swapchain images.
    pub fn setup(image_count: usize) -> (task: Task)
        ensures
            task@.wf(),
            task@ == TaskModel::fresh(
                setup_script(image_count),
                Purpose::Setup { image_count },
                Seq::empty(),
            ),
    {
        let mut script = Script::new();
        let _pool = script.create(
            Command::CreateDescriptorPool {
                max_sets: POOL_CAPACITY,
                descriptor_count: POOL_CAPACITY,
                free_sets: true,
            },
        );
        let ghost start = script@;
        let mut i: usize = 0;
        while i < image_count
            invariant
                i <= image_count,
                script.wf(),
                creations(script@) == i + 1,
                script@ =~= start + Seq::new(i as nat, |k: int| texture_layout_command()),
            decreases image_count - i,
        {
            let _layout = script.create(
                Command::CreateDescriptorSetLayout {
                    binding: 0,
                    descriptor_count: 1,
                    stage: ShaderStage::Fragment,
                },
            );
            i = i + 1;
        }
        let layout = script.create(
            Command::CreatePipelineLayout {
                first_layout: 1,
                layout_count: image_count,
                push_stage: ShaderStage::Vertex,
                push_offset: 0,
                push_size: PUSH_CONSTANT_BYTES,
            },
        );
        write_pipeline(&mut script, setup_pipeline(), layout);
        let _sampler = script.create(Command::CreateSampler { config: sampler() });
        let ghost middle = script@;
        i = 0;
        assert(script@ =~= middle + buffers_script(image_count as int, 0));
        while i < image_count
            invariant
                i <= image_count,
                script.wf(),
                creations(script@) == buffer_number(image_count as int, i as int, 0),
                script@ == middle + buffers_script(image_count as int, i as nat),
            decreases image_count - i,
        {
            write_image_buffers(&mut script, Ghost(image_count as int), Ghost(i as int));
            assert(script@ =~= middle + buffers_script(image_count as int, (i + 1) as nat));
            i = i + 1;
        }
        let _user_layout = script.create(
            Command::CreateDescriptorSetLayout {
                binding: 0,
                descriptor_count: 1,
                stage: ShaderStage::Fragment,
            },
        );
        assert(script@ =~= setup_script(image_count));
        let data: Vec<u8> = Vec::new();
        Task::new(script, Purpose::Setup { image_count }, data)
    }

    /// The renderer that a finished setup leads to.
    pub fn new(
        context: egui::Context,
        physical_width: u32,
        physical_height: u32,
        queue_family: u32,
        setup: &Task,
    ) -> (result: Result<Integration, TaskError>)
        requires
            setup@.wf(),
        ensures
            match setup@.purpose {
                Purpose::Setup { image_count } => if setup@.finished() {
                    &&& result is Ok
                    &&& result->Ok_0@ == setup_model(
                        context,
                        physical_width,
                        physical_height,
                        queue_family,
                        image_count as int,
                        setup@.created,
                    )
                    &&& result->Ok_0@.wf()
                } else {
                    result == Err::<Integration, TaskError>(TaskError::Unfinished)
                },
                _ => result == Err::<Integration, TaskError>(TaskError::WrongPurpose),
            },
    {
        let image_count: usize = match setup.purpose() {
            Purpose::Setup { image_count } => image_count,
            _ => {
                return Err(TaskError::WrongPurpose);
            },
        };
        if !setup.is_finished() {
            return Err(TaskError::Unfinished);
        }
        proof {
            assert(setup@.script.take(setup@.position as int) =~= setup@.script);
        }
        let created = setup.created();
        let length: usize = created.len();
        assert(length == 5 * image_count + 7);
        let mut descriptor_set_layouts: Vec<u64> = Vec::new();
        let mut i: usize = 0;
        while i < image_count
            invariant
                i <= image_count,
                created@.len() == 5 * image_count + 7,
                descriptor_set_layouts@ =~= created@.subrange(1, i + 1),
                length == created@.len(),
            decreases image_count - i,
        {
            descriptor_set_layouts.push(created[i + 1]);
            i = i + 1;
        }
        let first: usize = image_count + 6;
        let integration = Integration {
            context,
            physical_width,
            physical_height,
            queue_family,
            descriptor_pool: created[0],
            descriptor_set_layouts,
            pipeline_layout: created[image_count + 1],
            pipeline: created[image_count + 4],
            sampler: created[image_count + 5],
            vertex_buffers: every_fourth(created, first, image_count),
            vertex_buffer_allocations: every_fourth(created, first + 1, image_count),
            index_buffers: every_fourth(created, first + 2, image_count),
            index_buffer_allocations: every_fourth(created, first + 3, image_count),
            textures: TextureTables::new(),
            user_texture_layout: created[length - 1],
            user_textures: Vec::new(),
        };
        proof {
            let model = setup_model(
                context,
                physical_width,
                physical_height,
                queue_family,
                image_count as int,
                created@,
            );
            assert(integration@.vertex_buffers =~= model.vertex_buffers);
            assert(integration@.vertex_buffer_allocations =~= model.vertex_buffer_allocations);
            assert(integration@.index_buffers =~= model.index_buffers);
            assert(integration@.index_buffer_allocations =~= model.index_buffer_allocations);
            assert(integration@.user_textures =~= model.user_textures);
            assert(integration@.textures.images.dom()
                =~= integration@.textures.descriptor_sets.dom());
            assert(integration@.textures.images.dom() =~= integration@.textures.allocations.dom());
            assert(integration@.textures.images.dom() =~= integration@.textures.views.dom());
        }
        Ok(integration)
    }
}

} // verus!
