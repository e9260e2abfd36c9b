//! Giving up objects: those of single textures, and all of them at the end.
use vstd::prelude::*;

use crate::command::{Command, Handle};
use crate::integration::{Integration, IntegrationModel};
use crate::script::{creations, Script};
use crate::tables::{lists_values, lookup, TextureModel};
use crate::task::{Purpose, Task, TaskModel};
use crate::texture::TextureKey;

verus! {

/// The command that destroys an image, if there is one.
pub open spec fn destroy_image(image: Option<u64>) -> Seq<Command> {
    match image {
        Some(raw) => seq![Command::DestroyImage { image: Handle::Known(raw) }],
        None => seq![],
    }
}

/// The command that destroys an image view, if there is one.
pub open spec fn destroy_view(view: Option<u64>) -> Seq<Command> {
    match view {
        Some(raw) => seq![Command::DestroyImageView { view: Handle::Known(raw) }],
        None => seq![],
    }
}

/// The command that frees an allocation, if there is one.
pub open spec fn free_allocation(allocation: Option<u64>) -> Seq<Command> {
    match allocation {
        Some(raw) => seq![Command::FreeAllocation { allocation: Handle::Known(raw) }],
        None => seq![],
    }
}

/// The commands that release what the tables hold of a texture. Its descriptor
/// set goes with the pool.
pub open spec fn free_commands(tables: TextureModel, key: TextureKey) -> Seq<Command> {
    destroy_image(lookup(tables.images, key)) + destroy_view(lookup(tables.views, key))
        + free_allocation(lookup(tables.allocations, key))
}

/// The tables without the first `n` of these textures.
pub open spec fn tables_without(
    tables: TextureModel,
    keys: Seq<TextureKey>,
    n: nat,
) -> TextureModel
    decreases n,
{
    if n == 0 {
        tables
    } else {
        tables_without(tables, keys, (n - 1) as nat).without(keys[n - 1])
    }
}

/// The commands that release the first `n` of these textures.
pub open spec fn free_script(tables: TextureModel, keys: Seq<TextureKey>, n: nat) -> Seq<Command>
    decreases n,
{
    if n == 0 {
        seq![]
    } else {
        free_script(tables, keys, (n - 1) as nat) + free_commands(
            tables_without(tables, keys, (n - 1) as nat),
            keys[n - 1],
        )
    }
}

/// Each buffer is destroyed, then its memory freed.
pub open spec fn destroy_buffers(buffers: Seq<u64>, allocations: Seq<u64>, n: nat) -> Seq<Command>
    decreases n,
{
    if n == 0 {
        seq![]
    } else {
        destroy_buffers(buffers, allocations, (n - 1) as nat) + seq![
            Command::DestroyBuffer { buffer: Handle::Known(buffers[n - 1]) },
            Command::FreeAllocation { allocation: Handle::Known(allocations[n - 1]) },
        ]
    }
}

pub open spec fn destroy_layouts(layouts: Seq<u64>) -> Seq<Command> {
    layouts.map_values(
        |raw: u64| Command::DestroyDescriptorSetLayout { layout: Handle::Known(raw) },
    )
}

pub open spec fn destroy_images(images: Seq<u64>) -> Seq<Command> {
    images.map_values(|raw: u64| Command::DestroyImage { image: Handle::Known(raw) })
}

pub open spec fn destroy_views(views: Seq<u64>) -> Seq<Command> {
    views.map_values(|raw: u64| Command::DestroyImageView { view: Handle::Known(raw) })
}

pub open spec fn free_allocations(allocations: Seq<u64>) -> Seq<Command> {
    allocations.map_values(|raw: u64| Command::FreeAllocation { allocation: Handle::Known(raw) })
}

/// The number of buffers that are released: those that come with their memory.
pub open spec fn paired(buffers: Seq<u64>, allocations: Seq<u64>) -> nat {
    if buffers.len() <= allocations.len() {
        buffers.len()
    } else {
        allocations.len()
    }
}

/// The commands that release everything, the textures' objects in the order
/// given.
pub open spec fn destroy_script(
    model: IntegrationModel,
    images: Seq<u64>,
    views: Seq<u64>,
    allocations: Seq<u64>,
) -> Seq<Command> {
    seq![
        Command::DestroyDescriptorSetLayout { layout: Handle::Known(model.user_texture_layout) },
    ] + destroy_buffers(
        model.index_buffers,
        model.index_buffer_allocations,
        paired(model.index_buffers, model.index_buffer_allocations),
    ) + destroy_buffers(
        model.vertex_buffers,
        model.vertex_buffer_allocations,
        paired(model.vertex_buffers, model.vertex_buffer_allocations),
    ) + seq![
        Command::DestroySampler { sampler: Handle::Known(model.sampler) },
        Command::DestroyPipeline { pipeline: Handle::Known(model.pipeline) },
        Command::DestroyPipelineLayout { layout: Handle::Known(model.pipeline_layout) },
    ] + destroy_layouts(model.descriptor_set_layouts) + seq![
        Command::DestroyDescriptorPool { pool: Handle::Known(model.descriptor_pool) },
    ] + destroy_images(images) + destroy_views(views) + free_allocations(allocations)
}

/// The renderer after it gave up everything: buffers and texture objects are
/// forgotten, all else still stands in it, though it is gone from the device.
pub open spec fn destroyed(model: IntegrationModel) -> IntegrationModel {
    IntegrationModel {
        vertex_buffers: Seq::empty(),
        vertex_buffer_allocations: Seq::empty(),
        index_buffers: Seq::empty(),
        index_buffer_allocations: Seq::empty(),
        textures: TextureModel {
            images: Map::empty(),
            views: Map::empty(),
            allocations: Map::empty(),
            ..model.textures
        },
        ..model
    }
}

/// Writes the commands that destroy buffers and free their memory.
fn write_destroy_buffers(script: &mut Script, buffers: &Vec<u64>, allocations: &Vec<u64>)
    requires
        old(script).wf(),
    ensures
        final(script).wf(),
        final(script)@ == old(script)@ + destroy_buffers(
            buffers@,
            allocations@,
            paired(buffers@, allocations@),
        ),
        creations(final(script)@) == creations(old(script)@),
{
    let ghost start = script@;
    let mut i: usize = 0;
    assert(script@ =~= start + destroy_buffers(buffers@, allocations@, 0));
    while i < buffers.len() && i < allocations.len()
        invariant
            i <= buffers@.len(),
            i <= allocations@.len(),
            script.wf(),
            creations(script@) == creations(start),
            script@ == start + destroy_buffers(buffers@, allocations@, i as nat),
        decreases buffers@.len() - i,
    {
        script.push(Command::DestroyBuffer { buffer: Handle::Known(buffers[i]) });
        script.push(Command::FreeAllocation { allocation: Handle::Known(allocations[i]) });
        assert(script@ =~= start + destroy_buffers(buffers@, allocations@, (i + 1) as nat));
        i = i + 1;
    }
}

/// Writes the commands that destroy descriptor set layouts.
fn write_destroy_layouts(script: &mut Script, layouts: &Vec<u64>)
    requires
        old(script).wf(),
    ensures
        final(script).wf(),
        final(script)@ == old(script)@ + destroy_layouts(layouts@),
        creations(final(script)@) == creations(old(script)@),
{
    let ghost start = script@;
    let mut i: usize = 0;
    while i < layouts.len()
        invariant
            i <= layouts@.len(),
            script.wf(),
            creations(script@) == creations(start),
            script@ =~= start + destroy_layouts(layouts@.take(i as int)),
        decreases layouts@.len() - i,
    {
        script.push(Command::DestroyDescriptorSetLayout { layout: Handle::Known(layouts[i]) });
        i = i + 1;
    }
    assert(layouts@.take(i as int) =~= layouts@);
}

/// Writes the commands that destroy images.
fn write_destroy_images(script: &mut Script, images: &Vec<u64>)
    requires
        old(script).wf(),
    ensures
        final(script).wf(),
        final(script)@ == old(script)@ + destroy_images(images@),
        creations(final(script)@) == creations(old(script)@),
{
    let ghost start = script@;
    let mut i: usize = 0;
    while i < images.len()
        invariant
            i <= images@.len(),
            script.wf(),
            creations(script@) == creations(start),
            script@ =~= start + destroy_images(images@.take(i as int)),
        decreases images@.len() - i,
    {
        script.push(Command::DestroyImage { image: Handle::Known(images[i]) });
        i = i + 1;
    }
    assert(images@.take(i as int) =~= images@);
}

/// Writes the commands that destroy image views.
fn write_destroy_views(script: &mut Script, views: &Vec<u64>)
    requires
        old(script).wf(),
    ensures
        final(script).wf(),
        final(script)@ == old(script)@ + destroy_views(views@),
        creations(final(script)@) == creations(old(script)@),
{
    let ghost start = script@;
    let mut i: usize = 0;
    while i < views.len()
        invariant
            i <= views@.len(),
            script.wf(),
            creations(script@) == creations(start),
            script@ =~= start + destroy_views(views@.take(i as int)),
        decreases views@.len() - i,
    {
        script.push(Command::DestroyImageView { view: Handle::Known(views[i]) });
        i = i + 1;
    }
    assert(views@.take(i as int) =~= views@);
}

/// Writes the commands that free allocations.
fn write_free_allocations(script: &mut Script, allocations: &Vec<u64>)
    requires
        old(script).wf(),
    ensures
        final(script).wf(),
        final(script)@ == old(script)@ + free_allocations(allocations@),
        creations(final(script)@) == creations(old(script)@),
{
    let ghost start = script@;
    let mut i: usize = 0;
    while i < allocations.len()
        invariant
            i <= allocations@.len(),
            script.wf(),
            creations(script@) == creations(start),
            script@ =~= start + free_allocations(allocations@.take(i as int)),
        decreases allocations@.len() - i,
    {
        script.push(Command::FreeAllocation { allocation: Handle::Known(allocations[i]) });
        i = i + 1;
    }
    assert(allocations@.take(i as int) =~= allocations@);
}

impl Integration {
    /// Gives up textures. One that is not there, or that stands in the list a
    /// second time, takes no command.
    pub fn free_textures(&mut self, keys: &Vec<TextureKey>) -> (task: Task)
        ensures
            task@.wf(),
            task@ == TaskModel::fresh(
                free_script(old(self)@.textures, keys@, keys@.len()),
                Purpose::Plain,
                Seq::empty(),
            ),
            final(self)@ == (IntegrationModel {
                textures: tables_without(old(self)@.textures, keys@, keys@.len()),
                ..old(self)@
            }),
    {
        let ghost tables = self@.textures;
        let mut script = Script::new();
        let mut i: usize = 0;
        while i < keys.len()
            invariant
                i <= keys@.len(),
                script.wf(),
                creations(script@) == 0,
                script@ == free_script(tables, keys@, i as nat),
                self@ == (IntegrationModel {
                    textures: tables_without(tables, keys@, i as nat),
                    ..old(self)@
                }),
            decreases keys@.len() - i,
        {
            let ghost before = script@;
            let ghost here = self@.textures;
            let removed = self.textures.remove(keys[i]);
            if let Some(image) = removed.image {
                script.push(Command::DestroyImage { image: Handle::Known(image) });
            }
            if let Some(view) = removed.view {
                script.push(Command::DestroyImageView { view: Handle::Known(view) });
            }
            if let Some(allocation) = removed.allocation {
                script.push(Command::FreeAllocation { allocation: Handle::Known(allocation) });
            }
            assert(script@ =~= before + free_commands(here, keys@[i as int]));
            i = i + 1;
        }
        let data: Vec<u8> = Vec::new();
        Task::new(script, Purpose::Plain, data)
    }

    /// Gives up everything. The objects of the textures go in no particular
    /// order, and descriptor sets go with their pool.
    pub fn destroy(&mut self) -> (task: Task)
        ensures
            task@.wf(),
            final(self)@ == destroyed(old(self)@),
            exists|images: Seq<u64>, views: Seq<u64>, allocations: Seq<u64>|
                {
                    &&& lists_values(old(self)@.textures.images, images)
                    &&& lists_values(old(self)@.textures.views, views)
                    &&& lists_values(old(self)@.textures.allocations, allocations)
                    &&& task@ == #[trigger] destroy_task(old(self)@, images, views, allocations)
                },
    {
        let ghost model = self@;
        let mut script = Script::new();
        script.push(
            Command::DestroyDescriptorSetLayout {
                layout: Handle::Known(self.user_texture_layout),
            },
        );
        write_destroy_buffers(&mut script, &self.index_buffers, &self.index_buffer_allocations);
        self.index_buffers.clear();
        self.index_buffer_allocations.clear();
        write_destroy_buffers(&mut script, &self.vertex_buffers, &self.vertex_buffer_allocations);
        self.vertex_buffers.clear();
        self.vertex_buffer_allocations.clear();
        script.push(Command::DestroySampler { sampler: Handle::Known(self.sampler) });
        script.push(Command::DestroyPipeline { pipeline: Handle::Known(self.pipeline) });
        script.push(
            Command::DestroyPipelineLayout { layout: Handle::Known(self.pipeline_layout) },
        );
        write_destroy_layouts(&mut script, &self.descriptor_set_layouts);
        script.push(Command::DestroyDescriptorPool { pool: Handle::Known(self.descriptor_pool) });
        let drained = self.textures.drain();
        write_destroy_images(&mut script, &drained.images);
        write_destroy_views(&mut script, &drained.views);
        write_free_allocations(&mut script, &drained.allocations);
        assert(script@ =~= destroy_script(
            model,
            drained.images@,
            drained.views@,
            drained.allocations@,
        ));
        let data: Vec<u8> = Vec::new();
        let task = Task::new(script, Purpose::Plain, data);
        assert(task@ == destroy_task(
            model,
            drained.images@,
            drained.views@,
            drained.allocations@,
        ));
        task
    }
}

/// The task that releases everything, the textures' objects in the order given.
pub open spec fn destroy_task(
    model: IntegrationModel,
    images: Seq<u64>,
    views: Seq<u64>,
    allocations: Seq<u64>,
) -> TaskModel {
    TaskModel::fresh(
        destroy_script(model, images, views, allocations),
        Purpose::Plain,
        Seq::empty(),
    )
}

} // verus!
