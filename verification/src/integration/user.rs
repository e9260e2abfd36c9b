//! Textures that the user brings along.
use vstd::prelude::*;

use crate::command::{Command, Handle, Notice};
use crate::config::ImageLayout;
use crate::integration::{Integration, IntegrationModel};
use crate::integration::draw::slot_of;
use crate::script::Script;
use crate::task::{Purpose, Task, TaskError, TaskModel};
use crate::texture::TextureKey;

verus! {

#[derive(Clone, Copy, Debug, PartialEq, Eq, Structural)]
pub enum UserTextureError {
    /// No user texture ever had this id.
    NeverRegistered,
}

/// The slot is free, or just behind the last one, and none before it is free.
pub open spec fn is_first_free(slots: Seq<Option<u64>>, slot: int) -> bool {
    &&& 0 <= slot <= slots.len()
    &&& slot < slots.len() ==> slots[slot] is None
    &&& forall|k: int| 0 <= k < slot ==> (#[trigger] slots[k]) is Some
}

/// The slots with a descriptor set in this one.
pub open spec fn with_slot(
    slots: Seq<Option<u64>>,
    slot: int,
    descriptor_set: u64,
) -> Seq<Option<u64>> {
    if slot == slots.len() {
        slots.push(Some(descriptor_set))
    } else {
        slots.update(slot, Some(descriptor_set))
    }
}

/// The commands that create the descriptor set of a user texture.
pub open spec fn user_texture_script(
    pool: u64,
    layout: u64,
    image_view: u64,
    sampler: u64,
) -> Seq<Command> {
    seq![
        Command::AllocateDescriptorSet { pool: Handle::Known(pool), layout: Handle::Known(layout) },
        Command::UpdateDescriptorSet {
            descriptor_set: Handle::Created(0),
            binding: 0,
            array_element: 0,
            image_view: Handle::Known(image_view),
            image_layout: ImageLayout::ShaderReadOnly,
            sampler: Handle::Known(sampler),
        },
    ]
}

/// The commands that unregister a texture.
pub open spec fn unregister_script(model: IntegrationModel, texture: TextureKey) -> Seq<Command> {
    match texture {
        TextureKey::Managed(_) => seq![
            Command::Report { notice: Notice::TextureNotUnregistrable },
        ],
        TextureKey::User(id) => match model.user_textures[slot_of(id) as int] {
            Some(descriptor_set) => seq![
                Command::FreeDescriptorSet {
                    pool: Handle::Known(model.descriptor_pool),
                    descriptor_set: Handle::Known(descriptor_set),
                },
            ],
            None => seq![],
        },
    }
}

/// The slots without this texture.
pub open spec fn without_slot(
    slots: Seq<Option<u64>>,
    texture: TextureKey,
) -> Seq<Option<u64>> {
    match texture {
        TextureKey::Managed(_) => slots,
        TextureKey::User(id) => slots.update(slot_of(id) as int, None),
    }
}

/// No user texture ever had this id.
pub open spec fn never_registered(slots: Seq<Option<u64>>, texture: TextureKey) -> bool {
    texture is User && slot_of(texture->User_0) >= slots.len()
}

impl Integration {
    /// Starts to register a user texture: creates a descriptor set for its
    /// image view, whose image is in the shader read-only layout, and its
    /// sampler.
    pub fn prepare_user_texture(&self, image_view: u64, sampler: u64) -> (task: Task)
        ensures
            task@.wf(),
            task@ == TaskModel::fresh(
                user_texture_script(
                    self@.descriptor_pool,
                    self@.user_texture_layout,
                    image_view,
                    sampler,
                ),
                Purpose::UserTexture,
                Seq::empty(),
            ),
            task@.script[0] == (Command::AllocateDescriptorSet {
                pool: Handle::Known(self@.descriptor_pool),
                layout: Handle::Known(self@.user_texture_layout),
            }),
            task@.script[1] matches Command::UpdateDescriptorSet {
                image_view: shown,
                sampler: through,
                ..
            } && shown == Handle::Known(image_view) && through == Handle::Known(sampler),
    {
        let mut script = Script::new();
        let descriptor_set = script.create(
            Command::AllocateDescriptorSet {
                pool: Handle::Known(self.descriptor_pool),
                layout: Handle::Known(self.user_texture_layout),
            },
        );
        script.push(
            Command::UpdateDescriptorSet {
                descriptor_set,
                binding: 0,
                array_element: 0,
                image_view: Handle::Known(image_view),
                image_layout: ImageLayout::ShaderReadOnly,
                sampler: Handle::Known(sampler),
            },
        );
        assert(script@ =~= user_texture_script(
            self@.descriptor_pool,
            self@.user_texture_layout,
            image_view,
            sampler,
        ));
        let data: Vec<u8> = Vec::new();
        Task::new(script, Purpose::UserTexture, data)
    }

    /// Registers the user texture whose descriptor set the task created, in the
    /// first free slot, and returns the name by which meshes refer to it.
    pub fn register_user_texture(&mut self, task: &Task) -> (result: Result<TextureKey, TaskError>)
        requires
            task@.wf(),
        ensures
            if !(task@.purpose is UserTexture) {
                result == Err::<TextureKey, TaskError>(TaskError::WrongPurpose) && final(self)@
                    == old(self)@
            } else if !task@.finished() {
                result == Err::<TextureKey, TaskError>(TaskError::Unfinished) && final(self)@
                    == old(self)@
            } else {
                &&& result is Ok
                &&& result->Ok_0 is User
                &&& result->Ok_0->User_0 <= usize::MAX
                &&& is_first_free(old(self)@.user_textures, result->Ok_0->User_0 as int)
                &&& final(self)@ == (IntegrationModel {
                    user_textures: with_slot(
                        old(self)@.user_textures,
                        result->Ok_0->User_0 as int,
                        task@.created[0],
                    ),
                    ..old(self)@
                })
            },
    {
        match task.purpose() {
            Purpose::UserTexture => {},
            _ => {
                return Err(TaskError::WrongPurpose);
            },
        }
        if !task.is_finished() {
            return Err(TaskError::Unfinished);
        }
        proof {
            assert(task@.script.take(task@.position as int) =~= task@.script);
        }
        let descriptor_set: u64 = task.created()[0];
        let mut slot: usize = 0;
        while slot < self.user_textures.len() && self.user_textures[slot].is_some()
            invariant
                slot <= self@.user_textures.len(),
                forall|k: int| 0 <= k < slot ==> (#[trigger] self@.user_textures[k]) is Some,
            decreases self@.user_textures.len() - slot,
        {
            slot = slot + 1;
        }
        if slot == self.user_textures.len() {
            self.user_textures.push(Some(descriptor_set));
        } else {
            self.user_textures.set(slot, Some(descriptor_set));
        }
        Ok(TextureKey::User(slot as u64))
    }

    /// Unregisters a user texture. One that was unregistered before is left as
    /// it is, and a managed texture cannot be unregistered.
    pub fn unregister_user_texture(&mut self, texture: TextureKey) -> (result: Result<
        Task,
        UserTextureError,
    >)
        ensures
            if never_registered(old(self)@.user_textures, texture) {
                result == Err::<Task, UserTextureError>(UserTextureError::NeverRegistered)
                    && final(self)@ == old(self)@
            } else {
                &&& result is Ok
                &&& result->Ok_0@.wf()
                &&& result->Ok_0@ == TaskModel::fresh(
                    unregister_script(old(self)@, texture),
                    Purpose::Plain,
                    Seq::empty(),
                )
                &&& final(self)@ == (IntegrationModel {
                    user_textures: without_slot(old(self)@.user_textures, texture),
                    ..old(self)@
                })
            },
    {
        let mut script = Script::new();
        match texture {
            TextureKey::User(id) => {
                let slot: usize = id as usize;
                if slot >= self.user_textures.len() {
                    return Err(UserTextureError::NeverRegistered);
                }
                if let Some(descriptor_set) = self.user_textures[slot] {
                    script.push(
                        Command::FreeDescriptorSet {
                            pool: Handle::Known(self.descriptor_pool),
                            descriptor_set: Handle::Known(descriptor_set),
                        },
                    );
                    self.user_textures.set(slot, None);
                } else {
                    assert(self@.user_textures =~= without_slot(self@.user_textures, texture));
                }
            },
            TextureKey::Managed(_) => {
                script.push(Command::Report { notice: Notice::TextureNotUnregistrable });
            },
        }
        let data: Vec<u8> = Vec::new();
        Ok(Task::new(script, Purpose::Plain, data))
    }
}

} // verus!
