//! Of the textures that the user registers.
use vstd::prelude::*;

use crate::command::{Command, Handle, Notice};
use crate::integration::IntegrationModel;
use crate::integration::draw::{slot_of, verdict, MeshInfo, Primitive, Verdict};
use crate::integration::user::{
    is_first_free, never_registered, unregister_script, user_texture_script, with_slot,
    without_slot,
};
use crate::texture::TextureKey;

verus! {

/// The renderer with these slots.
pub open spec fn with_user_textures(
    model: IntegrationModel,
    slots: Seq<Option<u64>>,
) -> IntegrationModel {
    IntegrationModel { user_textures: slots, ..model }
}

/// There is exactly one first free slot.
pub proof fn law_first_free_slot_is_unique(slots: Seq<Option<u64>>, first: int, second: int)
    requires
        is_first_free(slots, first),
        is_first_free(slots, second),
    ensures
        first == second,
{
    if first < second {
        assert(slots[first] is Some);
    }
    if second < first {
        assert(slots[second] is Some);
    }
}

/// The id of a texture that was registered in this slot.
pub open spec fn is_name_of_slot(texture: TextureKey, slot: int) -> bool {
    texture is User && texture->User_0 == slot && slot <= usize::MAX
}

/// A mesh with a texture that was just registered is drawn with its descriptor
/// set.
pub proof fn law_registered_texture_is_drawn(
    model: IntegrationModel,
    texture: TextureKey,
    slot: int,
    descriptor_set: u64,
    mesh: MeshInfo,
)
    requires
        is_first_free(model.user_textures, slot),
        is_name_of_slot(texture, slot),
        mesh.texture == texture,
        mesh.vertex_count > 0,
        mesh.index_count > 0,
    ensures
        verdict(
            with_user_textures(model, with_slot(model.user_textures, slot, descriptor_set)),
            Primitive::Mesh(mesh),
        ) == Verdict::Draw(descriptor_set),
{
    assert(slot_of(texture->User_0) == slot);
}

/// Registering a texture changes nothing for those that are registered.
pub proof fn law_registering_keeps_the_others(
    slots: Seq<Option<u64>>,
    slot: int,
    descriptor_set: u64,
    other: int,
)
    requires
        is_first_free(slots, slot),
        0 <= other < slots.len(),
        slots[other] is Some,
    ensures
        other != slot,
        with_slot(slots, slot, descriptor_set)[other] == slots[other],
        slots.len() <= with_slot(slots, slot, descriptor_set).len(),
{
}

/// A mesh with a texture that was just unregistered is left out.
pub proof fn law_unregistered_texture_is_left_out(
    model: IntegrationModel,
    texture: TextureKey,
    mesh: MeshInfo,
)
    requires
        texture is User,
        !never_registered(model.user_textures, texture),
        mesh.texture == texture,
        mesh.vertex_count > 0,
        mesh.index_count > 0,
    ensures
        verdict(
            with_user_textures(model, without_slot(model.user_textures, texture)),
            Primitive::Mesh(mesh),
        ) == Verdict::Stale(texture),
{
}

/// Unregistering a texture changes nothing for the others, and forgets no slot.
pub proof fn law_unregistering_keeps_the_others(
    slots: Seq<Option<u64>>,
    texture: TextureKey,
    other: int,
)
    requires
        !never_registered(slots, texture),
        0 <= other < slots.len(),
        texture is User ==> other != slot_of(texture->User_0),
    ensures
        without_slot(slots, texture)[other] == slots[other],
        without_slot(slots, texture).len() == slots.len(),
{
}

/// The next texture to be registered takes the slot of one that was
/// unregistered, or one before it.
pub proof fn law_slots_are_used_again(slots: Seq<Option<u64>>, texture: TextureKey, slot: int)
    requires
        texture is User,
        !never_registered(slots, texture),
        is_first_free(without_slot(slots, texture), slot),
    ensures
        slot <= slot_of(texture->User_0),
        slot < slots.len(),
{
    let freed = slot_of(texture->User_0) as int;
    if slot > freed {
        assert(without_slot(slots, texture)[freed] is Some);
    }
}

/// Unregistering the texture that was just registered leaves the slots as they
/// were, but for the free slot that a new one leaves behind. The descriptor set
/// that registering created is the one that is freed, and the next texture to
/// be registered gets the same name again.
pub proof fn law_unregister_undoes_register(
    model: IntegrationModel,
    texture: TextureKey,
    slot: int,
    descriptor_set: u64,
)
    requires
        is_first_free(model.user_textures, slot),
        is_name_of_slot(texture, slot),
    ensures
        ({
            let slots = model.user_textures;
            let between = with_user_textures(model, with_slot(slots, slot, descriptor_set));
            let after = without_slot(between.user_textures, texture);
            &&& !never_registered(between.user_textures, texture)
            &&& unregister_script(between, texture) == seq![
                Command::FreeDescriptorSet {
                    pool: Handle::Known(model.descriptor_pool),
                    descriptor_set: Handle::Known(descriptor_set),
                },
            ]
            &&& after == (if slot < slots.len() {
                slots
            } else {
                slots.push(None)
            })
            &&& is_first_free(after, slot)
        }),
{
    assert(slot_of(texture->User_0) == slot);
    let slots = model.user_textures;
    let after = without_slot(with_slot(slots, slot, descriptor_set), texture);
    if slot < slots.len() {
        assert(after =~= slots);
    } else {
        assert(after =~= slots.push(None));
    }
}

/// The descriptor set of a texture is freed once: unregistering it again takes
/// no command and changes nothing.
pub proof fn law_unregister_twice_is_unregister_once(
    model: IntegrationModel,
    texture: TextureKey,
)
    requires
        texture is User,
        !never_registered(model.user_textures, texture),
    ensures
        without_slot(without_slot(model.user_textures, texture), texture) == without_slot(
            model.user_textures,
            texture,
        ),
        unregister_script(
            with_user_textures(model, without_slot(model.user_textures, texture)),
            texture,
        ) == Seq::<Command>::empty(),
{
    assert(without_slot(without_slot(model.user_textures, texture), texture) =~= without_slot(
        model.user_textures,
        texture,
    ));
}

/// A managed texture cannot be unregistered: nothing changes, and no object is
/// released.
pub proof fn law_managed_texture_is_not_unregistered(model: IntegrationModel, texture: TextureKey)
    requires
        texture is Managed,
    ensures
        !never_registered(model.user_textures, texture),
        without_slot(model.user_textures, texture) == model.user_textures,
        forall|i: int|
            0 <= i < unregister_script(model, texture).len() ==> (#[trigger] unregister_script(
                model,
                texture,
            )[i]).releases() is None,
{
}

/// A user texture gets a descriptor set, from the renderer's pool and after the
/// layout of user textures, that shows shaders the user's view through the user's
/// sampler.
pub proof fn law_user_texture_is_shown_to_shaders(
    pool: u64,
    layout: u64,
    image_view: u64,
    sampler: u64,
)
    ensures
        ({
            let script = user_texture_script(pool, layout, image_view, sampler);
            &&& script.len() == 2
            &&& script[0] == Command::AllocateDescriptorSet {
                pool: Handle::Known(pool),
                layout: Handle::Known(layout),
            }
            &&& script[1] matches Command::UpdateDescriptorSet {
                descriptor_set,
                binding,
                array_element,
                image_view: shown,
                image_layout,
                sampler: through,
            }
            &&& descriptor_set == Handle::Created(0)
            &&& binding == 0 && array_element == 0
            &&& shown == Handle::Known(image_view)
            &&& image_layout is ShaderReadOnly
            &&& through == Handle::Known(sampler)
        }),
{
}

/// The first free slot is the first without a descriptor set or, where all have
/// one, the one behind the last. Registering puts the descriptor set there and
/// changes no other slot.
pub proof fn law_registering_fills_the_first_free_slot(
    slots: Seq<Option<u64>>,
    slot: int,
    descriptor_set: u64,
    other: int,
)
    requires
        is_first_free(slots, slot),
    ensures
        0 <= slot <= slots.len(),
        slot < slots.len() ==> slots[slot] is None,
        0 <= other < slot ==> slots[other] is Some,
        ({
            let after = with_slot(slots, slot, descriptor_set);
            &&& after.len() == (if slot == slots.len() {
                slots.len() + 1
            } else {
                slots.len()
            })
            &&& after[slot] == Some(descriptor_set)
            &&& 0 <= other < slots.len() && other != slot ==> after[other] == slots[other]
        }),
{
}

/// Unregistering frees the descriptor set in the slot of a user texture, if it
/// has one, and leaves the slot empty. For a managed texture it only tells the
/// user. A user texture was never registered if there is no such slot.
pub proof fn law_unregistering_empties_the_slot(
    model: IntegrationModel,
    texture: TextureKey,
    id: u64,
)
    ensures
        never_registered(model.user_textures, TextureKey::User(id)) <==> (id as usize)
            >= model.user_textures.len(),
        (id as usize) < model.user_textures.len() ==> {
            let slot = (id as usize) as int;
            let after = without_slot(model.user_textures, TextureKey::User(id));
            &&& after.len() == model.user_textures.len()
            &&& after[slot] is None
            &&& unregister_script(model, TextureKey::User(id)) =~= (
            match model.user_textures[slot] {
                Some(descriptor_set) => seq![
                    Command::FreeDescriptorSet {
                        pool: Handle::Known(model.descriptor_pool),
                        descriptor_set: Handle::Known(descriptor_set),
                    },
                ],
                None => seq![],
            })
        },
        texture is Managed ==> {
            &&& !never_registered(model.user_textures, texture)
            &&& without_slot(model.user_textures, texture) == model.user_textures
            &&& unregister_script(model, texture) =~= seq![
                Command::Report { notice: Notice::TextureNotUnregistrable },
            ]
        },
{
}

} // verus!
