//! What is known of each managed texture, in hash maps keyed by the toolkit's
//! texture ids.
use vstd::prelude::*;
use egui::epaint::ahash::{AHashMap, RandomState};

use crate::config::Extent;
use crate::texture::TextureKey;

verus! {

/// The hash map of the `ahash` crate.
#[verifier::external_type_specification]
#[verifier::external_body]
#[verifier::reject_recursive_types(K)]
#[verifier::reject_recursive_types(V)]
#[verifier::reject_recursive_types(S)]
pub struct ExAHashMap<K, V, S>(AHashMap<K, V, S>);

/// The hasher of that map.
#[verifier::external_type_specification]
#[verifier::external_body]
pub struct ExRandomState(RandomState);

/// The toolkit's texture id.
#[verifier::external_type_specification]
#[verifier::external_body]
pub struct ExTextureId(egui::TextureId);

/// The handles that a map holds, each under the key that names the same texture
/// as the toolkit's id.
pub uninterp spec fn handles_of(map: AHashMap<egui::TextureId, u64>) -> Map<TextureKey, u64>;

/// The extents that a map holds, each under the key that names the same texture
/// as the toolkit's id.
pub uninterp spec fn extents_of(map: AHashMap<egui::TextureId, Extent>) -> Map<TextureKey, Extent>;

/// `values` are the values of the map, each key's value once, in some order.
pub open spec fn lists_values(map: Map<TextureKey, u64>, values: Seq<u64>) -> bool {
    exists|keys: Seq<TextureKey>| #[trigger] lists_values_of(map, keys, values)
}

/// `values` are the values of the map in the order that `keys` lists its keys.
pub open spec fn lists_values_of(
    map: Map<TextureKey, u64>,
    keys: Seq<TextureKey>,
    values: Seq<u64>,
) -> bool {
    &&& keys.no_duplicates()
    &&& keys.len() == values.len()
    &&& forall|key: TextureKey| map.contains_key(key) <==> #[trigger] keys.contains(key)
    &&& forall|i: int| 0 <= i < keys.len() ==> #[trigger] values[i] == map[keys[i]]
}

/// Calls `AHashMap::new`: the map is empty.
#[verifier::external_body]
fn new_handles() -> (map: AHashMap<egui::TextureId, u64>)
    ensures
        (handles_of(map) == Map::<TextureKey, u64>::empty()),
{
    AHashMap::new()
}

/// Calls `AHashMap::insert`: the handle is under the key afterwards, in place
/// of any that was there, and nothing else changes.
#[verifier::external_body]
fn insert_handle(map: &mut AHashMap<egui::TextureId, u64>, key: TextureKey, handle: u64)
    ensures
        handles_of(*final(map)) == handles_of(*old(map)).insert(key, handle),
{
    let id = match key {
        TextureKey::Managed(n) => egui::TextureId::Managed(n),
        TextureKey::User(n) => egui::TextureId::User(n),
    };
    map.insert(id, handle);
}

/// Calls `AHashMap::get`: the handle under the key, if there is one.
#[verifier::external_body]
fn get_handle(map: &AHashMap<egui::TextureId, u64>, key: TextureKey) -> (handle: Option<u64>)
    ensures
        handle == (if handles_of(*map).contains_key(key) {
            Some(handles_of(*map)[key])
        } else {
            None
        }),
{
    let id = match key {
        TextureKey::Managed(n) => egui::TextureId::Managed(n),
        TextureKey::User(n) => egui::TextureId::User(n),
    };
    map.get(&id).copied()
}

/// Calls `HashMap::remove_entry`, which `AHashMap` dereferences to: the key is
/// gone afterwards, nothing else changes, and the handle that was under it is
/// returned.
#[verifier::external_body]
fn remove_handle(map: &mut AHashMap<egui::TextureId, u64>, key: TextureKey) -> (handle: Option<
    u64,
>)
    ensures
        handles_of(*final(map)) == handles_of(*old(map)).remove(key),
        handle == (if handles_of(*old(map)).contains_key(key) {
            Some(handles_of(*old(map))[key])
        } else {
            None
        }),
{
    let id = match key {
        TextureKey::Managed(n) => egui::TextureId::Managed(n),
        TextureKey::User(n) => egui::TextureId::User(n),
    };
    map.remove_entry(&id).map(|entry| entry.1)
}

/// Calls `HashMap::drain`, which `AHashMap` dereferences to: the map is empty
/// afterwards, and the handles it held are returned, in whatever order.
#[verifier::external_body]
fn drain_handles(map: &mut AHashMap<egui::TextureId, u64>) -> (handles: Vec<u64>)
    ensures
        (handles_of(*final(map)) == Map::<TextureKey, u64>::empty()),
        lists_values(handles_of(*old(map)), handles@),
{
    map.drain().map(|entry| entry.1).collect()
}

/// Calls `AHashMap::new`: the map is empty.
#[verifier::external_body]
fn new_extents() -> (map: AHashMap<egui::TextureId, Extent>)
    ensures
        (extents_of(map) == Map::<TextureKey, Extent>::empty()),
{
    AHashMap::new()
}

/// Calls `AHashMap::insert`: the extent is under the key afterwards, in place
/// of any that was there, and nothing else changes.
#[verifier::external_body]
fn insert_extent(map: &mut AHashMap<egui::TextureId, Extent>, key: TextureKey, extent: Extent)
    ensures
        extents_of(*final(map)) == extents_of(*old(map)).insert(key, extent),
{
    let id = match key {
        TextureKey::Managed(n) => egui::TextureId::Managed(n),
        TextureKey::User(n) => egui::TextureId::User(n),
    };
    map.insert(id, extent);
}

/// Calls `AHashMap::get`: the extent under the key, if there is one.
#[verifier::external_body]
fn get_extent(map: &AHashMap<egui::TextureId, Extent>, key: TextureKey) -> (extent: Option<Extent>)
    ensures
        extent == (if extents_of(*map).contains_key(key) {
            Some(extents_of(*map)[key])
        } else {
            None
        }),
{
    let id = match key {
        TextureKey::Managed(n) => egui::TextureId::Managed(n),
        TextureKey::User(n) => egui::TextureId::User(n),
    };
    map.get(&id).copied()
}

/// Calls `HashMap::remove_entry`, which `AHashMap` dereferences to: the key is
/// gone afterwards, and nothing else changes.
#[verifier::external_body]
fn remove_extent(map: &mut AHashMap<egui::TextureId, Extent>, key: TextureKey)
    ensures
        extents_of(*final(map)) == extents_of(*old(map)).remove(key),
{
    let id = match key {
        TextureKey::Managed(n) => egui::TextureId::Managed(n),
        TextureKey::User(n) => egui::TextureId::User(n),
    };
    map.remove_entry(&id);
}

/// The tables as mathematical maps.
#[verifier::ext_equal]
pub struct TextureModel {
    pub descriptor_sets: Map<TextureKey, u64>,
    pub images: Map<TextureKey, u64>,
    /// The extent of the image last uploaded for a texture, whole or patch.
    pub extents: Map<TextureKey, Extent>,
    pub allocations: Map<TextureKey, u64>,
    pub views: Map<TextureKey, u64>,
}

impl TextureModel {
    pub open spec fn empty() -> TextureModel {
        TextureModel {
            descriptor_sets: Map::empty(),
            images: Map::empty(),
            extents: Map::empty(),
            allocations: Map::empty(),
            views: Map::empty(),
        }
    }

    /// A texture has an image, an allocation, a view and a descriptor set, or
    /// none of them; one that has them has an extent.
    pub open spec fn consistent(self) -> bool {
        &&& self.images.dom() == self.descriptor_sets.dom()
        &&& self.images.dom() == self.allocations.dom()
        &&& self.images.dom() == self.views.dom()
        &&& self.images.dom().subset_of(self.extents.dom())
    }

    pub open spec fn with_extent(self, key: TextureKey, extent: Extent) -> TextureModel {
        TextureModel { extents: self.extents.insert(key, extent), ..self }
    }

    pub open spec fn with_texture(
        self,
        key: TextureKey,
        image: u64,
        allocation: u64,
        view: u64,
        descriptor_set: u64,
    ) -> TextureModel {
        TextureModel {
            descriptor_sets: self.descriptor_sets.insert(key, descriptor_set),
            images: self.images.insert(key, image),
            allocations: self.allocations.insert(key, allocation),
            views: self.views.insert(key, view),
            ..self
        }
    }

    pub open spec fn without(self, key: TextureKey) -> TextureModel {
        TextureModel {
            descriptor_sets: self.descriptor_sets.remove(key),
            images: self.images.remove(key),
            extents: self.extents.remove(key),
            allocations: self.allocations.remove(key),
            views: self.views.remove(key),
        }
    }
}

/// The value under the key, if there is one.
pub open spec fn lookup<V>(map: Map<TextureKey, V>, key: TextureKey) -> Option<V> {
    if map.contains_key(key) {
        Some(map[key])
    } else {
        None
    }
}

/// What the tables held of a texture that was removed from them.
#[derive(Clone, Copy, Debug, PartialEq, Eq)]
pub struct Removed {
    pub image: Option<u64>,
    pub view: Option<u64>,
    pub allocation: Option<u64>,
}

/// What the tables held of all textures.
pub struct Drained {
    pub images: Vec<u64>,
    pub views: Vec<u64>,
    pub allocations: Vec<u64>,
}

/// The tables of the managed textures.
pub struct TextureTables {
    descriptor_sets: AHashMap<egui::TextureId, u64>,
    images: AHashMap<egui::TextureId, u64>,
    extents: AHashMap<egui::TextureId, Extent>,
    allocations: AHashMap<egui::TextureId, u64>,
    views: AHashMap<egui::TextureId, u64>,
}

impl View for TextureTables {
    type V = TextureModel;

    closed spec fn view(&self) -> TextureModel {
        TextureModel {
            descriptor_sets: handles_of(self.descriptor_sets),
            images: handles_of(self.images),
            extents: extents_of(self.extents),
            allocations: handles_of(self.allocations),
            views: handles_of(self.views),
        }
    }
}

impl TextureTables {
    /// Tables without textures.
    pub fn new() -> (tables: TextureTables)
        ensures
            tables@ == TextureModel::empty(),
    {
        TextureTables {
            descriptor_sets: new_handles(),
            images: new_handles(),
            extents: new_extents(),
            allocations: new_handles(),
            views: new_handles(),
        }
    }

    /// The image of a texture.
    pub fn image(&self, key: TextureKey) -> (image: Option<u64>)
        ensures
            image == lookup(self@.images, key),
    {
        get_handle(&self.images, key)
    }

    /// The descriptor set of a texture.
    pub fn descriptor_set(&self, key: TextureKey) -> (descriptor_set: Option<u64>)
        ensures
            descriptor_set == lookup(self@.descriptor_sets, key),
    {
        get_handle(&self.descriptor_sets, key)
    }

    /// The extent of the image last uploaded for a texture.
    pub fn extent(&self, key: TextureKey) -> (extent: Option<Extent>)
        ensures
            extent == lookup(self@.extents, key),
    {
        get_extent(&self.extents, key)
    }

    /// Notes the extent of the image last uploaded for a texture.
    pub fn set_extent(&mut self, key: TextureKey, extent: Extent)
        ensures
            final(self)@ == old(self)@.with_extent(key, extent),
    {
        insert_extent(&mut self.extents, key, extent);
    }

    /// Makes these the objects of a texture.
    pub fn register(
        &mut self,
        key: TextureKey,
        image: u64,
        allocation: u64,
        view: u64,
        descriptor_set: u64,
    )
        ensures
            final(self)@ == old(self)@.with_texture(key, image, allocation, view, descriptor_set),
    {
        insert_handle(&mut self.images, key, image);
        insert_handle(&mut self.allocations, key, allocation);
        insert_handle(&mut self.views, key, view);
        insert_handle(&mut self.descriptor_sets, key, descriptor_set);
    }

    /// Removes a texture and returns what has to be released of it.
    pub fn remove(&mut self, key: TextureKey) -> (removed: Removed)
        ensures
            final(self)@ == old(self)@.without(key),
            removed.image == lookup(old(self)@.images, key),
            removed.view == lookup(old(self)@.views, key),
            removed.allocation == lookup(old(self)@.allocations, key),
    {
        let _ = remove_handle(&mut self.descriptor_sets, key);
        remove_extent(&mut self.extents, key);
        let image = remove_handle(&mut self.images, key);
        let view = remove_handle(&mut self.views, key);
        let allocation = remove_handle(&mut self.allocations, key);
        Removed { image, view, allocation }
    }

    /// Empties the tables of what has to be released, and returns it.
    pub fn drain(&mut self) -> (drained: Drained)
        ensures
            final(self)@ == (TextureModel {
                images: Map::empty(),
                views: Map::empty(),
                allocations: Map::empty(),
                ..old(self)@
            }),
            lists_values(old(self)@.images, drained.images@),
            lists_values(old(self)@.views, drained.views@),
            lists_values(old(self)@.allocations, drained.allocations@),
    {
        let images = drain_handles(&mut self.images);
        let views = drain_handles(&mut self.views);
        let allocations = drain_handles(&mut self.allocations);
        Drained { images, views, allocations }
    }
}

/// Uploading, patching and removing textures keep the tables in step with each
/// other.
pub proof fn law_tables_stay_consistent(
    tables: TextureModel,
    key: TextureKey,
    extent: Extent,
    image: u64,
    allocation: u64,
    view: u64,
    descriptor_set: u64,
)
    requires
        tables.consistent(),
    ensures
        TextureModel::empty().consistent(),
        tables.with_extent(key, extent).consistent(),
        tables.with_extent(key, extent).with_texture(
            key,
            image,
            allocation,
            view,
            descriptor_set,
        ).consistent(),
        tables.without(key).consistent(),
{
    let noted = tables.with_extent(key, extent);
    assert(noted.extents.dom() =~= tables.extents.dom().insert(key));
    let full = noted.with_texture(key, image, allocation, view, descriptor_set);
    assert(full.images.dom() =~= tables.images.dom().insert(key));
    assert(full.descriptor_sets.dom() =~= full.images.dom());
    assert(full.allocations.dom() =~= full.images.dom());
    assert(full.views.dom() =~= full.images.dom());
    let less = tables.without(key);
    assert(less.images.dom() =~= tables.images.dom().remove(key));
    assert(less.descriptor_sets.dom() =~= less.images.dom());
    assert(less.allocations.dom() =~= less.images.dom());
    assert(less.views.dom() =~= less.images.dom());
    assert(TextureModel::empty().images.dom() =~= TextureModel::empty().descriptor_sets.dom());
    assert(TextureModel::empty().images.dom() =~= TextureModel::empty().allocations.dom());
    assert(TextureModel::empty().images.dom() =~= TextureModel::empty().views.dom());
}

/// Removing a texture that was registered where there was none leaves the
/// tables as they were.
pub proof fn law_remove_undoes_register(
    tables: TextureModel,
    key: TextureKey,
    extent: Extent,
    image: u64,
    allocation: u64,
    view: u64,
    descriptor_set: u64,
)
    requires
        tables.consistent(),
        !tables.extents.contains_key(key),
    ensures
        tables.with_extent(key, extent).with_texture(
            key,
            image,
            allocation,
            view,
            descriptor_set,
        ).without(key) == tables,
{
    let full = tables.with_extent(key, extent).with_texture(
        key,
        image,
        allocation,
        view,
        descriptor_set,
    );
    assert(!tables.images.dom().contains(key));
    assert(!tables.views.dom().contains(key));
    assert(!tables.allocations.dom().contains(key));
    assert(!tables.descriptor_sets.dom().contains(key));
    assert(full.without(key) =~= tables);
}

/// Removing a texture again changes nothing, and finds nothing to release.
pub proof fn law_remove_twice_is_remove_once(tables: TextureModel, key: TextureKey)
    ensures
        tables.without(key).without(key) == tables.without(key),
        lookup(tables.without(key).images, key) is None,
        lookup(tables.without(key).views, key) is None,
        lookup(tables.without(key).allocations, key) is None,
        lookup(tables.without(key).descriptor_sets, key) is None,
{
    assert(tables.without(key).without(key) =~= tables.without(key));
}

/// A texture is found under its key with just the objects it was registered
/// with, and with the extent that was noted last.
pub proof fn law_registered_texture_is_found(
    tables: TextureModel,
    key: TextureKey,
    extent: Extent,
    image: u64,
    allocation: u64,
    view: u64,
    descriptor_set: u64,
)
    ensures
        ({
            let noted = tables.with_extent(key, extent);
            let full = noted.with_texture(key, image, allocation, view, descriptor_set);
            &&& lookup(noted.extents, key) == Some(extent)
            &&& lookup(full.images, key) == Some(image)
            &&& lookup(full.allocations, key) == Some(allocation)
            &&& lookup(full.views, key) == Some(view)
            &&& lookup(full.descriptor_sets, key) == Some(descriptor_set)
            &&& lookup(full.extents, key) == Some(extent)
        }),
{
}

/// Registering, patching and removing a texture changes nothing of another one,
/// and noting an extent nothing but the extent.
pub proof fn law_other_textures_are_unaffected(
    tables: TextureModel,
    key: TextureKey,
    other: TextureKey,
    extent: Extent,
    image: u64,
    allocation: u64,
    view: u64,
    descriptor_set: u64,
)
    requires
        key != other,
    ensures
        ({
            let noted = tables.with_extent(key, extent);
            let full = tables.with_texture(key, image, allocation, view, descriptor_set);
            let less = tables.without(key);
            &&& noted.images == tables.images && noted.views == tables.views
            &&& noted.allocations == tables.allocations
            &&& noted.descriptor_sets == tables.descriptor_sets
            &&& full.extents == tables.extents
            &&& forall|after: TextureModel| after == noted || after == full || after == less ==> {
                &&& #[trigger] lookup(after.images, other) == lookup(tables.images, other)
                &&& lookup(after.views, other) == lookup(tables.views, other)
                &&& lookup(after.allocations, other) == lookup(tables.allocations, other)
                &&& lookup(after.descriptor_sets, other) == lookup(tables.descriptor_sets, other)
                &&& lookup(after.extents, other) == lookup(tables.extents, other)
            }
        }),
{
}

/// A texture that is not there is not found.
pub proof fn law_lookup_finds_what_is_there<V>(map: Map<TextureKey, V>, key: TextureKey)
    ensures
        lookup(map, key) is Some <==> map.contains_key(key),
        map.contains_key(key) ==> lookup(map, key) == Some(map[key]),
        lookup(TextureModel::empty().images, key) is None,
        lookup(TextureModel::empty().views, key) is None,
        lookup(TextureModel::empty().allocations, key) is None,
        lookup(TextureModel::empty().descriptor_sets, key) is None,
        lookup(TextureModel::empty().extents, key) is None,
{
}

} // verus!
