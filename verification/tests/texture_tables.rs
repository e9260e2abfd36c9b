use egui_ash_integration::config::Extent;
use egui_ash_integration::tables::{Removed, TextureTables};
use egui_ash_integration::texture::TextureKey;

const FONT: TextureKey = TextureKey::Managed(0);
const ICON: TextureKey = TextureKey::Managed(1);

fn extent(width: u32, height: u32) -> Extent {
    Extent { width, height, depth: 1 }
}

fn sorted(mut handles: Vec<u64>) -> Vec<u64> {
    handles.sort();
    handles
}

#[test]
fn new_tables_know_no_texture() {
    let tables = TextureTables::new();
    assert_eq!(tables.image(FONT), None);
    assert_eq!(tables.descriptor_set(FONT), None);
    assert_eq!(tables.extent(FONT), None);
}

#[test]
fn registered_textures_are_found_under_their_key() {
    let mut tables = TextureTables::new();
    tables.set_extent(FONT, extent(4, 2));
    tables.register(FONT, 10, 11, 12, 13);
    tables.register(ICON, 20, 21, 22, 23);
    assert_eq!(tables.image(FONT), Some(10));
    assert_eq!(tables.descriptor_set(FONT), Some(13));
    assert_eq!(tables.extent(FONT), Some(extent(4, 2)));
    assert_eq!(tables.image(ICON), Some(20));
    assert_eq!(tables.descriptor_set(ICON), Some(23));
    assert_eq!(tables.extent(ICON), None);
}

#[test]
fn managed_and_user_keys_with_one_number_differ() {
    let mut tables = TextureTables::new();
    tables.register(TextureKey::Managed(7), 10, 11, 12, 13);
    assert_eq!(tables.image(TextureKey::User(7)), None);
    tables.register(TextureKey::User(7), 20, 21, 22, 23);
    assert_eq!(tables.image(TextureKey::Managed(7)), Some(10));
    assert_eq!(tables.image(TextureKey::User(7)), Some(20));
}

#[test]
fn registering_again_replaces() {
    let mut tables = TextureTables::new();
    tables.register(FONT, 10, 11, 12, 13);
    tables.register(FONT, 20, 21, 22, 23);
    assert_eq!(tables.image(FONT), Some(20));
    assert_eq!(tables.descriptor_set(FONT), Some(23));
    let removed = tables.remove(FONT);
    assert_eq!(removed, Removed { image: Some(20), view: Some(22), allocation: Some(21) });
}

#[test]
fn the_extent_noted_last_counts() {
    let mut tables = TextureTables::new();
    tables.set_extent(FONT, extent(4, 2));
    tables.set_extent(FONT, extent(1, 1));
    assert_eq!(tables.extent(FONT), Some(extent(1, 1)));
}

#[test]
fn removing_gives_back_what_has_to_be_released() {
    let mut tables = TextureTables::new();
    tables.set_extent(FONT, extent(4, 2));
    tables.register(FONT, 10, 11, 12, 13);
    tables.register(ICON, 20, 21, 22, 23);
    let removed = tables.remove(FONT);
    assert_eq!(removed, Removed { image: Some(10), view: Some(12), allocation: Some(11) });
    assert_eq!(tables.image(FONT), None);
    assert_eq!(tables.descriptor_set(FONT), None);
    assert_eq!(tables.extent(FONT), None);
    assert_eq!(tables.image(ICON), Some(20));
}

#[test]
fn removing_twice_finds_nothing_the_second_time() {
    let mut tables = TextureTables::new();
    tables.register(FONT, 10, 11, 12, 13);
    tables.remove(FONT);
    let removed = tables.remove(FONT);
    assert_eq!(removed, Removed { image: None, view: None, allocation: None });
}

#[test]
fn draining_gives_back_everything_once() {
    let mut tables = TextureTables::new();
    tables.register(FONT, 10, 11, 12, 13);
    tables.register(ICON, 20, 21, 22, 23);
    let drained = tables.drain();
    assert_eq!(sorted(drained.images), vec![10, 20]);
    assert_eq!(sorted(drained.allocations), vec![11, 21]);
    assert_eq!(sorted(drained.views), vec![12, 22]);
    assert_eq!(tables.image(FONT), None);
    assert_eq!(tables.descriptor_set(FONT), Some(13));
    let again = tables.drain();
    assert_eq!(again.images, Vec::<u64>::new());
    assert_eq!(again.views, Vec::<u64>::new());
    assert_eq!(again.allocations, Vec::<u64>::new());
}
