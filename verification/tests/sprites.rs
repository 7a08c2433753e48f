use rose_ui::resources::{
    IdFile, TextureId, TextureSize, TsiSprite, UiResources, UiSprite, UiSpriteSheet, UiTexture, UvCoord, UvRect,
};
use rose_ui::sheet_type::{UiSpriteSheetMap, UiSpriteSheetType};
use rose_ui::loading::dialog_filenames;

fn sprite(texture_id: u16, left: i32, top: i32, right: i32, bottom: i32, name: &str) -> TsiSprite {
    TsiSprite { texture_id, left, top, right, bottom, name: name.to_string() }
}

fn texture(handle: u32, id: u64, size: Option<(u32, u32)>) -> UiTexture<u32> {
    UiTexture {
        handle,
        texture_id: TextureId::User(id),
        size: size.map(|(width, height)| TextureSize { width, height }),
    }
}

fn empty_sheets() -> UiSpriteSheetMap<Option<UiSpriteSheet<u32>>> {
    UiSpriteSheetMap {
        ui: None,
        ex_ui: None,
        item: None,
        skill: None,
        state_icon: None,
        item_socket_gem: None,
        item_socket_empty: None,
        minimap_arrow: None,
        clan_mark_background: None,
        clan_mark_foreground: None,
        target_mark: None,
    }
}

fn resources(sheets: UiSpriteSheetMap<Option<UiSpriteSheet<u32>>>) -> UiResources<u32, u32> {
    let handles: Vec<u32> = (0..dialog_filenames().len() as u32).map(|i| 1000 + i).collect();
    UiResources::new(sheets, handles)
}

fn ui_sheet() -> UiSpriteSheet<u32> {
    UiSpriteSheet {
        sprites: vec![
            sprite(0, 2, 4, 9, 7, "BUTTON"),
            sprite(1, 0, 0, 3, 3, "ICON"),
            sprite(5, 0, 0, 1, 1, "BROKEN"),
        ],
        loaded_textures: vec![texture(11, 101, Some((16, 8))), texture(12, 102, None)],
        sprites_by_name: Some(IdFile {
            entries: vec![("BUTTON".to_string(), 0), ("ICON".to_string(), 1), ("BROKEN".to_string(), 2), ("ICON".to_string(), 0)],
        }),
    }
}

fn coord(numerator: i64, denominator: i64) -> UvCoord {
    UvCoord { numerator, denominator }
}

#[test]
fn sprite_by_index_cuts_pixel_centres() {
    let mut sheets = empty_sheets();
    sheets.set(UiSpriteSheetType::Ui, Some(ui_sheet()));
    let res = resources(sheets);
    let s = res.get_sprite_by_index(UiSpriteSheetType::Ui, 0);
    assert_eq!(
        s,
        Some(UiSprite {
            texture_id: TextureId::User(101),
            uv: UvRect { min_x: coord(5, 32), min_y: coord(9, 16), max_x: coord(19, 32), max_y: coord(15, 16) },
            width: 8,
            height: 4,
        })
    );
}

#[test]
fn sprite_by_index_misses() {
    let mut sheets = empty_sheets();
    sheets.set(UiSpriteSheetType::Ui, Some(ui_sheet()));
    let res = resources(sheets);
    // texture size not known yet
    assert_eq!(res.get_sprite_by_index(UiSpriteSheetType::Ui, 1), None);
    // texture index past the textures
    assert_eq!(res.get_sprite_by_index(UiSpriteSheetType::Ui, 2), None);
    // sprite index past the sprites
    assert_eq!(res.get_sprite_by_index(UiSpriteSheetType::Ui, 3), None);
    // sheet not loaded
    assert_eq!(res.get_sprite_by_index(UiSpriteSheetType::Item, 0), None);
}

#[test]
fn sprite_by_name_goes_through_the_module_table() {
    let mut sheets = empty_sheets();
    sheets.set(UiSpriteSheetType::Ui, Some(ui_sheet()));
    sheets.set(UiSpriteSheetType::ClanMarkBackground, Some(ui_sheet()));
    let res = resources(sheets);
    assert_eq!(res.get_sprite(0, "BUTTON"), res.get_sprite_by_index(UiSpriteSheetType::Ui, 0));
    assert!(res.get_sprite(0, "BUTTON").is_some());
    assert_eq!(res.get_sprite(0, "MISSING"), None);
    // the first of two entries with one name wins
    assert_eq!(res.get_sprite(0, "ICON"), None);
    // module 2 names no sheet
    assert_eq!(res.get_sprite(2, "BUTTON"), None);
    // module 1 names the item sheet, which is not loaded
    assert_eq!(res.get_sprite(1, "BUTTON"), None);
    // module 7 names the clan mark background
    assert!(res.get_sprite(7, "BUTTON").is_some());
}

#[test]
fn sprite_image_by_name_and_index() {
    let mut sheets = empty_sheets();
    sheets.set(UiSpriteSheetType::Ui, Some(ui_sheet()));
    sheets.set(UiSpriteSheetType::ClanMarkBackground, Some(ui_sheet()));
    let res = resources(sheets);
    assert_eq!(res.get_sprite_image_by_index(UiSpriteSheetType::Ui, 0), Some(&11));
    // the image is known before its size
    assert_eq!(res.get_sprite_image_by_index(UiSpriteSheetType::Ui, 1), Some(&12));
    assert_eq!(res.get_sprite_image_by_index(UiSpriteSheetType::Ui, 2), None);
    assert_eq!(res.get_sprite_image(0, "ICON"), Some(&12));
    // the sprite found by a name is cut from the texture whose handle the image lookup gives
    assert_eq!(res.get_sprite_image(0, "BUTTON"), Some(&11));
    assert_eq!(res.get_sprite(0, "BUTTON").unwrap().texture_id, TextureId::User(101));
    // clan mark modules have no images
    assert_eq!(res.get_sprite_image(7, "BUTTON"), None);
    assert_eq!(res.get_sprite_image(9, "BUTTON"), None);
}

#[test]
fn whole_texture_sprites() {
    let mut sheets = empty_sheets();
    sheets.set(UiSpriteSheetType::ItemSocketEmpty, Some(UiSpriteSheet::single_texture(texture(3, 33, Some((40, 20))))));
    sheets.set(UiSpriteSheetType::MinimapArrow, Some(UiSpriteSheet::single_texture(texture(4, 44, None))));
    let res = resources(sheets);
    let full = UvRect { min_x: coord(0, 1), min_y: coord(0, 1), max_x: coord(1, 1), max_y: coord(1, 1) };
    assert_eq!(
        res.get_item_socket_sprite(),
        Some(UiSprite { texture_id: TextureId::User(33), uv: full, width: 40, height: 20 })
    );
    assert_eq!(res.get_minimap_player_sprite(), None);
    let none = resources(empty_sheets());
    assert_eq!(none.get_item_socket_sprite(), None);
    assert_eq!(none.get_minimap_player_sprite(), None);
}

#[test]
fn single_texture_sheet_has_one_sprite_at_the_origin() {
    let sheet = UiSpriteSheet::single_texture(texture(3, 33, Some((40, 20))));
    assert_eq!(sheet.sprites.len(), 1);
    let s = &sheet.sprites[0];
    assert_eq!((s.texture_id, s.left, s.top, s.right, s.bottom), (0, 0, 0, 0, 0));
    assert_eq!(s.name, "");
    assert!(sheet.sprites_by_name.is_none());
    assert_eq!(sheet.loaded_textures.len(), 1);
}

#[test]
fn id_file_lookup() {
    let ids = IdFile { entries: vec![("A".to_string(), 3), ("B".to_string(), 4), ("A".to_string(), 5)] };
    assert_eq!(ids.get("A"), Some(3));
    assert_eq!(ids.get("B"), Some(4));
    assert_eq!(ids.get("C"), None);
    assert_eq!(IdFile { entries: vec![] }.get("A"), None);
}
