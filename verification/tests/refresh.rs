use rose_ui::loading::dialog_filenames;
use rose_ui::refresh::{update_ui_resources, DialogLoadState, SkillWidget, TextureLoadState};
use rose_ui::resources::{TextureId, TextureSize, TsiSprite, UiResources, UiSpriteSheet, UiTexture};
use rose_ui::sheet_type::{UiSpriteSheetMap, UiSpriteSheetType};

fn texture(handle: u32, size: Option<(u32, u32)>) -> UiTexture<u32> {
    UiTexture {
        handle,
        texture_id: TextureId::User(handle as u64),
        size: size.map(|(width, height)| TextureSize { width, height }),
    }
}

fn sheet(textures: Vec<UiTexture<u32>>) -> UiSpriteSheet<u32> {
    UiSpriteSheet {
        sprites: vec![TsiSprite { texture_id: 0, left: 0, top: 0, right: 1, bottom: 1, name: String::new() }],
        loaded_textures: textures,
        sprites_by_name: None,
    }
}

fn map<T>(f: impl Fn(UiSpriteSheetType) -> T) -> UiSpriteSheetMap<T> {
    UiSpriteSheetMap {
        ui: f(UiSpriteSheetType::Ui),
        ex_ui: f(UiSpriteSheetType::ExUi),
        item: f(UiSpriteSheetType::Item),
        skill: f(UiSpriteSheetType::Skill),
        state_icon: f(UiSpriteSheetType::StateIcon),
        item_socket_gem: f(UiSpriteSheetType::ItemSocketGem),
        item_socket_empty: f(UiSpriteSheetType::ItemSocketEmpty),
        minimap_arrow: f(UiSpriteSheetType::MinimapArrow),
        clan_mark_background: f(UiSpriteSheetType::ClanMarkBackground),
        clan_mark_foreground: f(UiSpriteSheetType::ClanMarkForeground),
        target_mark: f(UiSpriteSheetType::TargetMark),
    }
}

fn resources(ui: UiSpriteSheet<u32>) -> UiResources<u32, u32> {
    let mut sheets = map(|_| None);
    sheets.set(UiSpriteSheetType::Ui, Some(ui));
    UiResources::new(sheets, (0..dialog_filenames().len() as u32).collect())
}

fn size(width: u32, height: u32) -> TextureSize {
    TextureSize { width, height }
}

fn sizes(res: &UiResources<u32, u32>) -> Vec<Option<TextureSize>> {
    res.sprite_sheets.get(UiSpriteSheetType::Ui).as_ref().unwrap().loaded_textures.iter().map(|t| t.size).collect()
}

#[test]
fn sheet_textures_take_reported_sizes() {
    let mut res = resources(sheet(vec![texture(1, None), texture(2, None), texture(3, Some((5, 5))), texture(4, None)]));
    let mut states = map(|_| vec![]);
    states.set(
        UiSpriteSheetType::Ui,
        vec![
            TextureLoadState::Loaded(size(64, 32)),
            TextureLoadState::Failed,
            TextureLoadState::Loaded(size(9, 9)),
            TextureLoadState::Pending,
        ],
    );
    let mut widgets: Vec<SkillWidget<u32>> = vec![];
    let missing = update_ui_resources(&mut res, &states, &vec![], &mut widgets);
    assert!(missing.is_empty());
    // a known size stays; a failed image counts as size zero; a pending one stays unknown
    assert_eq!(sizes(&res), vec![Some(size(64, 32)), Some(size(0, 0)), Some(size(5, 5)), None]);
    assert!(!res.loaded_all_textures);

    states.set(UiSpriteSheetType::Ui, vec![TextureLoadState::Pending, TextureLoadState::Pending, TextureLoadState::Pending, TextureLoadState::Loaded(size(2, 4))]);
    update_ui_resources(&mut res, &states, &vec![], &mut widgets);
    assert_eq!(sizes(&res), vec![Some(size(64, 32)), Some(size(0, 0)), Some(size(5, 5)), Some(size(2, 4))]);
    assert!(res.loaded_all_textures);
}

#[test]
fn missing_reports_count_as_pending() {
    let mut res = resources(sheet(vec![texture(1, None)]));
    let states = map(|_| vec![]);
    update_ui_resources(&mut res, &states, &vec![], &mut vec![]);
    assert_eq!(sizes(&res), vec![None]);
    assert!(!res.loaded_all_textures);
}

#[test]
fn settled_resources_do_not_change() {
    let mut res = resources(sheet(vec![texture(1, None)]));
    res.loaded_all_textures = true;
    let mut states = map(|_| vec![]);
    states.set(UiSpriteSheetType::Ui, vec![TextureLoadState::Loaded(size(3, 3))]);
    let mut widgets = vec![SkillWidget { image: "A.DDS".to_string(), ui_texture: None, load_state: TextureLoadState::Pending }];
    let missing = update_ui_resources(&mut res, &states, &vec![DialogLoadState::Pending], &mut widgets);
    assert!(missing.is_empty());
    assert_eq!(sizes(&res), vec![None]);
    assert!(widgets[0].ui_texture.is_none());
    assert!(res.loaded_all_textures);
}

#[test]
fn skill_widgets_and_dialogs() {
    let mut res = resources(sheet(vec![texture(1, Some((1, 1)))]));
    let states = map(|_| vec![]);
    let mut widgets = vec![
        SkillWidget { image: "A.DDS".to_string(), ui_texture: None, load_state: TextureLoadState::Pending },
        SkillWidget { image: "B.DDS".to_string(), ui_texture: Some(texture(7, Some((3, 3)))), load_state: TextureLoadState::Loaded(size(8, 8)) },
        SkillWidget { image: "C.DDS".to_string(), ui_texture: None, load_state: TextureLoadState::Pending },
        SkillWidget { image: "D.DDS".to_string(), ui_texture: Some(texture(8, None)), load_state: TextureLoadState::Failed },
    ];
    let missing = update_ui_resources(&mut res, &states, &vec![DialogLoadState::Loaded, DialogLoadState::Failed], &mut widgets);
    assert_eq!(missing, vec![0, 2]);
    // a skill texture takes the reported size even when its size was known
    assert_eq!(widgets[1].ui_texture.as_ref().unwrap().size, Some(size(8, 8)));
    assert_eq!(widgets[3].ui_texture.as_ref().unwrap().size, Some(size(0, 0)));
    assert!(!res.loaded_all_textures);

    widgets[0].ui_texture = Some(texture(9, None));
    widgets[0].load_state = TextureLoadState::Loaded(size(2, 2));
    widgets[2].ui_texture = Some(texture(10, None));
    widgets[2].load_state = TextureLoadState::Loaded(size(4, 4));
    // a dialog that is still loading keeps the resources unsettled
    let missing = update_ui_resources(&mut res, &states, &vec![DialogLoadState::Pending], &mut widgets);
    assert!(missing.is_empty());
    assert!(!res.loaded_all_textures);
    let missing = update_ui_resources(&mut res, &states, &vec![DialogLoadState::Loaded, DialogLoadState::Failed], &mut widgets);
    assert!(missing.is_empty());
    assert!(res.loaded_all_textures);
    assert_eq!(widgets[2].ui_texture.as_ref().unwrap().size, Some(size(4, 4)));
}

#[test]
fn apply_load_state_reports_settlement() {
    let mut t = texture(1, None);
    assert!(!t.apply_load_state(TextureLoadState::Pending));
    assert_eq!(t.size, None);
    assert!(t.apply_load_state(TextureLoadState::Loaded(size(3, 4))));
    assert_eq!(t.size, Some(size(3, 4)));
    assert!(t.apply_load_state(TextureLoadState::Failed));
    assert_eq!(t.size, Some(size(0, 0)));
    let fresh: UiTexture<u32> = UiTexture::new(5, TextureId::Managed(2));
    assert_eq!(fresh.size, None);
    assert_eq!(fresh.handle, 5);
}

#[test]
fn refreshing_twice_with_the_same_reports_changes_nothing_more() {
    let mut res = resources(sheet(vec![texture(1, None), texture(2, None)]));
    let mut states = map(|_| vec![]);
    states.set(UiSpriteSheetType::Ui, vec![TextureLoadState::Loaded(size(4, 4)), TextureLoadState::Pending]);
    update_ui_resources(&mut res, &states, &vec![], &mut vec![]);
    let once = sizes(&res);
    update_ui_resources(&mut res, &states, &vec![], &mut vec![]);
    assert_eq!(sizes(&res), once);
    assert_eq!(once, vec![Some(size(4, 4)), None]);
}

#[test]
fn refresh_keeps_drawable_sprites() {
    let mut res = resources(sheet(vec![texture(1, Some((8, 8)))]));
    let before = res.get_sprite_by_index(UiSpriteSheetType::Ui, 0);
    assert!(before.is_some());
    let mut states = map(|_| vec![]);
    states.set(UiSpriteSheetType::Ui, vec![TextureLoadState::Loaded(size(16, 16))]);
    update_ui_resources(&mut res, &states, &vec![], &mut vec![]);
    assert_eq!(res.get_sprite_by_index(UiSpriteSheetType::Ui, 0), before);
    assert_eq!(res.get_sprite_image_by_index(UiSpriteSheetType::Ui, 0), Some(&1));
}
