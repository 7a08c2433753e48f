use rose_ui::sheet_type::{UiSpriteSheetMap, UiSpriteSheetType};
use rose_ui::loading::SheetSource;

#[test]
fn index_round_trip() {
    let all = UiSpriteSheetType::all();
    assert_eq!(all.len(), 11);
    for (i, t) in all.iter().enumerate() {
        assert_eq!(t.index(), i);
        assert_eq!(UiSpriteSheetType::from_index(i), Some(*t));
    }
    assert_eq!(UiSpriteSheetType::from_index(11), None);
    assert_eq!(UiSpriteSheetType::TargetMark.index(), 10);
}

#[test]
fn sprite_module_table() {
    let expected = [
        (0, Some(UiSpriteSheetType::Ui)),
        (1, Some(UiSpriteSheetType::Item)),
        (2, None),
        (3, Some(UiSpriteSheetType::ExUi)),
        (4, Some(UiSpriteSheetType::Skill)),
        (5, Some(UiSpriteSheetType::StateIcon)),
        (6, Some(UiSpriteSheetType::ItemSocketGem)),
        (7, Some(UiSpriteSheetType::ClanMarkBackground)),
        (8, Some(UiSpriteSheetType::ClanMarkForeground)),
        (9, Some(UiSpriteSheetType::TargetMark)),
        (10, None),
        (-1, None),
    ];
    for (module, sheet) in expected {
        assert_eq!(UiSpriteSheetType::for_sprite_module(module), sheet);
    }
}

#[test]
fn image_module_table() {
    let expected = [
        (0, Some(UiSpriteSheetType::Ui)),
        (1, Some(UiSpriteSheetType::Item)),
        (2, None),
        (3, Some(UiSpriteSheetType::ExUi)),
        (4, Some(UiSpriteSheetType::Skill)),
        (5, Some(UiSpriteSheetType::StateIcon)),
        (6, Some(UiSpriteSheetType::ItemSocketGem)),
        (7, None),
        (8, None),
        (9, Some(UiSpriteSheetType::TargetMark)),
        (10, None),
    ];
    for (module, sheet) in expected {
        assert_eq!(UiSpriteSheetType::for_image_module(module), sheet);
    }
}

#[test]
fn sheet_map_get_and_set() {
    let mut map = UiSpriteSheetMap {
        ui: 0,
        ex_ui: 1,
        item: 2,
        skill: 3,
        state_icon: 4,
        item_socket_gem: 5,
        item_socket_empty: 6,
        minimap_arrow: 7,
        clan_mark_background: 8,
        clan_mark_foreground: 9,
        target_mark: 10,
    };
    for t in UiSpriteSheetType::all() {
        assert_eq!(*map.get(t), t.index());
    }
    map.set(UiSpriteSheetType::Skill, 42);
    assert_eq!(*map.get(UiSpriteSheetType::Skill), 42);
    assert_eq!(map.skill, 42);
    assert_eq!(*map.get(UiSpriteSheetType::Item), 2);
}

#[test]
fn sheet_sources() {
    assert_eq!(
        UiSpriteSheetType::Ui.source(),
        SheetSource::SpriteSheet { tsi_path: "3DDATA/CONTROL/RES/UI.TSI", id_path: Some("3DDATA/CONTROL/XML/UI_STRID.ID") }
    );
    assert_eq!(
        UiSpriteSheetType::ExUi.source(),
        SheetSource::SpriteSheet { tsi_path: "3DDATA/CONTROL/RES/EXUI.TSI", id_path: Some("3DDATA/CONTROL/XML/EXUI_STRID.ID") }
    );
    assert_eq!(
        UiSpriteSheetType::ClanMarkForeground.source(),
        SheetSource::SpriteSheet { tsi_path: "3DDATA/CONTROL/RES/CLANCENTER.TSI", id_path: None }
    );
    assert_eq!(
        UiSpriteSheetType::Item.source(),
        SheetSource::SpriteSheet { tsi_path: "3DDATA/CONTROL/RES/ITEM1.TSI", id_path: None }
    );
    assert_eq!(
        UiSpriteSheetType::MinimapArrow.source(),
        SheetSource::SingleTexture { image_path: "3DDATA/CONTROL/RES/MINIMAP_ARROW.TGA" }
    );
    assert_eq!(
        UiSpriteSheetType::ItemSocketEmpty.source(),
        SheetSource::SingleTexture { image_path: "3DDATA/CONTROL/RES/SOKET.DDS" }
    );
}
