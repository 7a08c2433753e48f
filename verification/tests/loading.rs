use rose_ui::loading::{dialog_asset_path, dialog_filenames, sprite_sheet_texture_paths, ui_texture_path};
use rose_ui::resources::{UiResources, UiSpriteSheet};
use rose_ui::sheet_type::UiSpriteSheetMap;

fn empty_sheets() -> UiSpriteSheetMap<Option<UiSpriteSheet<u32>>> {
    UiSpriteSheetMap {
        ui: None,
        ex_ui: None,
        item: None,
        skill: None,
        state_icon: None,
        item_socket_gem: None,
        item_socket_empty: None,
        minimap_arrow: None,
        clan_mark_background: None,
        clan_mark_foreground: None,
        target_mark: None,
    }
}

#[test]
fn asset_paths() {
    assert_eq!(ui_texture_path("UI1.DDS"), "3DDATA/CONTROL/RES/UI1.DDS");
    assert_eq!(ui_texture_path(""), "3DDATA/CONTROL/RES/");
    assert_eq!(dialog_asset_path("DLGBANK.XML"), "3DDATA/CONTROL/XML/DLGBANK.XML");
    let paths = sprite_sheet_texture_paths(&vec!["A.DDS".to_string(), "B.DDS".to_string()]);
    assert_eq!(paths, vec!["3DDATA/CONTROL/RES/A.DDS".to_string(), "3DDATA/CONTROL/RES/B.DDS".to_string()]);
    assert!(sprite_sheet_texture_paths(&vec![]).is_empty());
}

#[test]
fn dialog_file_list() {
    let names = dialog_filenames();
    assert_eq!(names.len(), 54);
    assert_eq!(names[0], "DELIVERYSTORE.XML");
    assert_eq!(names[4], "DLGBANK.XML");
    assert_eq!(names[53], "SKILLTREE_SOLDIER.XML");
    let mut sorted = names.clone();
    sorted.sort();
    sorted.dedup();
    assert_eq!(sorted.len(), 54);
}

#[test]
fn dialog_roles_take_their_files() {
    let names = dialog_filenames();
    let handles: Vec<u32> = (0..names.len() as u32).collect();
    let res: UiResources<u32, u32> = UiResources::new(empty_sheets(), handles);
    let index_of = |name: &str| names.iter().position(|n| *n == name).unwrap() as u32;
    assert!(!res.loaded_all_textures);
    assert_eq!(res.dialog_login, index_of("DLGLOGIN.XML"));
    assert_eq!(res.dialog_bank, 4);
    assert_eq!(res.dialog_character_info, index_of("DLGAVATA.XML"));
    assert_eq!(res.dialog_chatbox, index_of("DLGCHAT.XML"));
    assert_eq!(res.dialog_clan, index_of("DLGCLAN.XML"));
    assert_eq!(res.dialog_create_avatar, index_of("DLGCREATEAVATAR.XML"));
    assert_eq!(res.dialog_create_clan, index_of("DLGORGANIZECLAN.XML"));
    assert_eq!(res.dialog_game_menu, index_of("DLGMENU.XML"));
    assert_eq!(res.dialog_message_box, index_of("MSGBOX.XML"));
    assert_eq!(res.dialog_number_input, index_of("DLGNINPUT.XML"));
    assert_eq!(res.dialog_minimap, index_of("DLGMINIMAP.XML"));
    assert_eq!(res.dialog_npc_store, index_of("DLGSTORE.XML"));
    assert_eq!(res.dialog_npc_transaction, index_of("DLGDEAL.XML"));
    assert_eq!(res.dialog_party, index_of("DLGPARTY.XML"));
    assert_eq!(res.dialog_party_option, index_of("DLGPARTYOPTION.XML"));
    assert_eq!(res.dialog_personal_store, index_of("DLGAVATARSTORE.XML"));
    assert_eq!(res.dialog_player_info, index_of("DLGINFO.XML"));
    assert_eq!(res.dialog_respawn, index_of("DLGRESTART.XML"));
    assert_eq!(res.dialog_select_server, index_of("DLGSELSVR.XML"));
    assert_eq!(res.dialog_skill_list, index_of("DLGSKILL.XML"));
    assert_eq!(res.dialog_skill_tree, index_of("DLGSKILLTREE.XML"));
    assert_eq!(res.skill_tree_dealer, index_of("SKILLTREE_DEALER.XML"));
    assert_eq!(res.skill_tree_hawker, index_of("SKILLTREE_HOWKER.XML"));
    assert_eq!(res.skill_tree_muse, index_of("SKILLTREE_MUSE.XML"));
    assert_eq!(res.skill_tree_soldier, 53);
    assert_eq!(res.dialog_files.len(), 54);
    for (i, (name, handle)) in res.dialog_files.iter().enumerate() {
        assert_eq!(name, names[i]);
        assert_eq!(*handle, i as u32);
    }
}
