use vstd::prelude::*;

use crate::resources::{TsiSprite, UiResources, UiSpriteSheet, UiTexture};
use crate::sheet_type::{UiSpriteSheetMap, UiSpriteSheetType};

verus! {

/// Where the asset paths of the user interface start.
pub open spec fn texture_dir() -> Seq<char> {
    "3DDATA/CONTROL/RES/"@
}

/// Where the dialog layout files live.
pub open spec fn dialog_dir() -> Seq<char> {
    "3DDATA/CONTROL/XML/"@
}

/// The asset path of an image of the user interface.
pub fn ui_texture_path(filename: &str) -> (path: String)
    ensures
        path@ == texture_dir() + filename@,
        path@ == "3DDATA/CONTROL/RES/"@ + filename@,
{
    String::from_str("3DDATA/CONTROL/RES/").concat(filename)
}

/// The asset path of a dialog layout file.
pub fn dialog_asset_path(filename: &str) -> (path: String)
    ensures
        path@ == dialog_dir() + filename@,
        path@ == "3DDATA/CONTROL/XML/"@ + filename@,
{
    String::from_str("3DDATA/CONTROL/XML/").concat(filename)
}

/// The asset paths of the textures that a sprite sheet file lists, in order.
pub fn sprite_sheet_texture_paths(texture_filenames: &Vec<String>) -> (paths: Vec<String>)
    ensures
        paths@.len() == texture_filenames@.len(),
        forall|i: int| #![trigger paths@[i]]
            0 <= i < paths@.len() ==> paths@[i]@ == texture_dir() + texture_filenames@[i]@,
{
        let mut paths: Vec<String> = Vec::new();
        let mut i: usize = 0;
    while i < texture_filenames.len()
        invariant
            0 <= i <= texture_filenames@.len(),
            paths@.len() == i,
            forall|j: int| #![trigger paths@[j]] 0 <= j < i ==> paths@[j]@ == texture_dir() + texture_filenames@[j]@,
        decreases texture_filenames@.len() - i,
    {
        paths.push(ui_texture_path(texture_filenames[i].as_str()));
        i = i + 1;
    }
    paths
}

/// Where the sprites of a sheet come from.
#[derive(Clone, Copy, Debug, PartialEq, Eq)]
pub enum SheetSource {
    /// A sprite sheet file, with the name table of its sprites if it has one.
    SpriteSheet { tsi_path: &'static str, id_path: Option<&'static str> },
    /// A single image, drawn whole.
    SingleTexture { image_path: &'static str },
}

/// The paths of a sheet source as character sequences.
pub enum SheetSourcePaths {
    SpriteSheet { tsi_path: Seq<char>, id_path: Option<Seq<char>> },
    SingleTexture { image_path: Seq<char> },
}

impl View for SheetSource {
    type V = SheetSourcePaths;

    open spec fn view(&self) -> SheetSourcePaths {
        match *self {
            SheetSource::SpriteSheet { tsi_path, id_path } => SheetSourcePaths::SpriteSheet {
                tsi_path: tsi_path@,
                id_path: match id_path {
                    Some(p) => Some(p@),
                    None => None,
                },
            },
            SheetSource::SingleTexture { image_path } => SheetSourcePaths::SingleTexture { image_path: image_path@ },
        }
    }
}

/// A sprite sheet file without a name table.
pub open spec fn unnamed_sheet(tsi_path: Seq<char>) -> SheetSourcePaths {
    SheetSourcePaths::SpriteSheet { tsi_path, id_path: None }
}

/// Where the sprites of each sheet come from.
pub open spec fn sheet_source_paths(t: UiSpriteSheetType) -> SheetSourcePaths {
    match t {
        UiSpriteSheetType::Ui => SheetSourcePaths::SpriteSheet {
            tsi_path: "3DDATA/CONTROL/RES/UI.TSI"@,
            id_path: Some("3DDATA/CONTROL/XML/UI_STRID.ID"@),
        },
        UiSpriteSheetType::ExUi => SheetSourcePaths::SpriteSheet {
            tsi_path: "3DDATA/CONTROL/RES/EXUI.TSI"@,
            id_path: Some("3DDATA/CONTROL/XML/EXUI_STRID.ID"@),
        },
        UiSpriteSheetType::StateIcon => unnamed_sheet("3DDATA/CONTROL/RES/STATEICON.TSI"@),
        UiSpriteSheetType::Skill => unnamed_sheet("3DDATA/CONTROL/RES/SKILLICON.TSI"@),
        UiSpriteSheetType::Item => unnamed_sheet("3DDATA/CONTROL/RES/ITEM1.TSI"@),
        UiSpriteSheetType::ItemSocketGem => unnamed_sheet("3DDATA/CONTROL/RES/SOKETJAM.TSI"@),
        UiSpriteSheetType::TargetMark => unnamed_sheet("3DDATA/CONTROL/RES/TARGETMARK.TSI"@),
        UiSpriteSheetType::ClanMarkForeground => unnamed_sheet("3DDATA/CONTROL/RES/CLANCENTER.TSI"@),
        UiSpriteSheetType::ClanMarkBackground => unnamed_sheet("3DDATA/CONTROL/RES/CLANBACK.TSI"@),
        UiSpriteSheetType::MinimapArrow => SheetSourcePaths::SingleTexture {
            image_path: "3DDATA/CONTROL/RES/MINIMAP_ARROW.TGA"@,
        },
        UiSpriteSheetType::ItemSocketEmpty => SheetSourcePaths::SingleTexture {
            image_path: "3DDATA/CONTROL/RES/SOKET.DDS"@,
        },
    }
}

/// The file that a sheet's sprites are read from: its sprite sheet file, or
/// its single image.
pub open spec fn source_file(source: SheetSourcePaths) -> Seq<char> {
    match source {
        SheetSourcePaths::SpriteSheet { tsi_path, .. } => tsi_path,
        SheetSourcePaths::SingleTexture { image_path } => image_path,
    }
}

/// The name table of a sheet, if it has one.
pub open spec fn id_file(source: SheetSourcePaths) -> Option<Seq<char>> {
    match source {
        SheetSourcePaths::SpriteSheet { id_path, .. } => id_path,
        SheetSourcePaths::SingleTexture { .. } => None,
    }
}

/// A number that tells the sheet files apart: from the length of a path and
/// the character after the directory's first letter.
pub open spec fn source_file_key(path: Seq<char>) -> int {
    path.len() * 256 + (path[20] as int)
}

/// The key of each sheet's file.
pub open spec fn sheet_file_key(t: UiSpriteSheetType) -> int {
    match t {
        UiSpriteSheetType::Ui => 6473,
        UiSpriteSheetType::ExUi => 7000,
        UiSpriteSheetType::Item => 7252,
        UiSpriteSheetType::Skill => 8267,
        UiSpriteSheetType::StateIcon => 8276,
        UiSpriteSheetType::ItemSocketGem => 8015,
        UiSpriteSheetType::ItemSocketEmpty => 7247,
        UiSpriteSheetType::MinimapArrow => 9289,
        UiSpriteSheetType::ClanMarkBackground => 8012,
        UiSpriteSheetType::ClanMarkForeground => 8524,
        UiSpriteSheetType::TargetMark => 8513,
    }
}

proof fn lemma_sheet_file_key(t: UiSpriteSheetType)
    ensures
        source_file(sheet_source_paths(t)).len() > 20,
        source_file_key(source_file(sheet_source_paths(t))) == sheet_file_key(t),
{
    match t {
        UiSpriteSheetType::Ui => {
            reveal_strlit("3DDATA/CONTROL/RES/UI.TSI");
        },
        UiSpriteSheetType::ExUi => {
            reveal_strlit("3DDATA/CONTROL/RES/EXUI.TSI");
        },
        UiSpriteSheetType::Item => {
            reveal_strlit("3DDATA/CONTROL/RES/ITEM1.TSI");
        },
        UiSpriteSheetType::Skill => {
            reveal_strlit("3DDATA/CONTROL/RES/SKILLICON.TSI");
        },
        UiSpriteSheetType::StateIcon => {
            reveal_strlit("3DDATA/CONTROL/RES/STATEICON.TSI");
        },
        UiSpriteSheetType::ItemSocketGem => {
            reveal_strlit("3DDATA/CONTROL/RES/SOKETJAM.TSI");
        },
        UiSpriteSheetType::ItemSocketEmpty => {
            reveal_strlit("3DDATA/CONTROL/RES/SOKET.DDS");
        },
        UiSpriteSheetType::MinimapArrow => {
            reveal_strlit("3DDATA/CONTROL/RES/MINIMAP_ARROW.TGA");
        },
        UiSpriteSheetType::ClanMarkBackground => {
            reveal_strlit("3DDATA/CONTROL/RES/CLANBACK.TSI");
        },
        UiSpriteSheetType::ClanMarkForeground => {
            reveal_strlit("3DDATA/CONTROL/RES/CLANCENTER.TSI");
        },
        UiSpriteSheetType::TargetMark => {
            reveal_strlit("3DDATA/CONTROL/RES/TARGETMARK.TSI");
        },
    }
}

/// Every sheet is read from a file of its own, in the texture directory; the
/// name tables are in the dialog directory.
pub proof fn lemma_sheet_sources_distinct(t: UiSpriteSheetType, u: UiSpriteSheetType)
    ensures
        t != u ==> source_file(sheet_source_paths(t)) != source_file(sheet_source_paths(u)),
        source_file(sheet_source_paths(t)).subrange(0, 19) == texture_dir(),
        id_file(sheet_source_paths(t)) matches Some(id) ==> id.subrange(0, 19) == dialog_dir(),
{
    lemma_sheet_file_key(t);
    lemma_sheet_file_key(u);
    reveal_strlit("3DDATA/CONTROL/RES/");
    reveal_strlit("3DDATA/CONTROL/XML/");
    reveal_strlit("3DDATA/CONTROL/XML/UI_STRID.ID");
    reveal_strlit("3DDATA/CONTROL/XML/EXUI_STRID.ID");
    match t {
        UiSpriteSheetType::Ui => {
            reveal_strlit("3DDATA/CONTROL/RES/UI.TSI");
        },
        UiSpriteSheetType::ExUi => {
            reveal_strlit("3DDATA/CONTROL/RES/EXUI.TSI");
        },
        UiSpriteSheetType::Item => {
            reveal_strlit("3DDATA/CONTROL/RES/ITEM1.TSI");
        },
        UiSpriteSheetType::Skill => {
            reveal_strlit("3DDATA/CONTROL/RES/SKILLICON.TSI");
        },
        UiSpriteSheetType::StateIcon => {
            reveal_strlit("3DDATA/CONTROL/RES/STATEICON.TSI");
        },
        UiSpriteSheetType::ItemSocketGem => {
            reveal_strlit("3DDATA/CONTROL/RES/SOKETJAM.TSI");
        },
        UiSpriteSheetType::ItemSocketEmpty => {
            reveal_strlit("3DDATA/CONTROL/RES/SOKET.DDS");
        },
        UiSpriteSheetType::MinimapArrow => {
            reveal_strlit("3DDATA/CONTROL/RES/MINIMAP_ARROW.TGA");
        },
        UiSpriteSheetType::ClanMarkBackground => {
            reveal_strlit("3DDATA/CONTROL/RES/CLANBACK.TSI");
        },
        UiSpriteSheetType::ClanMarkForeground => {
            reveal_strlit("3DDATA/CONTROL/RES/CLANCENTER.TSI");
        },
        UiSpriteSheetType::TargetMark => {
            reveal_strlit("3DDATA/CONTROL/RES/TARGETMARK.TSI");
        },
    }
    assert(source_file(sheet_source_paths(t)).subrange(0, 19) =~= texture_dir());
    if id_file(sheet_source_paths(t)) is Some {
        assert(id_file(sheet_source_paths(t)).unwrap().subrange(0, 19) =~= dialog_dir());
    }
}

impl UiSpriteSheetType {
    /// Where the sprites of this sheet come from.
    pub fn source(self) -> (s: SheetSource)
        ensures
            s@ == sheet_source_paths(self),
            // The source of each sheet, as the client's data layout has it.
            self == UiSpriteSheetType::Ui ==> s == (SheetSource::SpriteSheet { tsi_path: "3DDATA/CONTROL/RES/UI.TSI", id_path: Some("3DDATA/CONTROL/XML/UI_STRID.ID") }),
            self == UiSpriteSheetType::ExUi ==> s == (SheetSource::SpriteSheet { tsi_path: "3DDATA/CONTROL/RES/EXUI.TSI", id_path: Some("3DDATA/CONTROL/XML/EXUI_STRID.ID") }),
            self == UiSpriteSheetType::Item ==> s == (SheetSource::SpriteSheet { tsi_path: "3DDATA/CONTROL/RES/ITEM1.TSI", id_path: None }),
            self == UiSpriteSheetType::Skill ==> s == (SheetSource::SpriteSheet { tsi_path: "3DDATA/CONTROL/RES/SKILLICON.TSI", id_path: None }),
            self == UiSpriteSheetType::StateIcon ==> s == (SheetSource::SpriteSheet { tsi_path: "3DDATA/CONTROL/RES/STATEICON.TSI", id_path: None }),
            self == UiSpriteSheetType::ItemSocketGem ==> s == (SheetSource::SpriteSheet { tsi_path: "3DDATA/CONTROL/RES/SOKETJAM.TSI", id_path: None }),
            self == UiSpriteSheetType::ItemSocketEmpty ==> s == (SheetSource::SingleTexture { image_path: "3DDATA/CONTROL/RES/SOKET.DDS" }),
            self == UiSpriteSheetType::MinimapArrow ==> s == (SheetSource::SingleTexture { image_path: "3DDATA/CONTROL/RES/MINIMAP_ARROW.TGA" }),
            self == UiSpriteSheetType::ClanMarkBackground ==> s == (SheetSource::SpriteSheet { tsi_path: "3DDATA/CONTROL/RES/CLANBACK.TSI", id_path: None }),
            self == UiSpriteSheetType::ClanMarkForeground ==> s == (SheetSource::SpriteSheet { tsi_path: "3DDATA/CONTROL/RES/CLANCENTER.TSI", id_path: None }),
            self == UiSpriteSheetType::TargetMark ==> s == (SheetSource::SpriteSheet { tsi_path: "3DDATA/CONTROL/RES/TARGETMARK.TSI", id_path: None }),
    {
        match self {
            UiSpriteSheetType::Ui => SheetSource::SpriteSheet {
                tsi_path: "3DDATA/CONTROL/RES/UI.TSI",
                id_path: Some("3DDATA/CONTROL/XML/UI_STRID.ID"),
            },
            UiSpriteSheetType::ExUi => SheetSource::SpriteSheet {
                tsi_path: "3DDATA/CONTROL/RES/EXUI.TSI",
                id_path: Some("3DDATA/CONTROL/XML/EXUI_STRID.ID"),
            },
            UiSpriteSheetType::StateIcon => SheetSource::SpriteSheet {
                tsi_path: "3DDATA/CONTROL/RES/STATEICON.TSI",
                id_path: None,
            },
            UiSpriteSheetType::Skill => SheetSource::SpriteSheet {
                tsi_path: "3DDATA/CONTROL/RES/SKILLICON.TSI",
                id_path: None,
            },
            UiSpriteSheetType::Item => SheetSource::SpriteSheet {
                tsi_path: "3DDATA/CONTROL/RES/ITEM1.TSI",
                id_path: None,
            },
            UiSpriteSheetType::ItemSocketGem => SheetSource::SpriteSheet {
                tsi_path: "3DDATA/CONTROL/RES/SOKETJAM.TSI",
                id_path: None,
            },
            UiSpriteSheetType::TargetMark => SheetSource::SpriteSheet {
                tsi_path: "3DDATA/CONTROL/RES/TARGETMARK.TSI",
                id_path: None,
            },
            UiSpriteSheetType::ClanMarkForeground => SheetSource::SpriteSheet {
                tsi_path: "3DDATA/CONTROL/RES/CLANCENTER.TSI",
                id_path: None,
            },
            UiSpriteSheetType::ClanMarkBackground => SheetSource::SpriteSheet {
                tsi_path: "3DDATA/CONTROL/RES/CLANBACK.TSI",
                id_path: None,
            },
            UiSpriteSheetType::MinimapArrow => SheetSource::SingleTexture {
                image_path: "3DDATA/CONTROL/RES/MINIMAP_ARROW.TGA",
            },
            UiSpriteSheetType::ItemSocketEmpty => SheetSource::SingleTexture {
                image_path: "3DDATA/CONTROL/RES/SOKET.DDS",
            },
        }
    }
}

/// The sprite that spans the whole of a single-image sheet.
pub open spec fn is_whole_image_sprite(sprite: TsiSprite) -> bool {
    &&& sprite.texture_id == 0
    &&& sprite.left == 0
    &&& sprite.top == 0
    &&& sprite.right == 0
    &&& sprite.bottom == 0
    &&& sprite.name@ == Seq::<char>::empty()
}

impl<H> UiSpriteSheet<H> {
    /// A sheet of one image, with one sprite at its first pixel and no name
    /// table.
    pub fn single_texture(texture: UiTexture<H>) -> (s: UiSpriteSheet<H>)
        ensures
            s.sprites@.len() == 1,
            is_whole_image_sprite(s.sprites@[0]),
            s.sprites@[0].texture_id == 0 && s.sprites@[0].left == 0 && s.sprites@[0].top == 0,
            s.sprites@[0].right == 0 && s.sprites@[0].bottom == 0 && s.sprites@[0].name@.len() == 0,
            s.loaded_textures@ == seq![texture],
            s.sprites_by_name is None,
    {
        let sprite = TsiSprite { texture_id: 0, left: 0, top: 0, right: 0, bottom: 0, name: String::new() };
        UiSpriteSheet { sprites: vec![sprite], loaded_textures: vec![texture], sprites_by_name: None }
    }
}

/// The dialog layout files that the user interface loads, in order.
pub open spec fn dialog_filenames_spec() -> Seq<Seq<char>> {
    seq![
        "DELIVERYSTORE.XML"@,
        "DLGADDFRIEND.XML"@,
        "DLGAVATA.XML"@,
        "DLGAVATARSTORE.XML"@,
        "DLGBANK.XML"@,
        "DLGCHAT.XML"@,
        "DLGCHATFILTER.XML"@,
        "DLGCHATROOM.XML"@,
        "DLGCLAN.XML"@,
        "DLGCLANREGNOTICE.XML"@,
        "DLGCOMM.XML"@,
        "DLGCREATEAVATAR.XML"@,
        "DLGDEAL.XML"@,
        "DLGDIALOG.XML"@,
        "DLGDIALOGEVENT.XML"@,
        "DLGEXCHANGE.XML"@,
        "DLGGOODS.XML"@,
        "DLGHELP.XML"@,
        "DLGINFO.XML"@,
        "DLGINPUTNAME.XML"@,
        "DLGITEM.XML"@,
        "DLGLOGIN.XML"@,
        "DLGMAKE.XML"@,
        "DLGMEMO.XML"@,
        "DLGMEMOVIEW.XML"@,
        "DLGMENU.XML"@,
        "DLGMINIMAP.XML"@,
        "DLGNINPUT.XML"@,
        "DLGNOTIFY.XML"@,
        "DLGOPTION.XML"@,
        "DLGORGANIZECLAN.XML"@,
        "DLGPARTY.XML"@,
        "DLGPARTYOPTION.XML"@,
        "DLGPRIVATECHAT.XML"@,
        "DLGPRIVATESTORE.XML"@,
        "DLGQUEST.XML"@,
        "DLGQUICKBAR.XML"@,
        "DLGRESTART.XML"@,
        "DLGSELAVATAR.XML"@,
        "DLGSELECTEVENT.XML"@,
        "DLGSELONLYSVR.XML"@,
        "DLGSELSVR.XML"@,
        "DLGSEPARATE.XML"@,
        "DLGSKILL.XML"@,
        "DLGSKILLTREE.XML"@,
        "DLGSTORE.XML"@,
        "DLGSYSTEM.XML"@,
        "DLGSYSTEMMSG.XML"@,
        "DLGUPGRADE.XML"@,
        "MSGBOX.XML"@,
        "SKILLTREE_DEALER.XML"@,
        "SKILLTREE_HOWKER.XML"@,
        "SKILLTREE_MUSE.XML"@,
        "SKILLTREE_SOLDIER.XML"@,
    ]
}

/// The dialog layout files that the user interface loads, in order.
pub fn dialog_filenames() -> (names: Vec<&'static str>)
    ensures
        names@.len() == dialog_filenames_spec().len(),
        forall|i: int| #![trigger names@[i]] 0 <= i < names@.len() ==> names@[i]@ == dialog_filenames_spec()[i],
{
        let names = vec![
        "DELIVERYSTORE.XML",
        "DLGADDFRIEND.XML",
        "DLGAVATA.XML",
        "DLGAVATARSTORE.XML",
        "DLGBANK.XML",
        "DLGCHAT.XML",
        "DLGCHATFILTER.XML",
        "DLGCHATROOM.XML",
        "DLGCLAN.XML",
        "DLGCLANREGNOTICE.XML",
        "DLGCOMM.XML",
        "DLGCREATEAVATAR.XML",
        "DLGDEAL.XML",
        "DLGDIALOG.XML",
        "DLGDIALOGEVENT.XML",
        "DLGEXCHANGE.XML",
        "DLGGOODS.XML",
        "DLGHELP.XML",
        "DLGINFO.XML",
        "DLGINPUTNAME.XML",
        "DLGITEM.XML",
        "DLGLOGIN.XML",
        "DLGMAKE.XML",
        "DLGMEMO.XML",
        "DLGMEMOVIEW.XML",
        "DLGMENU.XML",
        "DLGMINIMAP.XML",
        "DLGNINPUT.XML",
        "DLGNOTIFY.XML",
        "DLGOPTION.XML",
        "DLGORGANIZECLAN.XML",
        "DLGPARTY.XML",
        "DLGPARTYOPTION.XML",
        "DLGPRIVATECHAT.XML",
        "DLGPRIVATESTORE.XML",
        "DLGQUEST.XML",
        "DLGQUICKBAR.XML",
        "DLGRESTART.XML",
        "DLGSELAVATAR.XML",
        "DLGSELECTEVENT.XML",
        "DLGSELONLYSVR.XML",
        "DLGSELSVR.XML",
        "DLGSEPARATE.XML",
        "DLGSKILL.XML",
        "DLGSKILLTREE.XML",
        "DLGSTORE.XML",
        "DLGSYSTEM.XML",
        "DLGSYSTEMMSG.XML",
        "DLGUPGRADE.XML",
        "MSGBOX.XML",
        "SKILLTREE_DEALER.XML",
        "SKILLTREE_HOWKER.XML",
        "SKILLTREE_MUSE.XML",
        "SKILLTREE_SOLDIER.XML",
    ];
    assert(names@.map_values(|s: &'static str| s@) =~= dialog_filenames_spec());
    assert forall|i: int| #![trigger names@[i]] 0 <= i < names@.len() implies names@[i]@ == dialog_filenames_spec()[i] by {
        assert(names@.map_values(|s: &'static str| s@)[i] == names@[i]@);
    }
    names
}

/// Dialog role `role` holds the layout of entry `index` of the dialog files,
/// which is the file called `name`.
pub open spec fn role_file<D: Clone>(files: Seq<(String, D)>, index: int, name: Seq<char>, role: D) -> bool {
    &&& 0 <= index < files.len()
    &&& files[index].0@ == name
    &&& cloned(files[index].1, role)
}

impl<H, D: Clone> UiResources<H, D> {
    /// The user-interface resources over loaded sprite sheets and the dialog
    /// layouts loaded for the dialog files, one for each file of
    /// `dialog_filenames` in the same order. Each dialog role takes the layout
    /// of its file; no texture size is known to be settled yet.
    pub fn new(sprite_sheets: UiSpriteSheetMap<Option<UiSpriteSheet<H>>>, dialog_handles: Vec<D>) -> (r: UiResources<H, D>)
        requires
            dialog_handles@.len() == dialog_filenames_spec().len(),
        ensures
            !r.loaded_all_textures,
            r.sprite_sheets == sprite_sheets,
            r.dialog_files@.len() == dialog_filenames_spec().len(),
            forall|i: int| #![trigger r.dialog_files@[i]]
                0 <= i < r.dialog_files@.len() ==> r.dialog_files@[i].0@ == dialog_filenames_spec()[i]
                    && r.dialog_files@[i].1 == dialog_handles@[i],
            role_file(r.dialog_files@, 21, "DLGLOGIN.XML"@, r.dialog_login),
            role_file(r.dialog_files@, 4, "DLGBANK.XML"@, r.dialog_bank),
            role_file(r.dialog_files@, 2, "DLGAVATA.XML"@, r.dialog_character_info),
            role_file(r.dialog_files@, 5, "DLGCHAT.XML"@, r.dialog_chatbox),
            role_file(r.dialog_files@, 8, "DLGCLAN.XML"@, r.dialog_clan),
            role_file(r.dialog_files@, 11, "DLGCREATEAVATAR.XML"@, r.dialog_create_avatar),
            role_file(r.dialog_files@, 30, "DLGORGANIZECLAN.XML"@, r.dialog_create_clan),
            role_file(r.dialog_files@, 25, "DLGMENU.XML"@, r.dialog_game_menu),
            role_file(r.dialog_files@, 49, "MSGBOX.XML"@, r.dialog_message_box),
            role_file(r.dialog_files@, 27, "DLGNINPUT.XML"@, r.dialog_number_input),
            role_file(r.dialog_files@, 26, "DLGMINIMAP.XML"@, r.dialog_minimap),
            role_file(r.dialog_files@, 45, "DLGSTORE.XML"@, r.dialog_npc_store),
            role_file(r.dialog_files@, 12, "DLGDEAL.XML"@, r.dialog_npc_transaction),
            role_file(r.dialog_files@, 31, "DLGPARTY.XML"@, r.dialog_party),
            role_file(r.dialog_files@, 32, "DLGPARTYOPTION.XML"@, r.dialog_party_option),
            role_file(r.dialog_files@, 3, "DLGAVATARSTORE.XML"@, r.dialog_personal_store),
            role_file(r.dialog_files@, 18, "DLGINFO.XML"@, r.dialog_player_info),
            role_file(r.dialog_files@, 37, "DLGRESTART.XML"@, r.dialog_respawn),
            role_file(r.dialog_files@, 41, "DLGSELSVR.XML"@, r.dialog_select_server),
            role_file(r.dialog_files@, 43, "DLGSKILL.XML"@, r.dialog_skill_list),
            role_file(r.dialog_files@, 44, "DLGSKILLTREE.XML"@, r.dialog_skill_tree),
            role_file(r.dialog_files@, 50, "SKILLTREE_DEALER.XML"@, r.skill_tree_dealer),
            role_file(r.dialog_files@, 51, "SKILLTREE_HOWKER.XML"@, r.skill_tree_hawker),
            role_file(r.dialog_files@, 52, "SKILLTREE_MUSE.XML"@, r.skill_tree_muse),
            role_file(r.dialog_files@, 53, "SKILLTREE_SOLDIER.XML"@, r.skill_tree_soldier),
    {
        let names = dialog_filenames();
        let ghost handles = dialog_handles@;
        let mut remaining = dialog_handles;
        let mut dialog_files: Vec<(String, D)> = Vec::new();
        let mut i: usize = 0;
        while i < names.len()
            invariant
                0 <= i <= names@.len(),
                names@.len() == dialog_filenames_spec().len(),
                handles.len() == names@.len(),
                forall|j: int| #![trigger names@[j]] 0 <= j < names@.len() ==> names@[j]@ == dialog_filenames_spec()[j],
                remaining@ == handles.subrange(i as int, handles.len() as int),
                dialog_files@.len() == i,
                forall|j: int| #![trigger dialog_files@[j]]
                    0 <= j < i ==> dialog_files@[j].0@ == dialog_filenames_spec()[j] && dialog_files@[j].1 == handles[j],
            decreases names@.len() - i,
        {
            let handle = remaining.remove(0);
            assert(handle == handles[i as int]);
            let name = names[i].to_owned();
            assert(name@ == dialog_filenames_spec()[i as int]);
            dialog_files.push((name, handle));
            i = i + 1;
        }
        assert(dialog_files@[21].0@ == "DLGLOGIN.XML"@);
        assert(dialog_files@[4].0@ == "DLGBANK.XML"@);
        assert(dialog_files@[2].0@ == "DLGAVATA.XML"@);
        assert(dialog_files@[5].0@ == "DLGCHAT.XML"@);
        assert(dialog_files@[8].0@ == "DLGCLAN.XML"@);
        assert(dialog_files@[11].0@ == "DLGCREATEAVATAR.XML"@);
        assert(dialog_files@[30].0@ == "DLGORGANIZECLAN.XML"@);
        assert(dialog_files@[25].0@ == "DLGMENU.XML"@);
        assert(dialog_files@[49].0@ == "MSGBOX.XML"@);
        assert(dialog_files@[27].0@ == "DLGNINPUT.XML"@);
        assert(dialog_files@[26].0@ == "DLGMINIMAP.XML"@);
        assert(dialog_files@[45].0@ == "DLGSTORE.XML"@);
        assert(dialog_files@[12].0@ == "DLGDEAL.XML"@);
        assert(dialog_files@[31].0@ == "DLGPARTY.XML"@);
        assert(dialog_files@[32].0@ == "DLGPARTYOPTION.XML"@);
        assert(dialog_files@[3].0@ == "DLGAVATARSTORE.XML"@);
        assert(dialog_files@[18].0@ == "DLGINFO.XML"@);
        assert(dialog_files@[37].0@ == "DLGRESTART.XML"@);
        assert(dialog_files@[41].0@ == "DLGSELSVR.XML"@);
        assert(dialog_files@[43].0@ == "DLGSKILL.XML"@);
        assert(dialog_files@[44].0@ == "DLGSKILLTREE.XML"@);
        assert(dialog_files@[50].0@ == "SKILLTREE_DEALER.XML"@);
        assert(dialog_files@[51].0@ == "SKILLTREE_HOWKER.XML"@);
        assert(dialog_files@[52].0@ == "SKILLTREE_MUSE.XML"@);
        assert(dialog_files@[53].0@ == "SKILLTREE_SOLDIER.XML"@);
        let dialog_login = dialog_files[21].1.clone();
        let dialog_bank = dialog_files[4].1.clone();
        let dialog_character_info = dialog_files[2].1.clone();
        let dialog_chatbox = dialog_files[5].1.clone();
        let dialog_clan = dialog_files[8].1.clone();
        let dialog_create_avatar = dialog_files[11].1.clone();
        let dialog_create_clan = dialog_files[30].1.clone();
        let dialog_game_menu = dialog_files[25].1.clone();
        let dialog_message_box = dialog_files[49].1.clone();
        let dialog_number_input = dialog_files[27].1.clone();
        let dialog_minimap = dialog_files[26].1.clone();
        let dialog_npc_store = dialog_files[45].1.clone();
        let dialog_npc_transaction = dialog_files[12].1.clone();
        let dialog_party = dialog_files[31].1.clone();
        let dialog_party_option = dialog_files[32].1.clone();
        let dialog_personal_store = dialog_files[3].1.clone();
        let dialog_player_info = dialog_files[18].1.clone();
        let dialog_respawn = dialog_files[37].1.clone();
        let dialog_select_server = dialog_files[41].1.clone();
        let dialog_skill_list = dialog_files[43].1.clone();
        let dialog_skill_tree = dialog_files[44].1.clone();
        let skill_tree_dealer = dialog_files[50].1.clone();
        let skill_tree_hawker = dialog_files[51].1.clone();
        let skill_tree_muse = dialog_files[52].1.clone();
        let skill_tree_soldier = dialog_files[53].1.clone();
        UiResources {
            loaded_all_textures: false,
            sprite_sheets,
            dialog_login,
            dialog_bank,
            dialog_character_info,
            dialog_chatbox,
            dialog_clan,
            dialog_create_avatar,
            dialog_create_clan,
            dialog_game_menu,
            dialog_message_box,
            dialog_number_input,
            dialog_minimap,
            dialog_npc_store,
            dialog_npc_transaction,
            dialog_party,
            dialog_party_option,
            dialog_personal_store,
            dialog_player_info,
            dialog_respawn,
            dialog_select_server,
            dialog_skill_list,
            dialog_skill_tree,
            skill_tree_dealer,
            skill_tree_hawker,
            skill_tree_muse,
            skill_tree_soldier,
            dialog_files,
        }
    }
}

/// A number that tells the dialog file names apart: built from the length
/// and three characters of a name.
pub open spec fn filename_key(name: Seq<char>) -> int {
    let at = |p: int| if p < name.len() { name[p] as int } else { 0 };
    ((name.len() * 256 + at(3)) * 256 + at(6)) * 256 + at(10)
}

/// The key of each dialog file name.
pub open spec fn dialog_filename_key(i: int) -> int {
    if i == 0 {
        290017871
    } else
    if i == 1 {
        272713294
    } else
    if i == 2 {
        205608013
    } else
    if i == 3 {
        306271316
    } else
    if i == 4 {
        188894028
    } else
    if i == 5 {
        188961868
    } else
    if i == 6 {
        289625172
    } else
    if i == 7 {
        256070733
    } else
    if i == 8 {
        188960332
    } else
    if i == 9 {
        339955278
    } else
    if i == 10 {
        188960076
    } else
    if i == 11 {
        323174742
    } else
    if i == 12 {
        189025356
    } else
    if i == 13 {
        222579800
    } else
    if i == 14 {
        306465878
    } else
    if i == 15 {
        256198725
    } else
    if i == 16 {
        205997133
    } else
    if i == 17 {
        189288524
    } else
    if i == 18 {
        189353804
    } else
    if i == 19 {
        273241421
    } else
    if i == 20 {
        189353292
    } else
    if i == 21 {
        206326093
    } else
    if i == 22 {
        189613388
    } else
    if i == 23 {
        189615948
    } else
    if i == 24 {
        256724823
    } else
    if i == 25 {
        189617484
    } else
    if i == 26 {
        239946030
    } else
    if i == 27 {
        223236184
    } else
    if i == 28 {
        223234392
    } else
    if i == 29 {
        223299928
    } else
    if i == 30 {
        323961157
    } else
    if i == 31 {
        206591053
    } else
    if i == 32 {
        307254356
    } else
    if i == 33 {
        307254851
    } else
    if i == 34 {
        324032083
    } else
    if i == 35 {
        206656333
    } else
    if i == 36 {
        256983890
    } else
    if i == 37 {
        240276526
    } else
    if i == 38 {
        273891649
    } else
    if i == 39 {
        307447126
    } else
    if i == 40 {
        290672467
    } else
    if i == 41 {
        223564632
    } else
    if i == 42 {
        257114437
    } else
    if i == 43 {
        206785613
    } else
    if i == 44 {
        273894469
    } else
    if i == 45 {
        206787149
    } else
    if i == 46 {
        223564888
    } else
    if i == 47 {
        273896531
    } else
    if i == 48 {
        240472622
    } else
    if i == 49 {
        172109312
    } else
    if i == 50 {
        340546116
    } else
    if i == 51 {
        340546120
    } else
    if i == 52 {
        306991693
    } else
    if i == 53 {
        357323347
    } else {
        0
    }
}

proof fn lemma_dialog_filename_keys(i: int)
    requires
        0 <= i < dialog_filenames_spec().len(),
    ensures
        filename_key(dialog_filenames_spec()[i]) == dialog_filename_key(i),
{
        if i == 0 {
            reveal_strlit("DELIVERYSTORE.XML");
            assert(dialog_filenames_spec()[0] == "DELIVERYSTORE.XML"@);
        }
        else if i == 1 {
            reveal_strlit("DLGADDFRIEND.XML");
            assert(dialog_filenames_spec()[1] == "DLGADDFRIEND.XML"@);
        }
        else if i == 2 {
            reveal_strlit("DLGAVATA.XML");
            assert(dialog_filenames_spec()[2] == "DLGAVATA.XML"@);
        }
        else if i == 3 {
            reveal_strlit("DLGAVATARSTORE.XML");
            assert(dialog_filenames_spec()[3] == "DLGAVATARSTORE.XML"@);
        }
        else if i == 4 {
            reveal_strlit("DLGBANK.XML");
            assert(dialog_filenames_spec()[4] == "DLGBANK.XML"@);
        }
        else if i == 5 {
            reveal_strlit("DLGCHAT.XML");
            assert(dialog_filenames_spec()[5] == "DLGCHAT.XML"@);
        }
        else if i == 6 {
            reveal_strlit("DLGCHATFILTER.XML");
            assert(dialog_filenames_spec()[6] == "DLGCHATFILTER.XML"@);
        }
        else if i == 7 {
            reveal_strlit("DLGCHATROOM.XML");
            assert(dialog_filenames_spec()[7] == "DLGCHATROOM.XML"@);
        }
        else if i == 8 {
            reveal_strlit("DLGCLAN.XML");
            assert(dialog_filenames_spec()[8] == "DLGCLAN.XML"@);
        }
        else if i == 9 {
            reveal_strlit("DLGCLANREGNOTICE.XML");
            assert(dialog_filenames_spec()[9] == "DLGCLANREGNOTICE.XML"@);
        }
        else if i == 10 {
            reveal_strlit("DLGCOMM.XML");
            assert(dialog_filenames_spec()[10] == "DLGCOMM.XML"@);
        }
        else if i == 11 {
            reveal_strlit("DLGCREATEAVATAR.XML");
            assert(dialog_filenames_spec()[11] == "DLGCREATEAVATAR.XML"@);
        }
        else if i == 12 {
            reveal_strlit("DLGDEAL.XML");
            assert(dialog_filenames_spec()[12] == "DLGDEAL.XML"@);
        }
        else if i == 13 {
            reveal_strlit("DLGDIALOG.XML");
            assert(dialog_filenames_spec()[13] == "DLGDIALOG.XML"@);
        }
        else if i == 14 {
            reveal_strlit("DLGDIALOGEVENT.XML");
            assert(dialog_filenames_spec()[14] == "DLGDIALOGEVENT.XML"@);
        }
        else if i == 15 {
            reveal_strlit("DLGEXCHANGE.XML");
            assert(dialog_filenames_spec()[15] == "DLGEXCHANGE.XML"@);
        }
        else if i == 16 {
            reveal_strlit("DLGGOODS.XML");
            assert(dialog_filenames_spec()[16] == "DLGGOODS.XML"@);
        }
        else if i == 17 {
            reveal_strlit("DLGHELP.XML");
            assert(dialog_filenames_spec()[17] == "DLGHELP.XML"@);
        }
        else if i == 18 {
            reveal_strlit("DLGINFO.XML");
            assert(dialog_filenames_spec()[18] == "DLGINFO.XML"@);
        }
        else if i == 19 {
            reveal_strlit("DLGINPUTNAME.XML");
            assert(dialog_filenames_spec()[19] == "DLGINPUTNAME.XML"@);
        }
        else if i == 20 {
            reveal_strlit("DLGITEM.XML");
            assert(dialog_filenames_spec()[20] == "DLGITEM.XML"@);
        }
        else if i == 21 {
            reveal_strlit("DLGLOGIN.XML");
            assert(dialog_filenames_spec()[21] == "DLGLOGIN.XML"@);
        }
        else if i == 22 {
            reveal_strlit("DLGMAKE.XML");
            assert(dialog_filenames_spec()[22] == "DLGMAKE.XML"@);
        }
        else if i == 23 {
            reveal_strlit("DLGMEMO.XML");
            assert(dialog_filenames_spec()[23] == "DLGMEMO.XML"@);
        }
        else if i == 24 {
            reveal_strlit("DLGMEMOVIEW.XML");
            assert(dialog_filenames_spec()[24] == "DLGMEMOVIEW.XML"@);
        }
        else if i == 25 {
            reveal_strlit("DLGMENU.XML");
            assert(dialog_filenames_spec()[25] == "DLGMENU.XML"@);
        }
        else if i == 26 {
            reveal_strlit("DLGMINIMAP.XML");
            assert(dialog_filenames_spec()[26] == "DLGMINIMAP.XML"@);
        }
        else if i == 27 {
            reveal_strlit("DLGNINPUT.XML");
            assert(dialog_filenames_spec()[27] == "DLGNINPUT.XML"@);
        }
        else if i == 28 {
            reveal_strlit("DLGNOTIFY.XML");
            assert(dialog_filenames_spec()[28] == "DLGNOTIFY.XML"@);
        }
        else if i == 29 {
            reveal_strlit("DLGOPTION.XML");
            assert(dialog_filenames_spec()[29] == "DLGOPTION.XML"@);
        }
        else if i == 30 {
            reveal_strlit("DLGORGANIZECLAN.XML");
            assert(dialog_filenames_spec()[30] == "DLGORGANIZECLAN.XML"@);
        }
        else if i == 31 {
            reveal_strlit("DLGPARTY.XML");
            assert(dialog_filenames_spec()[31] == "DLGPARTY.XML"@);
        }
        else if i == 32 {
            reveal_strlit("DLGPARTYOPTION.XML");
            assert(dialog_filenames_spec()[32] == "DLGPARTYOPTION.XML"@);
        }
        else if i == 33 {
            reveal_strlit("DLGPRIVATECHAT.XML");
            assert(dialog_filenames_spec()[33] == "DLGPRIVATECHAT.XML"@);
        }
        else if i == 34 {
            reveal_strlit("DLGPRIVATESTORE.XML");
            assert(dialog_filenames_spec()[34] == "DLGPRIVATESTORE.XML"@);
        }
        else if i == 35 {
            reveal_strlit("DLGQUEST.XML");
            assert(dialog_filenames_spec()[35] == "DLGQUEST.XML"@);
        }
        else if i == 36 {
            reveal_strlit("DLGQUICKBAR.XML");
            assert(dialog_filenames_spec()[36] == "DLGQUICKBAR.XML"@);
        }
        else if i == 37 {
            reveal_strlit("DLGRESTART.XML");
            assert(dialog_filenames_spec()[37] == "DLGRESTART.XML"@);
        }
        else if i == 38 {
            reveal_strlit("DLGSELAVATAR.XML");
            assert(dialog_filenames_spec()[38] == "DLGSELAVATAR.XML"@);
        }
        else if i == 39 {
            reveal_strlit("DLGSELECTEVENT.XML");
            assert(dialog_filenames_spec()[39] == "DLGSELECTEVENT.XML"@);
        }
        else if i == 40 {
            reveal_strlit("DLGSELONLYSVR.XML");
            assert(dialog_filenames_spec()[40] == "DLGSELONLYSVR.XML"@);
        }
        else if i == 41 {
            reveal_strlit("DLGSELSVR.XML");
            assert(dialog_filenames_spec()[41] == "DLGSELSVR.XML"@);
        }
        else if i == 42 {
            reveal_strlit("DLGSEPARATE.XML");
            assert(dialog_filenames_spec()[42] == "DLGSEPARATE.XML"@);
        }
        else if i == 43 {
            reveal_strlit("DLGSKILL.XML");
            assert(dialog_filenames_spec()[43] == "DLGSKILL.XML"@);
        }
        else if i == 44 {
            reveal_strlit("DLGSKILLTREE.XML");
            assert(dialog_filenames_spec()[44] == "DLGSKILLTREE.XML"@);
        }
        else if i == 45 {
            reveal_strlit("DLGSTORE.XML");
            assert(dialog_filenames_spec()[45] == "DLGSTORE.XML"@);
        }
        else if i == 46 {
            reveal_strlit("DLGSYSTEM.XML");
            assert(dialog_filenames_spec()[46] == "DLGSYSTEM.XML"@);
        }
        else if i == 47 {
            reveal_strlit("DLGSYSTEMMSG.XML");
            assert(dialog_filenames_spec()[47] == "DLGSYSTEMMSG.XML"@);
        }
        else if i == 48 {
            reveal_strlit("DLGUPGRADE.XML");
            assert(dialog_filenames_spec()[48] == "DLGUPGRADE.XML"@);
        }
        else if i == 49 {
            reveal_strlit("MSGBOX.XML");
            assert(dialog_filenames_spec()[49] == "MSGBOX.XML"@);
        }
        else if i == 50 {
            reveal_strlit("SKILLTREE_DEALER.XML");
            assert(dialog_filenames_spec()[50] == "SKILLTREE_DEALER.XML"@);
        }
        else if i == 51 {
            reveal_strlit("SKILLTREE_HOWKER.XML");
            assert(dialog_filenames_spec()[51] == "SKILLTREE_HOWKER.XML"@);
        }
        else if i == 52 {
            reveal_strlit("SKILLTREE_MUSE.XML");
            assert(dialog_filenames_spec()[52] == "SKILLTREE_MUSE.XML"@);
        }
        else if i == 53 {
            reveal_strlit("SKILLTREE_SOLDIER.XML");
            assert(dialog_filenames_spec()[53] == "SKILLTREE_SOLDIER.XML"@);
        }
}

/// The dialog files are all different, so each dialog role's file is the
/// only file of its name.
pub proof fn lemma_dialog_filenames_distinct(i: int, j: int)
    requires
        0 <= i < j < dialog_filenames_spec().len(),
    ensures
        dialog_filenames_spec()[i] != dialog_filenames_spec()[j],
{
    lemma_dialog_filename_keys(i);
    lemma_dialog_filename_keys(j);
}

/// The dialog files are exactly the client's dialog layouts: each of them is
/// listed, and (with `lemma_dialog_filenames_distinct`) each once.
pub proof fn lemma_dialog_filenames_listed()
    ensures
        dialog_filenames_spec().len() == 54,
        dialog_filenames_spec().contains("DELIVERYSTORE.XML"@),
        dialog_filenames_spec().contains("DLGADDFRIEND.XML"@),
        dialog_filenames_spec().contains("DLGAVATA.XML"@),
        dialog_filenames_spec().contains("DLGAVATARSTORE.XML"@),
        dialog_filenames_spec().contains("DLGBANK.XML"@),
        dialog_filenames_spec().contains("DLGCHAT.XML"@),
        dialog_filenames_spec().contains("DLGCHATFILTER.XML"@),
        dialog_filenames_spec().contains("DLGCHATROOM.XML"@),
        dialog_filenames_spec().contains("DLGCLAN.XML"@),
        dialog_filenames_spec().contains("DLGCLANREGNOTICE.XML"@),
        dialog_filenames_spec().contains("DLGCOMM.XML"@),
        dialog_filenames_spec().contains("DLGCREATEAVATAR.XML"@),
        dialog_filenames_spec().contains("DLGDEAL.XML"@),
        dialog_filenames_spec().contains("DLGDIALOG.XML"@),
        dialog_filenames_spec().contains("DLGDIALOGEVENT.XML"@),
        dialog_filenames_spec().contains("DLGEXCHANGE.XML"@),
        dialog_filenames_spec().contains("DLGGOODS.XML"@),
        dialog_filenames_spec().contains("DLGHELP.XML"@),
        dialog_filenames_spec().contains("DLGINFO.XML"@),
        dialog_filenames_spec().contains("DLGINPUTNAME.XML"@),
        dialog_filenames_spec().contains("DLGITEM.XML"@),
        dialog_filenames_spec().contains("DLGLOGIN.XML"@),
        dialog_filenames_spec().contains("DLGMAKE.XML"@),
        dialog_filenames_spec().contains("DLGMEMO.XML"@),
        dialog_filenames_spec().contains("DLGMEMOVIEW.XML"@),
        dialog_filenames_spec().contains("DLGMENU.XML"@),
        dialog_filenames_spec().contains("DLGMINIMAP.XML"@),
        dialog_filenames_spec().contains("DLGNINPUT.XML"@),
        dialog_filenames_spec().contains("DLGNOTIFY.XML"@),
        dialog_filenames_spec().contains("DLGOPTION.XML"@),
        dialog_filenames_spec().contains("DLGORGANIZECLAN.XML"@),
        dialog_filenames_spec().contains("DLGPARTY.XML"@),
        dialog_filenames_spec().contains("DLGPARTYOPTION.XML"@),
        dialog_filenames_spec().contains("DLGPRIVATECHAT.XML"@),
        dialog_filenames_spec().contains("DLGPRIVATESTORE.XML"@),
        dialog_filenames_spec().contains("DLGQUEST.XML"@),
        dialog_filenames_spec().contains("DLGQUICKBAR.XML"@),
        dialog_filenames_spec().contains("DLGRESTART.XML"@),
        dialog_filenames_spec().contains("DLGSELAVATAR.XML"@),
        dialog_filenames_spec().contains("DLGSELECTEVENT.XML"@),
        dialog_filenames_spec().contains("DLGSELONLYSVR.XML"@),
        dialog_filenames_spec().contains("DLGSELSVR.XML"@),
        dialog_filenames_spec().contains("DLGSEPARATE.XML"@),
        dialog_filenames_spec().contains("DLGSKILL.XML"@),
        dialog_filenames_spec().contains("DLGSKILLTREE.XML"@),
        dialog_filenames_spec().contains("DLGSTORE.XML"@),
        dialog_filenames_spec().contains("DLGSYSTEM.XML"@),
        dialog_filenames_spec().contains("DLGSYSTEMMSG.XML"@),
        dialog_filenames_spec().contains("DLGUPGRADE.XML"@),
        dialog_filenames_spec().contains("MSGBOX.XML"@),
        dialog_filenames_spec().contains("SKILLTREE_DEALER.XML"@),
        dialog_filenames_spec().contains("SKILLTREE_HOWKER.XML"@),
        dialog_filenames_spec().contains("SKILLTREE_MUSE.XML"@),
        dialog_filenames_spec().contains("SKILLTREE_SOLDIER.XML"@),
{
    assert(dialog_filenames_spec()[0] == "DELIVERYSTORE.XML"@);
    assert(dialog_filenames_spec()[1] == "DLGADDFRIEND.XML"@);
    assert(dialog_filenames_spec()[2] == "DLGAVATA.XML"@);
    assert(dialog_filenames_spec()[3] == "DLGAVATARSTORE.XML"@);
    assert(dialog_filenames_spec()[4] == "DLGBANK.XML"@);
    assert(dialog_filenames_spec()[5] == "DLGCHAT.XML"@);
    assert(dialog_filenames_spec()[6] == "DLGCHATFILTER.XML"@);
    assert(dialog_filenames_spec()[7] == "DLGCHATROOM.XML"@);
    assert(dialog_filenames_spec()[8] == "DLGCLAN.XML"@);
    assert(dialog_filenames_spec()[9] == "DLGCLANREGNOTICE.XML"@);
    assert(dialog_filenames_spec()[10] == "DLGCOMM.XML"@);
    assert(dialog_filenames_spec()[11] == "DLGCREATEAVATAR.XML"@);
    assert(dialog_filenames_spec()[12] == "DLGDEAL.XML"@);
    assert(dialog_filenames_spec()[13] == "DLGDIALOG.XML"@);
    assert(dialog_filenames_spec()[14] == "DLGDIALOGEVENT.XML"@);
    assert(dialog_filenames_spec()[15] == "DLGEXCHANGE.XML"@);
    assert(dialog_filenames_spec()[16] == "DLGGOODS.XML"@);
    assert(dialog_filenames_spec()[17] == "DLGHELP.XML"@);
    assert(dialog_filenames_spec()[18] == "DLGINFO.XML"@);
    assert(dialog_filenames_spec()[19] == "DLGINPUTNAME.XML"@);
    assert(dialog_filenames_spec()[20] == "DLGITEM.XML"@);
    assert(dialog_filenames_spec()[21] == "DLGLOGIN.XML"@);
    assert(dialog_filenames_spec()[22] == "DLGMAKE.XML"@);
    assert(dialog_filenames_spec()[23] == "DLGMEMO.XML"@);
    assert(dialog_filenames_spec()[24] == "DLGMEMOVIEW.XML"@);
    assert(dialog_filenames_spec()[25] == "DLGMENU.XML"@);
    assert(dialog_filenames_spec()[26] == "DLGMINIMAP.XML"@);
    assert(dialog_filenames_spec()[27] == "DLGNINPUT.XML"@);
    assert(dialog_filenames_spec()[28] == "DLGNOTIFY.XML"@);
    assert(dialog_filenames_spec()[29] == "DLGOPTION.XML"@);
    assert(dialog_filenames_spec()[30] == "DLGORGANIZECLAN.XML"@);
    assert(dialog_filenames_spec()[31] == "DLGPARTY.XML"@);
    assert(dialog_filenames_spec()[32] == "DLGPARTYOPTION.XML"@);
    assert(dialog_filenames_spec()[33] == "DLGPRIVATECHAT.XML"@);
    assert(dialog_filenames_spec()[34] == "DLGPRIVATESTORE.XML"@);
    assert(dialog_filenames_spec()[35] == "DLGQUEST.XML"@);
    assert(dialog_filenames_spec()[36] == "DLGQUICKBAR.XML"@);
    assert(dialog_filenames_spec()[37] == "DLGRESTART.XML"@);
    assert(dialog_filenames_spec()[38] == "DLGSELAVATAR.XML"@);
    assert(dialog_filenames_spec()[39] == "DLGSELECTEVENT.XML"@);
    assert(dialog_filenames_spec()[40] == "DLGSELONLYSVR.XML"@);
    assert(dialog_filenames_spec()[41] == "DLGSELSVR.XML"@);
    assert(dialog_filenames_spec()[42] == "DLGSEPARATE.XML"@);
    assert(dialog_filenames_spec()[43] == "DLGSKILL.XML"@);
    assert(dialog_filenames_spec()[44] == "DLGSKILLTREE.XML"@);
    assert(dialog_filenames_spec()[45] == "DLGSTORE.XML"@);
    assert(dialog_filenames_spec()[46] == "DLGSYSTEM.XML"@);
    assert(dialog_filenames_spec()[47] == "DLGSYSTEMMSG.XML"@);
    assert(dialog_filenames_spec()[48] == "DLGUPGRADE.XML"@);
    assert(dialog_filenames_spec()[49] == "MSGBOX.XML"@);
    assert(dialog_filenames_spec()[50] == "SKILLTREE_DEALER.XML"@);
    assert(dialog_filenames_spec()[51] == "SKILLTREE_HOWKER.XML"@);
    assert(dialog_filenames_spec()[52] == "SKILLTREE_MUSE.XML"@);
    assert(dialog_filenames_spec()[53] == "SKILLTREE_SOLDIER.XML"@);
}

} // verus!
