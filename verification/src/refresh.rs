use vstd::prelude::*;

use crate::resources::{TextureId, TextureSize, UiResources, UiSpriteSheet, UiTexture};
use crate::sheet_type::{UiSpriteSheetMap, UiSpriteSheetType};

verus! {

/// What the asset store reports of an image: loaded with a pixel size, failed
/// to load, or still loading.
#[derive(Clone, Copy, Debug, PartialEq, Eq, Structural)]
pub enum TextureLoadState {
    Loaded(TextureSize),
    Failed,
    Pending,
}

/// What the asset store reports of a dialog layout: present, failed to load,
/// or still loading.
#[derive(Clone, Copy, Debug, PartialEq, Eq, Structural)]
pub enum DialogLoadState {
    Loaded,
    Failed,
    Pending,
}

/// The size of a texture after its image has been asked about: the image's
/// size once loaded, zero once it failed, unchanged while it loads.
pub open spec fn size_after_load(size: Option<TextureSize>, state: TextureLoadState) -> Option<TextureSize> {
    match state {
        TextureLoadState::Loaded(s) => Some(s),
        TextureLoadState::Failed => Some(TextureSize { width: 0, height: 0 }),
        TextureLoadState::Pending => size,
    }
}

/// Whether the image is done loading, one way or the other.
pub open spec fn load_settled(state: TextureLoadState) -> bool {
    !(state is Pending)
}

/// The state reported for texture `i`; a texture past the reports counts as
/// still loading.
pub open spec fn state_at(states: Seq<TextureLoadState>, i: int) -> TextureLoadState {
    if 0 <= i < states.len() {
        states[i]
    } else {
        TextureLoadState::Pending
    }
}

/// Texture `new` is texture `old` with only its size changed, to `size`.
pub open spec fn resized<H>(old: UiTexture<H>, new: UiTexture<H>, size: Option<TextureSize>) -> bool {
    &&& new.handle == old.handle
    &&& new.texture_id == old.texture_id
    &&& new.size == size
}

/// Sheet `new` is sheet `old` after a refresh against `states`: a texture
/// whose size was known keeps it; any other takes the size its report gives.
pub open spec fn sheet_refreshed<H>(old: UiSpriteSheet<H>, new: UiSpriteSheet<H>, states: Seq<TextureLoadState>) -> bool {
    &&& new.sprites == old.sprites
    &&& new.sprites_by_name == old.sprites_by_name
    &&& new.loaded_textures@.len() == old.loaded_textures@.len()
    &&& forall|i: int| #![trigger new.loaded_textures@[i]]
        0 <= i < old.loaded_textures@.len() ==> resized(
            old.loaded_textures@[i],
            new.loaded_textures@[i],
            if old.loaded_textures@[i].size is Some {
                old.loaded_textures@[i].size
            } else {
                size_after_load(None, state_at(states, i))
            },
        )
}

/// Every texture of the sheet either had a known size or has a settled report.
pub open spec fn sheet_settled<H>(sheet: UiSpriteSheet<H>, states: Seq<TextureLoadState>) -> bool {
    forall|i: int| #![trigger sheet.loaded_textures@[i]]
        0 <= i < sheet.loaded_textures@.len() && sheet.loaded_textures@[i].size is None
            ==> load_settled(state_at(states, i))
}

/// A sheet slot after a refresh: an empty slot stays empty.
pub open spec fn slot_refreshed<H>(old: Option<UiSpriteSheet<H>>, new: Option<UiSpriteSheet<H>>, states: Seq<TextureLoadState>) -> bool {
    match old {
        Some(o) => new matches Some(n) && sheet_refreshed(o, n, states),
        None => new is None,
    }
}

/// Every texture in a sheet slot is settled.
pub open spec fn slot_settled<H>(slot: Option<UiSpriteSheet<H>>, states: Seq<TextureLoadState>) -> bool {
    match slot {
        Some(s) => sheet_settled(s, states),
        None => true,
    }
}

/// Every sheet's textures are settled.
pub open spec fn sheets_settled<H>(
    sheets: UiSpriteSheetMap<Option<UiSpriteSheet<H>>>,
    states: UiSpriteSheetMap<Vec<TextureLoadState>>,
) -> bool {
    forall|t: UiSpriteSheetType| #[trigger] slot_settled(sheets.slot(t), states.slot(t)@)
}

impl<H> UiTexture<H> {
    /// A texture whose size is not known yet.
    pub fn new(handle: H, texture_id: TextureId) -> (t: UiTexture<H>)
        ensures
            t.handle == handle,
            t.texture_id == texture_id,
            t.size is None,
    {
        UiTexture { handle, texture_id, size: None }
    }

    /// Records what the asset store reports of this texture's image, and
    /// tells whether the image is done loading.
    pub fn apply_load_state(&mut self, state: TextureLoadState) -> (settled: bool)
        ensures
            resized(*old(self), *final(self), size_after_load(old(self).size, state)),
            settled == load_settled(state),
            // A loaded image gives its size, a failed one size zero; a loading one changes nothing.
            final(self).handle == old(self).handle && final(self).texture_id == old(self).texture_id,
            state matches TextureLoadState::Loaded(size) ==> final(self).size == Some(size),
            state == TextureLoadState::Failed ==> final(self).size == Some(TextureSize { width: 0, height: 0 }),
            state == TextureLoadState::Pending ==> final(self).size == old(self).size && !settled,
            state != TextureLoadState::Pending ==> settled,
    {
        match state {
            TextureLoadState::Loaded(size) => {
                self.size = Some(size);
                true
            },
            TextureLoadState::Failed => {
                self.size = Some(TextureSize { width: 0, height: 0 });
                true
            },
            TextureLoadState::Pending => false,
        }
    }
}

impl<H> UiSpriteSheet<H> {
    /// Gives each texture whose size is not known yet the size that its
    /// report gives, and tells whether every texture is now settled.
    pub fn refresh_texture_sizes(&mut self, states: &Vec<TextureLoadState>) -> (settled: bool)
        ensures
            sheet_refreshed(*old(self), *final(self), states@),
            settled == sheet_settled(*old(self), states@),
    {
        let ghost start = *self;
        let mut settled = true;
        let mut i: usize = 0;
        while i < self.loaded_textures.len()
            invariant
                0 <= i <= self.loaded_textures@.len(),
                self.loaded_textures@.len() == start.loaded_textures@.len(),
                self.sprites == start.sprites,
                self.sprites_by_name == start.sprites_by_name,
                forall|j: int| #![trigger self.loaded_textures@[j]]
                    0 <= j < i ==> resized(
                        start.loaded_textures@[j],
                        self.loaded_textures@[j],
                        if start.loaded_textures@[j].size is Some {
                            start.loaded_textures@[j].size
                        } else {
                            size_after_load(None, state_at(states@, j))
                        },
                    ),
                forall|j: int| #![trigger self.loaded_textures@[j]]
                    i <= j < self.loaded_textures@.len() ==> self.loaded_textures@[j] == start.loaded_textures@[j],
                settled == (forall|j: int| #![trigger start.loaded_textures@[j]]
                    0 <= j < i && start.loaded_textures@[j].size is None ==> load_settled(state_at(states@, j))),
            decreases self.loaded_textures@.len() - i,
        {
            if self.loaded_textures[i].size.is_none() {
                let state = if i < states.len() {
                    states[i]
                } else {
                    TextureLoadState::Pending
                };
                let now_settled = self.loaded_textures[i].apply_load_state(state);
                settled = settled && now_settled;
            }
            i = i + 1;
        }
        settled
    }
}


/// Refreshes the textures of a sheet slot, if the sheet is loaded.
fn refresh_slot<H>(slot: &mut Option<UiSpriteSheet<H>>, states: &Vec<TextureLoadState>) -> (settled: bool)
    ensures
        slot_refreshed(*old(slot), *final(slot), states@),
        settled == slot_settled(*old(slot), states@),
{
    match slot {
        Some(sheet) => sheet.refresh_texture_sizes(states),
        None => true,
    }
}

/// A skill widget of a skill tree dialog: the image it shows, its texture
/// once one has been made, and what the asset store reports of that image.
pub struct SkillWidget<H> {
    pub image: String,
    pub ui_texture: Option<UiTexture<H>>,
    pub load_state: TextureLoadState,
}

/// Widget `new` is widget `old` after a refresh: a texture takes the size its
/// report gives; a widget without a texture is left as it was.
pub open spec fn widget_refreshed<H>(old: SkillWidget<H>, new: SkillWidget<H>) -> bool {
    &&& new.image == old.image
    &&& new.load_state == old.load_state
    &&& match old.ui_texture {
        Some(t) => new.ui_texture matches Some(n) && resized(t, n, size_after_load(t.size, old.load_state)),
        None => new.ui_texture is None,
    }
}

/// A widget is settled when it has a texture whose image is done loading.
pub open spec fn widget_settled<H>(w: SkillWidget<H>) -> bool {
    w.ui_texture is Some && load_settled(w.load_state)
}

/// `missing` lists, in increasing order, exactly the widgets that have no
/// texture yet.
pub open spec fn lists_untextured<H>(widgets: Seq<SkillWidget<H>>, missing: Seq<usize>) -> bool {
    &&& forall|k: int| #![trigger missing[k]]
        0 <= k < missing.len() ==> missing[k] < widgets.len() && widgets[missing[k] as int].ui_texture is None
    &&& forall|k: int, l: int| #![trigger missing[k], missing[l]] 0 <= k < l < missing.len() ==> missing[k] < missing[l]
    &&& forall|i: int| #![trigger widgets[i]]
        0 <= i < widgets.len() && widgets[i].ui_texture is None ==> missing.contains(i as usize)
}

/// Every skill tree dialog is present or has failed to load.
pub open spec fn dialogs_settled(dialogs: Seq<DialogLoadState>) -> bool {
    forall|i: int| 0 <= i < dialogs.len() ==> !(#[trigger] dialogs[i] is Pending)
}

/// Refreshes the textures of the skill widgets and lists those that still
/// need a texture to be made; tells whether every widget is settled.
pub fn refresh_skill_widgets<H>(widgets: &mut Vec<SkillWidget<H>>) -> (r: (bool, Vec<usize>))
    ensures
        final(widgets)@.len() == old(widgets)@.len(),
        forall|i: int| #![trigger final(widgets)@[i]]
            0 <= i < old(widgets)@.len() ==> widget_refreshed(old(widgets)@[i], final(widgets)@[i]),
        r.0 == (forall|i: int| #![trigger old(widgets)@[i]] 0 <= i < old(widgets)@.len() ==> widget_settled(old(widgets)@[i])),
        lists_untextured(old(widgets)@, r.1@),
{
    let ghost start = widgets@;
    let mut settled = true;
    let mut missing: Vec<usize> = Vec::new();
    let mut i: usize = 0;
    while i < widgets.len()
        invariant
            0 <= i <= widgets@.len(),
            widgets@.len() == start.len(),
            forall|j: int| #![trigger widgets@[j]] 0 <= j < i ==> widget_refreshed(start[j], widgets@[j]),
            forall|j: int| #![trigger widgets@[j]] i <= j < widgets@.len() ==> widgets@[j] == start[j],
            settled == (forall|j: int| #![trigger start[j]] 0 <= j < i ==> widget_settled(start[j])),
            forall|k: int| #![trigger missing@[k]]
                0 <= k < missing@.len() ==> missing@[k] < i && start[missing@[k] as int].ui_texture is None,
            forall|k: int, l: int| #![trigger missing@[k], missing@[l]] 0 <= k < l < missing@.len() ==> missing@[k] < missing@[l],
            forall|j: int| #![trigger start[j]] 0 <= j < i && start[j].ui_texture is None ==> missing@.contains(j as usize),
        decreases widgets@.len() - i,
    {
        let state = widgets[i].load_state;
        match &mut widgets[i].ui_texture {
            Some(texture) => {
                let now_settled = texture.apply_load_state(state);
                settled = settled && now_settled;
            },
            None => {
                settled = false;
                let ghost before = missing@;
                missing.push(i);
                assert(missing@[missing@.len() - 1] == i);
                assert forall|j: int| #![trigger start[j]] 0 <= j < i + 1 && start[j].ui_texture is None implies missing@.contains(j as usize) by {
                    if j < i {
                        let k = choose|k: int| 0 <= k < before.len() && before[k] == j as usize;
                        assert(missing@[k] == before[k]);
                    } else {
                        assert(missing@[missing@.len() - 1] == j as usize);
                    }
                }
            },
        }
        i = i + 1;
    }
    (settled, missing)
}

/// `new` holds the same dialog layouts, by file name and by role, as `old`.
pub open spec fn same_dialogs<H, D>(old: UiResources<H, D>, new: UiResources<H, D>) -> bool {
    &&& new.dialog_files == old.dialog_files
    &&& new.dialog_login == old.dialog_login
    &&& new.dialog_bank == old.dialog_bank
    &&& new.dialog_character_info == old.dialog_character_info
    &&& new.dialog_chatbox == old.dialog_chatbox
    &&& new.dialog_clan == old.dialog_clan
    &&& new.dialog_create_avatar == old.dialog_create_avatar
    &&& new.dialog_create_clan == old.dialog_create_clan
    &&& new.dialog_game_menu == old.dialog_game_menu
    &&& new.dialog_message_box == old.dialog_message_box
    &&& new.dialog_number_input == old.dialog_number_input
    &&& new.dialog_minimap == old.dialog_minimap
    &&& new.dialog_npc_store == old.dialog_npc_store
    &&& new.dialog_npc_transaction == old.dialog_npc_transaction
    &&& new.dialog_party == old.dialog_party
    &&& new.dialog_party_option == old.dialog_party_option
    &&& new.dialog_personal_store == old.dialog_personal_store
    &&& new.dialog_player_info == old.dialog_player_info
    &&& new.dialog_respawn == old.dialog_respawn
    &&& new.dialog_select_server == old.dialog_select_server
    &&& new.dialog_skill_list == old.dialog_skill_list
    &&& new.dialog_skill_tree == old.dialog_skill_tree
    &&& new.skill_tree_dealer == old.skill_tree_dealer
    &&& new.skill_tree_hawker == old.skill_tree_hawker
    &&& new.skill_tree_muse == old.skill_tree_muse
    &&& new.skill_tree_soldier == old.skill_tree_soldier
}

/// The textures count as settled exactly when no skill tree dialog, skill
/// widget or sheet texture is still waiting on the asset store.
pub proof fn lemma_settled_means_nothing_waits<H>(
    sheets: UiSpriteSheetMap<Option<UiSpriteSheet<H>>>,
    states: UiSpriteSheetMap<Vec<TextureLoadState>>,
    widgets: Seq<SkillWidget<H>>,
    dialogs: Seq<DialogLoadState>,
)
    ensures
        dialogs_settled(dialogs) <==> forall|i: int| #![trigger dialogs[i]]
            0 <= i < dialogs.len() ==> dialogs[i] != DialogLoadState::Pending,
        (forall|i: int| #![trigger widgets[i]] 0 <= i < widgets.len() ==> widget_settled(widgets[i]))
            <==> forall|i: int| #![trigger widgets[i]]
            0 <= i < widgets.len() ==> widgets[i].ui_texture is Some && widgets[i].load_state != TextureLoadState::Pending,
        sheets_settled(sheets, states) <==> forall|t: UiSpriteSheetType, i: int| #![trigger sheets.slot(t), states.slot(t)@[i]]
            sheets.slot(t) is Some && 0 <= i < sheets.slot(t).unwrap().loaded_textures@.len()
                && sheets.slot(t).unwrap().loaded_textures@[i].size is None
                ==> i < states.slot(t)@.len() && states.slot(t)@[i] != TextureLoadState::Pending,
{
    assert(dialogs_settled(dialogs) <==> forall|i: int| #![trigger dialogs[i]]
        0 <= i < dialogs.len() ==> dialogs[i] != DialogLoadState::Pending) by {
        if dialogs_settled(dialogs) {
            assert forall|i: int| #![trigger dialogs[i]] 0 <= i < dialogs.len() implies dialogs[i] != DialogLoadState::Pending by {
                assert(!(dialogs[i] is Pending));
            }
        }
    }
    let explicit = forall|t: UiSpriteSheetType, i: int| #![trigger sheets.slot(t), states.slot(t)@[i]]
        sheets.slot(t) is Some && 0 <= i < sheets.slot(t).unwrap().loaded_textures@.len()
            && sheets.slot(t).unwrap().loaded_textures@[i].size is None
            ==> i < states.slot(t)@.len() && states.slot(t)@[i] != TextureLoadState::Pending;
    if sheets_settled(sheets, states) {
        assert forall|t: UiSpriteSheetType, i: int| #![trigger sheets.slot(t), states.slot(t)@[i]]
            sheets.slot(t) is Some && 0 <= i < sheets.slot(t).unwrap().loaded_textures@.len()
                && sheets.slot(t).unwrap().loaded_textures@[i].size is None
                implies i < states.slot(t)@.len() && states.slot(t)@[i] != TextureLoadState::Pending by {
            assert(slot_settled(sheets.slot(t), states.slot(t)@));
            let s = sheets.slot(t).unwrap();
            assert(s.loaded_textures@[i] == s.loaded_textures@[i]);
        }
    }
    if explicit {
        assert forall|t: UiSpriteSheetType| #[trigger] slot_settled(sheets.slot(t), states.slot(t)@) by {
            if sheets.slot(t) is Some {
                let s = sheets.slot(t).unwrap();
                assert forall|i: int| #![trigger s.loaded_textures@[i]]
                    0 <= i < s.loaded_textures@.len() && s.loaded_textures@[i].size is None
                        implies load_settled(state_at(states.slot(t)@, i)) by {
                    if i < states.slot(t)@.len() {
                        assert(states.slot(t)@[i] != TextureLoadState::Pending);
                    } else {
                        assert(states.slot(t)@[i] == states.slot(t)@[i]);
                    }
                }
            }
        }
    }
}

/// After a refresh, each sheet texture of unknown size has the size its
/// report gives, and a known size stays.
pub proof fn lemma_refreshed_texture_size<H>(
    old: Option<UiSpriteSheet<H>>,
    new: Option<UiSpriteSheet<H>>,
    states: Seq<TextureLoadState>,
    i: int,
)
    requires
        slot_refreshed(old, new, states),
        old is Some,
        0 <= i < old.unwrap().loaded_textures@.len(),
    ensures
        new is Some,
        new.unwrap().loaded_textures@.len() == old.unwrap().loaded_textures@.len(),
        new.unwrap().loaded_textures@[i].size == ({
            let known = old.unwrap().loaded_textures@[i].size;
            if known is Some || i >= states.len() {
                known
            } else {
                match states[i] {
                    TextureLoadState::Loaded(size) => Some(size),
                    TextureLoadState::Failed => Some(TextureSize { width: 0, height: 0 }),
                    TextureLoadState::Pending => None,
                }
            }
        }),
{
    let n = new.unwrap();
    assert(n.loaded_textures@[i] == n.loaded_textures@[i]);
}

/// One refresh of the user-interface textures, given what the asset store
/// reports: `sheet_states` of each sheet texture, in the order of each
/// sheet's textures; `skill_tree_dialogs` of the skill tree dialogs; and, in
/// `skill_widgets`, of the skill widgets of the skill tree dialogs that are
/// present.
///
/// Once every texture has been settled nothing changes. Otherwise each sheet
/// texture whose size is not known takes the size its report gives, each
/// skill widget's texture takes the size its report gives, and the textures
/// count as all loaded exactly when every sheet texture is settled, every
/// skill widget has a settled texture, and every skill tree dialog is present
/// or has failed. The result lists the skill widgets that still need a
/// texture to be made.
#[verifier::rlimit(50)]
pub fn update_ui_resources<H, D>(
    ui_resources: &mut UiResources<H, D>,
    sheet_states: &UiSpriteSheetMap<Vec<TextureLoadState>>,
    skill_tree_dialogs: &Vec<DialogLoadState>,
    skill_widgets: &mut Vec<SkillWidget<H>>,
) -> (missing: Vec<usize>)
    ensures
        old(ui_resources).loaded_all_textures ==> {
            &&& *final(ui_resources) == *old(ui_resources)
            &&& final(skill_widgets)@ == old(skill_widgets)@
            &&& missing@.len() == 0
        },
        !old(ui_resources).loaded_all_textures ==> {
            &&& forall|t: UiSpriteSheetType| #[trigger] slot_refreshed(
                old(ui_resources).sprite_sheets.slot(t),
                final(ui_resources).sprite_sheets.slot(t),
                sheet_states.slot(t)@,
            )
            &&& same_dialogs(*old(ui_resources), *final(ui_resources))
            &&& final(ui_resources).loaded_all_textures == (
                sheets_settled(old(ui_resources).sprite_sheets, *sheet_states)
                && (forall|i: int| #![trigger old(skill_widgets)@[i]]
                    0 <= i < old(skill_widgets)@.len() ==> widget_settled(old(skill_widgets)@[i]))
                && dialogs_settled(skill_tree_dialogs@)
            )
            &&& final(skill_widgets)@.len() == old(skill_widgets)@.len()
            &&& forall|i: int| #![trigger final(skill_widgets)@[i]]
                0 <= i < old(skill_widgets)@.len() ==> widget_refreshed(old(skill_widgets)@[i], final(skill_widgets)@[i])
            &&& lists_untextured(old(skill_widgets)@, missing@)
        },
        // A skill tree dialog that is still loading, wherever it stands, keeps the textures unsettled.
        forall|i: int| #![trigger skill_tree_dialogs@[i]]
            0 <= i < skill_tree_dialogs@.len() && skill_tree_dialogs@[i] == DialogLoadState::Pending
                && !old(ui_resources).loaded_all_textures ==> !final(ui_resources).loaded_all_textures,
        // So does a skill widget without a texture or whose image is still loading.
        forall|i: int| #![trigger old(skill_widgets)@[i]]
            0 <= i < old(skill_widgets)@.len() && !old(ui_resources).loaded_all_textures
                && (old(skill_widgets)@[i].ui_texture is None || old(skill_widgets)@[i].load_state == TextureLoadState::Pending)
                ==> !final(ui_resources).loaded_all_textures,
        // So does a sheet texture of unknown size with no report or a report that it is still loading.
        forall|t: UiSpriteSheetType, i: int| #![trigger old(ui_resources).sprite_sheets.slot(t), sheet_states.slot(t)@[i]]
            !old(ui_resources).loaded_all_textures && old(ui_resources).sprite_sheets.slot(t) is Some
                && 0 <= i < old(ui_resources).sprite_sheets.slot(t).unwrap().loaded_textures@.len()
                && old(ui_resources).sprite_sheets.slot(t).unwrap().loaded_textures@[i].size is None
                && (i >= sheet_states.slot(t)@.len() || sheet_states.slot(t)@[i] == TextureLoadState::Pending)
                ==> !final(ui_resources).loaded_all_textures,
        // Otherwise every texture is settled once the refresh is done.
        (forall|i: int| #![trigger skill_tree_dialogs@[i]]
            0 <= i < skill_tree_dialogs@.len() ==> skill_tree_dialogs@[i] != DialogLoadState::Pending)
            && (forall|i: int| #![trigger old(skill_widgets)@[i]]
                0 <= i < old(skill_widgets)@.len() ==> old(skill_widgets)@[i].ui_texture is Some
                    && old(skill_widgets)@[i].load_state != TextureLoadState::Pending)
            && (forall|t: UiSpriteSheetType, i: int| #![trigger old(ui_resources).sprite_sheets.slot(t), sheet_states.slot(t)@[i]]
                old(ui_resources).sprite_sheets.slot(t) is Some
                    && 0 <= i < old(ui_resources).sprite_sheets.slot(t).unwrap().loaded_textures@.len()
                    && old(ui_resources).sprite_sheets.slot(t).unwrap().loaded_textures@[i].size is None
                    ==> i < sheet_states.slot(t)@.len() && sheet_states.slot(t)@[i] != TextureLoadState::Pending)
            ==> final(ui_resources).loaded_all_textures,
        // Each skill widget's texture takes the size its report gives, known before or not; a
        // widget without a texture keeps none and is listed, in order, among those still to be made.
        forall|i: int| #![trigger final(skill_widgets)@[i]]
            0 <= i < old(skill_widgets)@.len() && !old(ui_resources).loaded_all_textures ==> {
                &&& final(skill_widgets)@[i].image == old(skill_widgets)@[i].image
                &&& (old(skill_widgets)@[i].ui_texture is None ==> final(skill_widgets)@[i].ui_texture is None
                    && missing@.contains(i as usize))
                &&& (old(skill_widgets)@[i].ui_texture matches Some(t) ==> final(skill_widgets)@[i].ui_texture is Some
                    && final(skill_widgets)@[i].ui_texture.unwrap().handle == t.handle
                    && final(skill_widgets)@[i].ui_texture.unwrap().size == match old(skill_widgets)@[i].load_state {
                        TextureLoadState::Loaded(size) => Some(size),
                        TextureLoadState::Failed => Some(TextureSize { width: 0, height: 0 }),
                        TextureLoadState::Pending => t.size,
                    })
            },
        forall|k: int| #![trigger missing@[k]]
            0 <= k < missing@.len() ==> missing@[k] < old(skill_widgets)@.len()
                && old(skill_widgets)@[missing@[k] as int].ui_texture is None
                && (k > 0 ==> missing@[k - 1] < missing@[k]),
        // Each sheet texture of unknown size takes the size its report gives; a known size stays.
        forall|t: UiSpriteSheetType, i: int| #![trigger final(ui_resources).sprite_sheets.slot(t), old(ui_resources).sprite_sheets.slot(t), sheet_states.slot(t)@[i]]
            old(ui_resources).sprite_sheets.slot(t) is Some
                && 0 <= i < old(ui_resources).sprite_sheets.slot(t).unwrap().loaded_textures@.len()
                ==> final(ui_resources).sprite_sheets.slot(t) is Some
                    && final(ui_resources).sprite_sheets.slot(t).unwrap().loaded_textures@.len()
                        == old(ui_resources).sprite_sheets.slot(t).unwrap().loaded_textures@.len()
                    && final(ui_resources).sprite_sheets.slot(t).unwrap().loaded_textures@[i].size == ({
                        let known = old(ui_resources).sprite_sheets.slot(t).unwrap().loaded_textures@[i].size;
                        if known is Some || old(ui_resources).loaded_all_textures || i >= sheet_states.slot(t)@.len() {
                            known
                        } else {
                            match sheet_states.slot(t)@[i] {
                                TextureLoadState::Loaded(size) => Some(size),
                                TextureLoadState::Failed => Some(TextureSize { width: 0, height: 0 }),
                                TextureLoadState::Pending => None,
                            }
                        }
                    }),
{
    if ui_resources.loaded_all_textures {
        return Vec::new();
    }
    let ghost start = ui_resources.sprite_sheets;
    let s0 = refresh_slot(&mut ui_resources.sprite_sheets.ui, &sheet_states.ui);
    let s1 = refresh_slot(&mut ui_resources.sprite_sheets.ex_ui, &sheet_states.ex_ui);
    let s2 = refresh_slot(&mut ui_resources.sprite_sheets.item, &sheet_states.item);
    let s3 = refresh_slot(&mut ui_resources.sprite_sheets.skill, &sheet_states.skill);
    let s4 = refresh_slot(&mut ui_resources.sprite_sheets.state_icon, &sheet_states.state_icon);
    let s5 = refresh_slot(&mut ui_resources.sprite_sheets.item_socket_gem, &sheet_states.item_socket_gem);
    let s6 = refresh_slot(&mut ui_resources.sprite_sheets.item_socket_empty, &sheet_states.item_socket_empty);
    let s7 = refresh_slot(&mut ui_resources.sprite_sheets.minimap_arrow, &sheet_states.minimap_arrow);
    let s8 = refresh_slot(&mut ui_resources.sprite_sheets.clan_mark_background, &sheet_states.clan_mark_background);
    let s9 = refresh_slot(&mut ui_resources.sprite_sheets.clan_mark_foreground, &sheet_states.clan_mark_foreground);
    let s10 = refresh_slot(&mut ui_resources.sprite_sheets.target_mark, &sheet_states.target_mark);
    let sheets_done = s0 && s1 && s2 && s3 && s4 && s5 && s6 && s7 && s8 && s9 && s10;
    assert(sheets_done == sheets_settled(start, *sheet_states)) by {
        if sheets_done {
            assert forall|t: UiSpriteSheetType| #[trigger] slot_settled(start.slot(t), sheet_states.slot(t)@) by {
                match t {
                    UiSpriteSheetType::Ui => {},
                    UiSpriteSheetType::ExUi => {},
                    UiSpriteSheetType::Item => {},
                    UiSpriteSheetType::Skill => {},
                    UiSpriteSheetType::StateIcon => {},
                    UiSpriteSheetType::ItemSocketGem => {},
                    UiSpriteSheetType::ItemSocketEmpty => {},
                    UiSpriteSheetType::MinimapArrow => {},
                    UiSpriteSheetType::ClanMarkBackground => {},
                    UiSpriteSheetType::ClanMarkForeground => {},
                    UiSpriteSheetType::TargetMark => {},
                }
            }
        } else {
            assert(!slot_settled(start.slot(UiSpriteSheetType::Ui), sheet_states.slot(UiSpriteSheetType::Ui)@)
                || !slot_settled(start.slot(UiSpriteSheetType::ExUi), sheet_states.slot(UiSpriteSheetType::ExUi)@)
                || !slot_settled(start.slot(UiSpriteSheetType::Item), sheet_states.slot(UiSpriteSheetType::Item)@)
                || !slot_settled(start.slot(UiSpriteSheetType::Skill), sheet_states.slot(UiSpriteSheetType::Skill)@)
                || !slot_settled(start.slot(UiSpriteSheetType::StateIcon), sheet_states.slot(UiSpriteSheetType::StateIcon)@)
                || !slot_settled(start.slot(UiSpriteSheetType::ItemSocketGem), sheet_states.slot(UiSpriteSheetType::ItemSocketGem)@)
                || !slot_settled(start.slot(UiSpriteSheetType::ItemSocketEmpty), sheet_states.slot(UiSpriteSheetType::ItemSocketEmpty)@)
                || !slot_settled(start.slot(UiSpriteSheetType::MinimapArrow), sheet_states.slot(UiSpriteSheetType::MinimapArrow)@)
                || !slot_settled(start.slot(UiSpriteSheetType::ClanMarkBackground), sheet_states.slot(UiSpriteSheetType::ClanMarkBackground)@)
                || !slot_settled(start.slot(UiSpriteSheetType::ClanMarkForeground), sheet_states.slot(UiSpriteSheetType::ClanMarkForeground)@)
                || !slot_settled(start.slot(UiSpriteSheetType::TargetMark), sheet_states.slot(UiSpriteSheetType::TargetMark)@));
        }
    }
    assert forall|t: UiSpriteSheetType| #[trigger] slot_refreshed(
        start.slot(t),
        ui_resources.sprite_sheets.slot(t),
        sheet_states.slot(t)@,
    ) by {
        match t {
            UiSpriteSheetType::Ui => {},
            UiSpriteSheetType::ExUi => {},
            UiSpriteSheetType::Item => {},
            UiSpriteSheetType::Skill => {},
            UiSpriteSheetType::StateIcon => {},
            UiSpriteSheetType::ItemSocketGem => {},
            UiSpriteSheetType::ItemSocketEmpty => {},
            UiSpriteSheetType::MinimapArrow => {},
            UiSpriteSheetType::ClanMarkBackground => {},
            UiSpriteSheetType::ClanMarkForeground => {},
            UiSpriteSheetType::TargetMark => {},
        }
    }

    let (widgets_done, missing) = refresh_skill_widgets(skill_widgets);

    let mut dialogs_done = true;
    let mut i: usize = 0;
    while i < skill_tree_dialogs.len()
        invariant
            0 <= i <= skill_tree_dialogs@.len(),
            dialogs_done == (forall|j: int| 0 <= j < i ==> !(#[trigger] skill_tree_dialogs@[j] is Pending)),
        decreases skill_tree_dialogs@.len() - i,
    {
        match skill_tree_dialogs[i] {
            DialogLoadState::Pending => dialogs_done = false,
            _ => {},
        }
        i = i + 1;
    }

    ui_resources.loaded_all_textures = sheets_done && widgets_done && dialogs_done;
    proof {
        lemma_settled_means_nothing_waits(start, *sheet_states, old(skill_widgets)@, skill_tree_dialogs@);
        assert forall|t: UiSpriteSheetType, i: int| #![trigger ui_resources.sprite_sheets.slot(t), start.slot(t), sheet_states.slot(t)@[i]]
            start.slot(t) is Some && 0 <= i < start.slot(t).unwrap().loaded_textures@.len()
            implies ui_resources.sprite_sheets.slot(t) is Some
                && ui_resources.sprite_sheets.slot(t).unwrap().loaded_textures@.len() == start.slot(t).unwrap().loaded_textures@.len()
                && ui_resources.sprite_sheets.slot(t).unwrap().loaded_textures@[i].size == ({
                    let known = start.slot(t).unwrap().loaded_textures@[i].size;
                    if known is Some || false || i >= sheet_states.slot(t)@.len() {
                        known
                    } else {
                        match sheet_states.slot(t)@[i] {
                            TextureLoadState::Loaded(size) => Some(size),
                            TextureLoadState::Failed => Some(TextureSize { width: 0, height: 0 }),
                            TextureLoadState::Pending => None,
                        }
                    }
                }) by {
            lemma_refreshed_texture_size(start.slot(t), ui_resources.sprite_sheets.slot(t), sheet_states.slot(t)@, i);
        }
    }
    missing
}

/// A refresh never changes a texture size that was already known.
pub proof fn lemma_refresh_keeps_known_sizes<H>(
    old: UiSpriteSheet<H>,
    new: UiSpriteSheet<H>,
    states: Seq<TextureLoadState>,
    i: int,
)
    requires
        sheet_refreshed(old, new, states),
        0 <= i < old.loaded_textures@.len(),
        old.loaded_textures@[i].size is Some,
    ensures
        new.loaded_textures@[i].size == old.loaded_textures@[i].size,
{
    assert(resized(old.loaded_textures@[i], new.loaded_textures@[i], old.loaded_textures@[i].size));
}

/// A sheet is settled against its reports exactly when, after the refresh,
/// every texture's size is known.
pub proof fn lemma_settled_iff_sizes_known<H>(
    old: UiSpriteSheet<H>,
    new: UiSpriteSheet<H>,
    states: Seq<TextureLoadState>,
)
    requires
        sheet_refreshed(old, new, states),
    ensures
        sheet_settled(old, states) <==> forall|i: int| #![trigger new.loaded_textures@[i]]
            0 <= i < new.loaded_textures@.len() ==> new.loaded_textures@[i].size is Some,
{
    if sheet_settled(old, states) {
        assert forall|i: int| #![trigger new.loaded_textures@[i]]
            0 <= i < new.loaded_textures@.len() implies new.loaded_textures@[i].size is Some by {
            assert(old.loaded_textures@[i] == old.loaded_textures@[i]);
        }
    }
    if forall|i: int| #![trigger new.loaded_textures@[i]]
        0 <= i < new.loaded_textures@.len() ==> new.loaded_textures@[i].size is Some {
        assert forall|i: int| #![trigger old.loaded_textures@[i]]
            0 <= i < old.loaded_textures@.len() && old.loaded_textures@[i].size is None
                implies load_settled(state_at(states, i)) by {
            assert(new.loaded_textures@[i].size is Some);
        }
    }
}

/// Refreshing twice against the same reports gives the sizes of refreshing
/// once.
pub proof fn lemma_refresh_idempotent<H>(
    first: UiSpriteSheet<H>,
    second: UiSpriteSheet<H>,
    third: UiSpriteSheet<H>,
    states: Seq<TextureLoadState>,
)
    requires
        sheet_refreshed(first, second, states),
        sheet_refreshed(second, third, states),
    ensures
        third.sprites == second.sprites,
        third.sprites_by_name == second.sprites_by_name,
        third.loaded_textures@.len() == second.loaded_textures@.len(),
        forall|i: int| #![trigger third.loaded_textures@[i]]
            0 <= i < third.loaded_textures@.len() ==> third.loaded_textures@[i] == second.loaded_textures@[i],
{
    assert forall|i: int| #![trigger third.loaded_textures@[i]]
        0 <= i < third.loaded_textures@.len() implies third.loaded_textures@[i] == second.loaded_textures@[i] by {
        assert(resized(first.loaded_textures@[i], second.loaded_textures@[i],
            if first.loaded_textures@[i].size is Some {
                first.loaded_textures@[i].size
            } else {
                size_after_load(None, state_at(states, i))
            }));
    }
}

/// A refresh never changes a sprite that could already be drawn, nor the
/// texture handle of any sprite.
pub proof fn lemma_refresh_keeps_drawable_sprites<H>(
    old: UiSpriteSheet<H>,
    new: UiSpriteSheet<H>,
    states: Seq<TextureLoadState>,
    index: int,
)
    requires
        sheet_refreshed(old, new, states),
    ensures
        old.sprite(index) is Some ==> new.sprite(index) == old.sprite(index),
        new.sprite_image(index) == old.sprite_image(index),
{
    if 0 <= index < old.sprites@.len() {
        let sprite = old.sprites@[index];
        if (sprite.texture_id as int) < old.loaded_textures@.len() {
            let t = sprite.texture_id as int;
            assert(new.loaded_textures@[t] == new.loaded_textures@[t]);
        }
    }
}

} // verus!
