use vstd::prelude::*;

verus! {

/// The sprite sheets that the user interface draws from.
#[derive(Clone, Copy, Debug, PartialEq, Eq, Structural)]
pub enum UiSpriteSheetType {
    Ui,
    ExUi,
    Item,
    Skill,
    StateIcon,
    ItemSocketGem,
    ItemSocketEmpty,
    MinimapArrow,
    ClanMarkBackground,
    ClanMarkForeground,
    TargetMark,
}

/// The number of sprite sheet types.
pub const SPRITE_SHEET_COUNT: usize = 11;

/// The position of a sheet type in declaration order.
pub open spec fn sheet_index(t: UiSpriteSheetType) -> nat {
    match t {
        UiSpriteSheetType::Ui => 0,
        UiSpriteSheetType::ExUi => 1,
        UiSpriteSheetType::Item => 2,
        UiSpriteSheetType::Skill => 3,
        UiSpriteSheetType::StateIcon => 4,
        UiSpriteSheetType::ItemSocketGem => 5,
        UiSpriteSheetType::ItemSocketEmpty => 6,
        UiSpriteSheetType::MinimapArrow => 7,
        UiSpriteSheetType::ClanMarkBackground => 8,
        UiSpriteSheetType::ClanMarkForeground => 9,
        UiSpriteSheetType::TargetMark => 10,
    }
}

/// The sheet type at a position in declaration order.
pub open spec fn sheet_at_index(i: nat) -> Option<UiSpriteSheetType> {
    if i == 0 {
        Some(UiSpriteSheetType::Ui)
    } else if i == 1 {
        Some(UiSpriteSheetType::ExUi)
    } else if i == 2 {
        Some(UiSpriteSheetType::Item)
    } else if i == 3 {
        Some(UiSpriteSheetType::Skill)
    } else if i == 4 {
        Some(UiSpriteSheetType::StateIcon)
    } else if i == 5 {
        Some(UiSpriteSheetType::ItemSocketGem)
    } else if i == 6 {
        Some(UiSpriteSheetType::ItemSocketEmpty)
    } else if i == 7 {
        Some(UiSpriteSheetType::MinimapArrow)
    } else if i == 8 {
        Some(UiSpriteSheetType::ClanMarkBackground)
    } else if i == 9 {
        Some(UiSpriteSheetType::ClanMarkForeground)
    } else if i == 10 {
        Some(UiSpriteSheetType::TargetMark)
    } else {
        None
    }
}

/// The sheet that holds the sprites of a dialog module id, as sprite lookups
/// by name see it.
pub open spec fn sprite_module_sheet(module_id: int) -> Option<UiSpriteSheetType> {
    if module_id == 0 {
        Some(UiSpriteSheetType::Ui)
    } else if module_id == 1 {
        Some(UiSpriteSheetType::Item)
    } else if module_id == 3 {
        Some(UiSpriteSheetType::ExUi)
    } else if module_id == 4 {
        Some(UiSpriteSheetType::Skill)
    } else if module_id == 5 {
        Some(UiSpriteSheetType::StateIcon)
    } else if module_id == 6 {
        Some(UiSpriteSheetType::ItemSocketGem)
    } else if module_id == 7 {
        Some(UiSpriteSheetType::ClanMarkBackground)
    } else if module_id == 8 {
        Some(UiSpriteSheetType::ClanMarkForeground)
    } else if module_id == 9 {
        Some(UiSpriteSheetType::TargetMark)
    } else {
        None
    }
}

/// The sheet that holds the images of a dialog module id, as image lookups
/// by name see it: the clan mark modules have no images of their own.
pub open spec fn image_module_sheet(module_id: int) -> Option<UiSpriteSheetType> {
    if module_id == 7 || module_id == 8 {
        None
    } else {
        sprite_module_sheet(module_id)
    }
}

impl UiSpriteSheetType {
    /// Every sheet type, in declaration order.
    pub fn all() -> (r: Vec<UiSpriteSheetType>)
        ensures
            r@.len() == SPRITE_SHEET_COUNT,
            forall|i: int| 0 <= i < r@.len() ==> sheet_at_index(i as nat) == Some(#[trigger] r@[i]),
    {
        let r = vec![
            UiSpriteSheetType::Ui,
            UiSpriteSheetType::ExUi,
            UiSpriteSheetType::Item,
            UiSpriteSheetType::Skill,
            UiSpriteSheetType::StateIcon,
            UiSpriteSheetType::ItemSocketGem,
            UiSpriteSheetType::ItemSocketEmpty,
            UiSpriteSheetType::MinimapArrow,
            UiSpriteSheetType::ClanMarkBackground,
            UiSpriteSheetType::ClanMarkForeground,
            UiSpriteSheetType::TargetMark,
        ];
        assert(r@.len() == 11);
        r
    }

    /// The position of this sheet type in declaration order.
    pub fn index(self) -> (i: usize)
        ensures
            i == sheet_index(self),
            i < SPRITE_SHEET_COUNT,
    {
        match self {
            UiSpriteSheetType::Ui => 0,
            UiSpriteSheetType::ExUi => 1,
            UiSpriteSheetType::Item => 2,
            UiSpriteSheetType::Skill => 3,
            UiSpriteSheetType::StateIcon => 4,
            UiSpriteSheetType::ItemSocketGem => 5,
            UiSpriteSheetType::ItemSocketEmpty => 6,
            UiSpriteSheetType::MinimapArrow => 7,
            UiSpriteSheetType::ClanMarkBackground => 8,
            UiSpriteSheetType::ClanMarkForeground => 9,
            UiSpriteSheetType::TargetMark => 10,
        }
    }

    /// The sheet type at a position in declaration order, if there is one.
    pub fn from_index(i: usize) -> (r: Option<UiSpriteSheetType>)
        ensures
            r == sheet_at_index(i as nat),
    {
        match i {
            0 => Some(UiSpriteSheetType::Ui),
            1 => Some(UiSpriteSheetType::ExUi),
            2 => Some(UiSpriteSheetType::Item),
            3 => Some(UiSpriteSheetType::Skill),
            4 => Some(UiSpriteSheetType::StateIcon),
            5 => Some(UiSpriteSheetType::ItemSocketGem),
            6 => Some(UiSpriteSheetType::ItemSocketEmpty),
            7 => Some(UiSpriteSheetType::MinimapArrow),
            8 => Some(UiSpriteSheetType::ClanMarkBackground),
            9 => Some(UiSpriteSheetType::ClanMarkForeground),
            10 => Some(UiSpriteSheetType::TargetMark),
            _ => None,
        }
    }

    /// The sheet whose sprites a dialog module id names.
    pub fn for_sprite_module(module_id: i32) -> (r: Option<UiSpriteSheetType>)
        ensures
            r == sprite_module_sheet(module_id as int),
    {
        match module_id {
            0 => Some(UiSpriteSheetType::Ui),
            1 => Some(UiSpriteSheetType::Item),
            3 => Some(UiSpriteSheetType::ExUi),
            4 => Some(UiSpriteSheetType::Skill),
            5 => Some(UiSpriteSheetType::StateIcon),
            6 => Some(UiSpriteSheetType::ItemSocketGem),
            7 => Some(UiSpriteSheetType::ClanMarkBackground),
            8 => Some(UiSpriteSheetType::ClanMarkForeground),
            9 => Some(UiSpriteSheetType::TargetMark),
            _ => None,
        }
    }

    /// The sheet whose images a dialog module id names.
    pub fn for_image_module(module_id: i32) -> (r: Option<UiSpriteSheetType>)
        ensures
            r == image_module_sheet(module_id as int),
    {
        match module_id {
            0 => Some(UiSpriteSheetType::Ui),
            1 => Some(UiSpriteSheetType::Item),
            3 => Some(UiSpriteSheetType::ExUi),
            4 => Some(UiSpriteSheetType::Skill),
            5 => Some(UiSpriteSheetType::StateIcon),
            6 => Some(UiSpriteSheetType::ItemSocketGem),
            9 => Some(UiSpriteSheetType::TargetMark),
            _ => None,
        }
    }
}

/// The position in declaration order names each sheet type once, and every
/// position below the count names one.
pub proof fn lemma_sheet_index_bijective(t: UiSpriteSheetType, i: nat)
    ensures
        sheet_at_index(sheet_index(t)) == Some(t),
        sheet_index(t) < SPRITE_SHEET_COUNT,
        i < SPRITE_SHEET_COUNT <==> sheet_at_index(i) is Some,
        sheet_at_index(i) matches Some(u) ==> sheet_index(u) == i,
{
}

/// Every module whose images can be looked up also has its sprites looked
/// up in the same sheet.
pub proof fn lemma_image_modules_within_sprite_modules(module_id: int)
    ensures
        image_module_sheet(module_id) is Some ==> image_module_sheet(module_id) == sprite_module_sheet(module_id),
        sprite_module_sheet(module_id) is Some && image_module_sheet(module_id) is None ==> (module_id == 7 || module_id == 8),
{
}

/// The dialog module ids of the client's data and the sheets they name:
/// modules 0, 1 and 3 to 9 each name a different sheet, and no other module
/// names one; images can be looked up in all of them but the clan mark
/// modules 7 and 8.
pub proof fn lemma_module_tables(module_id: int, other: int)
    ensures
        sprite_module_sheet(0) == Some(UiSpriteSheetType::Ui),
        sprite_module_sheet(1) == Some(UiSpriteSheetType::Item),
        sprite_module_sheet(3) == Some(UiSpriteSheetType::ExUi),
        sprite_module_sheet(4) == Some(UiSpriteSheetType::Skill),
        sprite_module_sheet(5) == Some(UiSpriteSheetType::StateIcon),
        sprite_module_sheet(6) == Some(UiSpriteSheetType::ItemSocketGem),
        sprite_module_sheet(7) == Some(UiSpriteSheetType::ClanMarkBackground),
        sprite_module_sheet(8) == Some(UiSpriteSheetType::ClanMarkForeground),
        sprite_module_sheet(9) == Some(UiSpriteSheetType::TargetMark),
        (module_id < 0 || module_id == 2 || module_id > 9) ==> sprite_module_sheet(module_id) is None,
        module_id != other && sprite_module_sheet(module_id) is Some ==> sprite_module_sheet(module_id) != sprite_module_sheet(other),
        image_module_sheet(7) is None && image_module_sheet(8) is None,
        (module_id != 7 && module_id != 8) ==> image_module_sheet(module_id) == sprite_module_sheet(module_id),
        sprite_module_sheet(module_id) != Some(UiSpriteSheetType::ItemSocketEmpty),
        sprite_module_sheet(module_id) != Some(UiSpriteSheetType::MinimapArrow),
{
}

/// One value for each sprite sheet type.
pub struct UiSpriteSheetMap<T> {
    pub ui: T,
    pub ex_ui: T,
    pub item: T,
    pub skill: T,
    pub state_icon: T,
    pub item_socket_gem: T,
    pub item_socket_empty: T,
    pub minimap_arrow: T,
    pub clan_mark_background: T,
    pub clan_mark_foreground: T,
    pub target_mark: T,
}

impl<T> UiSpriteSheetMap<T> {
    /// The value held for a sheet type.
    pub open spec fn slot(self, t: UiSpriteSheetType) -> T {
        match t {
            UiSpriteSheetType::Ui => self.ui,
            UiSpriteSheetType::ExUi => self.ex_ui,
            UiSpriteSheetType::Item => self.item,
            UiSpriteSheetType::Skill => self.skill,
            UiSpriteSheetType::StateIcon => self.state_icon,
            UiSpriteSheetType::ItemSocketGem => self.item_socket_gem,
            UiSpriteSheetType::ItemSocketEmpty => self.item_socket_empty,
            UiSpriteSheetType::MinimapArrow => self.minimap_arrow,
            UiSpriteSheetType::ClanMarkBackground => self.clan_mark_background,
            UiSpriteSheetType::ClanMarkForeground => self.clan_mark_foreground,
            UiSpriteSheetType::TargetMark => self.target_mark,
        }
    }

    /// The value held for a sheet type.
    pub fn get(&self, t: UiSpriteSheetType) -> (r: &T)
        ensures
            *r == self.slot(t),
    {
        match t {
            UiSpriteSheetType::Ui => &self.ui,
            UiSpriteSheetType::ExUi => &self.ex_ui,
            UiSpriteSheetType::Item => &self.item,
            UiSpriteSheetType::Skill => &self.skill,
            UiSpriteSheetType::StateIcon => &self.state_icon,
            UiSpriteSheetType::ItemSocketGem => &self.item_socket_gem,
            UiSpriteSheetType::ItemSocketEmpty => &self.item_socket_empty,
            UiSpriteSheetType::MinimapArrow => &self.minimap_arrow,
            UiSpriteSheetType::ClanMarkBackground => &self.clan_mark_background,
            UiSpriteSheetType::ClanMarkForeground => &self.clan_mark_foreground,
            UiSpriteSheetType::TargetMark => &self.target_mark,
        }
    }

    /// Replaces the value held for a sheet type and leaves the others.
    pub fn set(&mut self, t: UiSpriteSheetType, value: T)
        ensures
            final(self).slot(t) == value,
            forall|u: UiSpriteSheetType| u != t ==> final(self).slot(u) == old(self).slot(u),
    {
        match t {
            UiSpriteSheetType::Ui => self.ui = value,
            UiSpriteSheetType::ExUi => self.ex_ui = value,
            UiSpriteSheetType::Item => self.item = value,
            UiSpriteSheetType::Skill => self.skill = value,
            UiSpriteSheetType::StateIcon => self.state_icon = value,
            UiSpriteSheetType::ItemSocketGem => self.item_socket_gem = value,
            UiSpriteSheetType::ItemSocketEmpty => self.item_socket_empty = value,
            UiSpriteSheetType::MinimapArrow => self.minimap_arrow = value,
            UiSpriteSheetType::ClanMarkBackground => self.clan_mark_background = value,
            UiSpriteSheetType::ClanMarkForeground => self.clan_mark_foreground = value,
            UiSpriteSheetType::TargetMark => self.target_mark = value,
        }
    }
}

} // verus!
