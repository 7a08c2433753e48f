use vstd::prelude::*;

use crate::sheet_type::{UiSpriteSheetMap, UiSpriteSheetType};

verus! {

/// The id under which the immediate-mode renderer knows a texture.
#[derive(Clone, Copy, Debug, PartialEq, Eq, Structural)]
pub enum TextureId {
    Managed(u64),
    User(u64),
}

/// The pixel size of a loaded image.
#[derive(Clone, Copy, Debug, PartialEq, Eq, Structural)]
pub struct TextureSize {
    pub width: u32,
    pub height: u32,
}

/// A texture of the user interface: its asset handle, its renderer id, and
/// its pixel size once the image has loaded (or failed to load, in which case
/// the size is zero).
pub struct UiTexture<H> {
    pub handle: H,
    pub texture_id: TextureId,
    pub size: Option<TextureSize>,
}

/// A sprite of a sprite sheet: a pixel rectangle, bounds included, of one of
/// the sheet's textures.
pub struct TsiSprite {
    pub texture_id: u16,
    pub left: i32,
    pub top: i32,
    pub right: i32,
    pub bottom: i32,
    pub name: String,
}

/// A table from sprite names to sprite indices.
pub struct IdFile {
    pub entries: Vec<(String, u16)>,
}

/// Whether entry `i` is the first entry of `entries` named `name`.
pub open spec fn is_first_named(entries: Seq<(String, u16)>, name: Seq<char>, i: int) -> bool {
    &&& 0 <= i < entries.len()
    &&& entries[i].0@ == name
    &&& forall|j: int| 0 <= j < i ==> entries[j].0@ != name
}

/// The index that the first entry named `name` gives, if there is one.
pub open spec fn id_lookup(entries: Seq<(String, u16)>, name: Seq<char>) -> Option<u16> {
    if exists|i: int| is_first_named(entries, name, i) {
        Some(entries[choose|i: int| is_first_named(entries, name, i)].1)
    } else {
        None
    }
}

impl IdFile {
    /// The sprite index stored under a name.
    pub fn get(&self, name: &str) -> (r: Option<u16>)
        ensures
            r == id_lookup(self.entries@, name@),
            // The index stored under the first entry with that name; none when no entry has it.
            r matches Some(v) ==> exists|i: int| #![trigger self.entries@[i]]
                0 <= i < self.entries@.len() && self.entries@[i].0@ == name@ && self.entries@[i].1 == v
                    && forall|j: int| #![trigger self.entries@[j]] 0 <= j < i ==> self.entries@[j].0@ != name@,
            r is None ==> forall|i: int| #![trigger self.entries@[i]] 0 <= i < self.entries@.len() ==> self.entries@[i].0@ != name@,
    {
        let key = name.to_owned();
        let mut i: usize = 0;
        while i < self.entries.len()
            invariant
                0 <= i <= self.entries@.len(),
                key@ == name@,
                forall|j: int| 0 <= j < i ==> self.entries@[j].0@ != name@,
            decreases self.entries@.len() - i,
        {
            if self.entries[i].0 == key {
                let ghost entries = self.entries@;
                assert(is_first_named(entries, name@, i as int));
                assert forall|k: int| is_first_named(entries, name@, k) implies k == i by {
                    if k < i {
                    } else if k > i {
                        assert(entries[i as int].0@ == name@);
                    }
                }
                return Some(self.entries[i].1);
            }
            i = i + 1;
        }
        None
    }
}

/// A sheet of sprites: the sprites, the textures they are cut from, and
/// optionally the table that names them.
pub struct UiSpriteSheet<H> {
    pub sprites: Vec<TsiSprite>,
    pub loaded_textures: Vec<UiTexture<H>>,
    pub sprites_by_name: Option<IdFile>,
}

/// A texture coordinate as the fraction `numerator / denominator`.
#[derive(Clone, Copy, Debug, PartialEq, Eq, Structural)]
pub struct UvCoord {
    pub numerator: i64,
    pub denominator: i64,
}

/// A rectangle of texture coordinates.
#[derive(Clone, Copy, Debug, PartialEq, Eq, Structural)]
pub struct UvRect {
    pub min_x: UvCoord,
    pub min_y: UvCoord,
    pub max_x: UvCoord,
    pub max_y: UvCoord,
}

/// A sprite ready to be drawn: its texture, the part of the texture it
/// covers, and its size in pixels.
#[derive(Clone, Copy, Debug, PartialEq, Eq, Structural)]
pub struct UiSprite {
    pub texture_id: TextureId,
    pub uv: UvRect,
    pub width: i64,
    pub height: i64,
}

/// The coordinate of the centre of pixel `pixel` on an axis of `extent`
/// pixels: `(pixel + 1/2) / extent`.
pub open spec fn pixel_centre(pixel: i32, extent: u32) -> UvCoord {
    UvCoord { numerator: (2 * pixel + 1) as i64, denominator: (2 * extent) as i64 }
}

/// The coordinate `value / 1`.
pub open spec fn whole_coord(value: i64) -> UvCoord {
    UvCoord { numerator: value, denominator: 1 }
}

/// The texture rectangle that spans a whole texture.
pub open spec fn full_uv() -> UvRect {
    UvRect { min_x: whole_coord(0), min_y: whole_coord(0), max_x: whole_coord(1), max_y: whole_coord(1) }
}

/// The drawable sprite that a sprite rectangle cuts from a texture of a
/// given size: its corners at the centres of the corner pixels, its size the
/// number of pixels that the bounds include.
pub open spec fn sprite_in_texture(texture_id: TextureId, sprite: TsiSprite, size: TextureSize) -> UiSprite {
    UiSprite {
        texture_id,
        uv: UvRect {
            min_x: pixel_centre(sprite.left, size.width),
            min_y: pixel_centre(sprite.top, size.height),
            max_x: pixel_centre(sprite.right, size.width),
            max_y: pixel_centre(sprite.bottom, size.height),
        },
        width: (sprite.right + 1 - sprite.left) as i64,
        height: (sprite.bottom + 1 - sprite.top) as i64,
    }
}

/// The drawable sprite that spans a whole texture of a given size.
pub open spec fn whole_texture_sprite(texture_id: TextureId, size: TextureSize) -> UiSprite {
    UiSprite { texture_id, uv: full_uv(), width: size.width as i64, height: size.height as i64 }
}

fn pixel_centre_coord(pixel: i32, extent: u32) -> (c: UvCoord)
    ensures
        c == pixel_centre(pixel, extent),
{
    UvCoord { numerator: 2 * (pixel as i64) + 1, denominator: 2 * (extent as i64) }
}

fn cut_sprite(texture_id: TextureId, sprite: &TsiSprite, size: TextureSize) -> (s: UiSprite)
    ensures
        s == sprite_in_texture(texture_id, *sprite, size),
{
    UiSprite {
        texture_id,
        uv: UvRect {
            min_x: pixel_centre_coord(sprite.left, size.width),
            min_y: pixel_centre_coord(sprite.top, size.height),
            max_x: pixel_centre_coord(sprite.right, size.width),
            max_y: pixel_centre_coord(sprite.bottom, size.height),
        },
        width: (sprite.right as i64) + 1 - (sprite.left as i64),
        height: (sprite.bottom as i64) + 1 - (sprite.top as i64),
    }
}

impl<H> UiSpriteSheet<H> {
    /// The drawable sprite at an index: none when the index is past the
    /// sprites, when the sprite's texture index is past the textures, or when
    /// that texture's size is not known yet.
    pub open spec fn sprite(self, index: int) -> Option<UiSprite> {
        if 0 <= index < self.sprites@.len() {
            let sprite = self.sprites@[index];
            if (sprite.texture_id as int) < self.loaded_textures@.len() {
                let texture = self.loaded_textures@[sprite.texture_id as int];
                match texture.size {
                    Some(size) => Some(sprite_in_texture(texture.texture_id, sprite, size)),
                    None => None,
                }
            } else {
                None
            }
        } else {
            None
        }
    }

    /// The handle of the texture of the sprite at an index: none when the
    /// index is past the sprites or the sprite's texture index is past the
    /// textures.
    pub open spec fn sprite_image(self, index: int) -> Option<H> {
        if 0 <= index < self.sprites@.len() {
            let sprite = self.sprites@[index];
            if (sprite.texture_id as int) < self.loaded_textures@.len() {
                Some(self.loaded_textures@[sprite.texture_id as int].handle)
            } else {
                None
            }
        } else {
            None
        }
    }

    /// The drawable sprite that spans the first texture, once its size is
    /// known.
    pub open spec fn first_texture_sprite(self) -> Option<UiSprite> {
        let texture = self.loaded_textures@[0];
        match texture.size {
            Some(size) => Some(whole_texture_sprite(texture.texture_id, size)),
            None => None,
        }
    }

    /// The sprite index that the name table gives for a name.
    pub open spec fn named_index(self, name: Seq<char>) -> Option<u16> {
        id_lookup(self.sprites_by_name.unwrap().entries@, name)
    }
}

/// The user-interface resources: the sprite sheets, whether every texture's
/// size is known, and the dialog layouts by file name and by role.
pub struct UiResources<H, D> {
    pub loaded_all_textures: bool,
    pub sprite_sheets: UiSpriteSheetMap<Option<UiSpriteSheet<H>>>,
    pub dialog_files: Vec<(String, D)>,
    pub dialog_login: D,
    pub dialog_bank: D,
    pub dialog_character_info: D,
    pub dialog_chatbox: D,
    pub dialog_clan: D,
    pub dialog_create_avatar: D,
    pub dialog_create_clan: D,
    pub dialog_game_menu: D,
    pub dialog_message_box: D,
    pub dialog_number_input: D,
    pub dialog_minimap: D,
    pub dialog_npc_store: D,
    pub dialog_npc_transaction: D,
    pub dialog_party: D,
    pub dialog_party_option: D,
    pub dialog_personal_store: D,
    pub dialog_player_info: D,
    pub dialog_respawn: D,
    pub dialog_select_server: D,
    pub dialog_skill_list: D,
    pub dialog_skill_tree: D,
    pub skill_tree_dealer: D,
    pub skill_tree_hawker: D,
    pub skill_tree_muse: D,
    pub skill_tree_soldier: D,
}

impl<H, D> UiResources<H, D> {
    /// The drawable sprite at an index of a sheet, if the sheet is loaded.
    pub open spec fn sprite_at(self, sheet: UiSpriteSheetType, index: int) -> Option<UiSprite> {
        match self.sprite_sheets.slot(sheet) {
            Some(s) => s.sprite(index),
            None => None,
        }
    }

    /// The texture handle of the sprite at an index of a sheet, if the sheet
    /// is loaded.
    pub open spec fn image_at(self, sheet: UiSpriteSheetType, index: int) -> Option<H> {
        match self.sprite_sheets.slot(sheet) {
            Some(s) => s.sprite_image(index),
            None => None,
        }
    }

    /// Whether a name lookup in the sheet that a module id selects can
    /// consult the sheet's name table: it can when the module has no sheet,
    /// when that sheet is not loaded, or when it has a name table.
    pub open spec fn names_resolvable(self, sheet: Option<UiSpriteSheetType>) -> bool {
        match sheet {
            Some(t) => match self.sprite_sheets.slot(t) {
                Some(s) => s.sprites_by_name is Some,
                None => true,
            },
            None => true,
        }
    }

    /// The drawable sprite that a module id and a sprite name select.
    pub open spec fn named_sprite(self, module_id: int, name: Seq<char>) -> Option<UiSprite> {
        match crate::sheet_type::sprite_module_sheet(module_id) {
            Some(t) => match self.sprite_sheets.slot(t) {
                Some(s) => match s.named_index(name) {
                    Some(i) => self.sprite_at(t, i as int),
                    None => None,
                },
                None => None,
            },
            None => None,
        }
    }

    /// The texture handle that a module id and a sprite name select.
    pub open spec fn named_image(self, module_id: int, name: Seq<char>) -> Option<H> {
        match crate::sheet_type::image_module_sheet(module_id) {
            Some(t) => match self.sprite_sheets.slot(t) {
                Some(s) => match s.named_index(name) {
                    Some(i) => self.image_at(t, i as int),
                    None => None,
                },
                None => None,
            },
            None => None,
        }
    }

    /// The drawable sprite spanning the first texture of a sheet, if the
    /// sheet is loaded and the texture's size is known.
    pub open spec fn whole_sheet_sprite(self, sheet: UiSpriteSheetType) -> Option<UiSprite> {
        match self.sprite_sheets.slot(sheet) {
            Some(s) => s.first_texture_sprite(),
            None => None,
        }
    }

    /// Whether the first texture of a sheet can be read: the sheet is not
    /// loaded, or it has a texture.
    pub open spec fn first_texture_readable(self, sheet: UiSpriteSheetType) -> bool {
        match self.sprite_sheets.slot(sheet) {
            Some(s) => s.loaded_textures@.len() > 0,
            None => true,
        }
    }

    /// The sprite at an index of a sheet, ready to be drawn.
    pub fn get_sprite_by_index(&self, sprite_sheet_type: UiSpriteSheetType, sprite_index: usize) -> (r: Option<UiSprite>)
        ensures
            r == self.sprite_at(sprite_sheet_type, sprite_index as int),
            // A sprite is found exactly when its sheet is loaded, the index names a sprite, and the
            // texture that sprite names exists and has a known size.
            r is Some <==> (self.sprite_sheets.slot(sprite_sheet_type) matches Some(sheet)
                && sprite_index < sheet.sprites@.len()
                && (sheet.sprites@[sprite_index as int].texture_id as int) < sheet.loaded_textures@.len()
                && sheet.loaded_textures@[sheet.sprites@[sprite_index as int].texture_id as int].size is Some),
            // It is cut from the texture that it names: its coordinates are the centres of its
            // corner pixels over that texture's size, and its size is the pixels its bounds include.
            r matches Some(found) ==> (self.sprite_sheets.slot(sprite_sheet_type) matches Some(sheet) && ({
                let sprite = sheet.sprites@[sprite_index as int];
                let texture = sheet.loaded_textures@[sprite.texture_id as int];
                let size = texture.size.unwrap();
                &&& found.texture_id == texture.texture_id
                &&& found.uv.min_x.numerator == 2 * sprite.left + 1
                &&& found.uv.min_y.numerator == 2 * sprite.top + 1
                &&& found.uv.max_x.numerator == 2 * sprite.right + 1
                &&& found.uv.max_y.numerator == 2 * sprite.bottom + 1
                &&& found.uv.min_x.denominator == 2 * size.width
                &&& found.uv.max_x.denominator == 2 * size.width
                &&& found.uv.min_y.denominator == 2 * size.height
                &&& found.uv.max_y.denominator == 2 * size.height
                &&& found.width == sprite.right - sprite.left + 1
                &&& found.height == sprite.bottom - sprite.top + 1
            })),
    {
        let sheet = match self.sprite_sheets.get(sprite_sheet_type) {
            Some(sheet) => sheet,
            None => return None,
        };
        if sprite_index >= sheet.sprites.len() {
            return None;
        }
        let sprite = &sheet.sprites[sprite_index];
        let texture_index = sprite.texture_id as usize;
        if texture_index >= sheet.loaded_textures.len() {
            return None;
        }
        let texture = &sheet.loaded_textures[texture_index];
        match texture.size {
            Some(size) => Some(cut_sprite(texture.texture_id, sprite, size)),
            None => None,
        }
    }

    /// The sprite that a dialog module id and a sprite name select, ready to
    /// be drawn.
    pub fn get_sprite(&self, module_id: i32, sprite_name: &str) -> (r: Option<UiSprite>)
        requires
            self.names_resolvable(crate::sheet_type::sprite_module_sheet(module_id as int)),
        ensures
            r == self.named_sprite(module_id as int, sprite_name@),
    {
        let sprite_sheet_type = match UiSpriteSheetType::for_sprite_module(module_id) {
            Some(t) => t,
            None => return None,
        };
        let sprite_sheet = match self.sprite_sheets.get(sprite_sheet_type) {
            Some(sheet) => sheet,
            None => return None,
        };
        let names = match &sprite_sheet.sprites_by_name {
            Some(names) => names,
            None => return None,
        };
        match names.get(sprite_name) {
            Some(sprite_index) => self.get_sprite_by_index(sprite_sheet_type, sprite_index as usize),
            None => None,
        }
    }

    /// The texture handle of the sprite at an index of a sheet.
    pub fn get_sprite_image_by_index(&self, sprite_sheet_type: UiSpriteSheetType, sprite_index: usize) -> (r: Option<&H>)
        ensures
            r is Some <==> self.image_at(sprite_sheet_type, sprite_index as int) is Some,
            r matches Some(h) ==> self.image_at(sprite_sheet_type, sprite_index as int) == Some(*h),
            // An image is found exactly when the sheet is loaded, the index names a sprite and the
            // texture it names exists; it is the handle of that texture, known size or not.
            r is Some <==> (self.sprite_sheets.slot(sprite_sheet_type) matches Some(sheet)
                && sprite_index < sheet.sprites@.len()
                && (sheet.sprites@[sprite_index as int].texture_id as int) < sheet.loaded_textures@.len()),
            r matches Some(h) ==> (self.sprite_sheets.slot(sprite_sheet_type) matches Some(sheet)
                && *h == sheet.loaded_textures@[sheet.sprites@[sprite_index as int].texture_id as int].handle),
    {
        let sheet = match self.sprite_sheets.get(sprite_sheet_type) {
            Some(sheet) => sheet,
            None => return None,
        };
        if sprite_index >= sheet.sprites.len() {
            return None;
        }
        let texture_index = sheet.sprites[sprite_index].texture_id as usize;
        if texture_index >= sheet.loaded_textures.len() {
            return None;
        }
        Some(&sheet.loaded_textures[texture_index].handle)
    }

    /// The texture handle of the sprite that a dialog module id and a sprite
    /// name select.
    pub fn get_sprite_image(&self, module_id: i32, sprite_name: &str) -> (r: Option<&H>)
        requires
            self.names_resolvable(crate::sheet_type::image_module_sheet(module_id as int)),
        ensures
            r is Some <==> self.named_image(module_id as int, sprite_name@) is Some,
            r matches Some(h) ==> self.named_image(module_id as int, sprite_name@) == Some(*h),
    {
        let sprite_sheet_type = match UiSpriteSheetType::for_image_module(module_id) {
            Some(t) => t,
            None => return None,
        };
        let sprite_sheet = match self.sprite_sheets.get(sprite_sheet_type) {
            Some(sheet) => sheet,
            None => return None,
        };
        let names = match &sprite_sheet.sprites_by_name {
            Some(names) => names,
            None => return None,
        };
        match names.get(sprite_name) {
            Some(sprite_index) => self.get_sprite_image_by_index(sprite_sheet_type, sprite_index as usize),
            None => None,
        }
    }

    fn whole_first_texture(&self, sheet: UiSpriteSheetType) -> (r: Option<UiSprite>)
        requires
            self.first_texture_readable(sheet),
        ensures
            r == self.whole_sheet_sprite(sheet),
    {
        let sprite_sheet = match self.sprite_sheets.get(sheet) {
            Some(s) => s,
            None => return None,
        };
        let texture = &sprite_sheet.loaded_textures[0];
        match texture.size {
            Some(size) => Some(UiSprite {
                texture_id: texture.texture_id,
                uv: UvRect {
                    min_x: UvCoord { numerator: 0, denominator: 1 },
                    min_y: UvCoord { numerator: 0, denominator: 1 },
                    max_x: UvCoord { numerator: 1, denominator: 1 },
                    max_y: UvCoord { numerator: 1, denominator: 1 },
                },
                width: size.width as i64,
                height: size.height as i64,
            }),
            None => None,
        }
    }

    /// The empty item socket, drawn as its whole texture.
    pub fn get_item_socket_sprite(&self) -> (r: Option<UiSprite>)
        requires
            self.first_texture_readable(UiSpriteSheetType::ItemSocketEmpty),
        ensures
            r == self.whole_sheet_sprite(UiSpriteSheetType::ItemSocketEmpty),
            // Drawn from the sheet's first texture, once its size is known, corner to corner and as
            // large as the texture.
            r is Some <==> (self.sprite_sheets.slot(UiSpriteSheetType::ItemSocketEmpty) matches Some(sheet)
                && sheet.loaded_textures@[0].size is Some),
            r matches Some(found) ==> (self.sprite_sheets.slot(UiSpriteSheetType::ItemSocketEmpty) matches Some(sheet) && ({
                let texture = sheet.loaded_textures@[0];
                &&& found.texture_id == texture.texture_id
                &&& found.width == texture.size.unwrap().width
                &&& found.height == texture.size.unwrap().height
                &&& found.uv.min_x.numerator == 0 && found.uv.min_y.numerator == 0
                &&& found.uv.max_x.numerator == 1 && found.uv.max_y.numerator == 1
                &&& found.uv.min_x.denominator == 1 && found.uv.min_y.denominator == 1
                &&& found.uv.max_x.denominator == 1 && found.uv.max_y.denominator == 1
            })),
    {
        self.whole_first_texture(UiSpriteSheetType::ItemSocketEmpty)
    }

    /// The player arrow of the minimap, drawn as its whole texture.
    pub fn get_minimap_player_sprite(&self) -> (r: Option<UiSprite>)
        requires
            self.first_texture_readable(UiSpriteSheetType::MinimapArrow),
        ensures
            r == self.whole_sheet_sprite(UiSpriteSheetType::MinimapArrow),
            // Drawn from the sheet's first texture, once its size is known, corner to corner and as
            // large as the texture.
            r is Some <==> (self.sprite_sheets.slot(UiSpriteSheetType::MinimapArrow) matches Some(sheet)
                && sheet.loaded_textures@[0].size is Some),
            r matches Some(found) ==> (self.sprite_sheets.slot(UiSpriteSheetType::MinimapArrow) matches Some(sheet) && ({
                let texture = sheet.loaded_textures@[0];
                &&& found.texture_id == texture.texture_id
                &&& found.width == texture.size.unwrap().width
                &&& found.height == texture.size.unwrap().height
                &&& found.uv.min_x.numerator == 0 && found.uv.min_y.numerator == 0
                &&& found.uv.max_x.numerator == 1 && found.uv.max_y.numerator == 1
                &&& found.uv.min_x.denominator == 1 && found.uv.min_y.denominator == 1
                &&& found.uv.max_x.denominator == 1 && found.uv.max_y.denominator == 1
            })),
    {
        self.whole_first_texture(UiSpriteSheetType::MinimapArrow)
    }
}

/// A sprite depends only on the sprite entry and the texture that entry
/// names: two sheets that agree on these give the same sprite, whatever
/// their other textures are.
pub proof fn lemma_sprite_depends_only_on_its_texture<H>(a: UiSpriteSheet<H>, b: UiSpriteSheet<H>, index: int)
    requires
        0 <= index < a.sprites@.len(),
        index < b.sprites@.len(),
        a.sprites@[index] == b.sprites@[index],
        (a.sprites@[index].texture_id as int) < a.loaded_textures@.len(),
        (a.sprites@[index].texture_id as int) < b.loaded_textures@.len(),
        a.loaded_textures@[a.sprites@[index].texture_id as int].texture_id
            == b.loaded_textures@[a.sprites@[index].texture_id as int].texture_id,
        a.loaded_textures@[a.sprites@[index].texture_id as int].size
            == b.loaded_textures@[a.sprites@[index].texture_id as int].size,
    ensures
        a.sprite(index) == b.sprite(index),
        a.sprite(index) is Some <==> a.loaded_textures@[a.sprites@[index].texture_id as int].size is Some,
{
}

/// A lookup by module id and name is the lookup by index of the index that
/// the name table of the module's sheet gives, and finds nothing when the
/// module names no sheet, the sheet is not loaded, or the name is unknown.
pub proof fn lemma_named_sprite_is_indexed_sprite<H, D>(resources: UiResources<H, D>, module_id: int, name: Seq<char>)
    ensures
        crate::sheet_type::sprite_module_sheet(module_id) is None ==> resources.named_sprite(module_id, name) is None,
        crate::sheet_type::sprite_module_sheet(module_id) matches Some(t) ==> {
            match resources.sprite_sheets.slot(t) {
                Some(sheet) => match id_lookup(sheet.sprites_by_name.unwrap().entries@, name) {
                    Some(i) => resources.named_sprite(module_id, name) == resources.sprite_at(t, i as int),
                    None => resources.named_sprite(module_id, name) is None,
                },
                None => resources.named_sprite(module_id, name) is None,
            }
        },
        crate::sheet_type::image_module_sheet(module_id) matches Some(t) ==> {
            match resources.sprite_sheets.slot(t) {
                Some(sheet) => match id_lookup(sheet.sprites_by_name.unwrap().entries@, name) {
                    Some(i) => resources.named_image(module_id, name) == resources.image_at(t, i as int),
                    None => resources.named_image(module_id, name) is None,
                },
                None => resources.named_image(module_id, name) is None,
            }
        },
{
}

/// A sprite found by a module id and a name, in a module whose images can be
/// looked up, is cut from the texture whose handle the same lookup of its
/// image gives.
pub proof fn lemma_named_sprite_has_named_image<H, D>(resources: UiResources<H, D>, module_id: int, name: Seq<char>)
    requires
        crate::sheet_type::image_module_sheet(module_id) is Some,
        resources.named_sprite(module_id, name) is Some,
    ensures
        resources.named_image(module_id, name) is Some,
        exists|sheet: UiSpriteSheet<H>, texture: int| {
            &&& 0 <= texture < sheet.loaded_textures@.len()
            &&& resources.named_image(module_id, name) == Some(sheet.loaded_textures@[texture].handle)
            &&& resources.named_sprite(module_id, name).unwrap().texture_id == sheet.loaded_textures@[texture].texture_id
        },
{
    let t = crate::sheet_type::image_module_sheet(module_id).unwrap();
    let sheet = resources.sprite_sheets.slot(t).unwrap();
    let i = sheet.named_index(name).unwrap() as int;
    let texture = sheet.sprites@[i].texture_id as int;
    assert(resources.named_image(module_id, name) == Some(sheet.loaded_textures@[texture].handle));
}

/// A whole-texture sprite covers its texture from corner to corner and is as
/// large as the texture.
pub proof fn lemma_whole_texture_sprite_spans_texture(texture_id: TextureId, size: TextureSize)
    ensures
        whole_texture_sprite(texture_id, size).uv == full_uv(),
        whole_texture_sprite(texture_id, size).width == size.width,
        whole_texture_sprite(texture_id, size).height == size.height,
        full_uv().min_x.numerator == 0 && full_uv().max_x.numerator == full_uv().max_x.denominator,
{
}

/// A cut sprite is one pixel wide and high when its bounds coincide, and its
/// texture rectangle runs from the centre of its first pixel to the centre
/// of its last.
pub proof fn lemma_sprite_extent(texture_id: TextureId, sprite: TsiSprite, size: TextureSize)
    ensures
        sprite_in_texture(texture_id, sprite, size).width == sprite.right as int - sprite.left as int + 1,
        sprite_in_texture(texture_id, sprite, size).height == sprite.bottom as int - sprite.top as int + 1,
        sprite.left == sprite.right ==> sprite_in_texture(texture_id, sprite, size).uv.min_x
            == sprite_in_texture(texture_id, sprite, size).uv.max_x,
{
}

} // verus!
