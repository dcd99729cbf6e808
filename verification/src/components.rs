//! What a game engine keeps for each thing it draws: the variants a map
//! cell can show, the player's sheet, and the stacks of things that share
//! a cell.

use crate::dice::random_usize;
use vstd::prelude::*;
use vstd::string::*;

verus! {

/// A colour, each channel in hundredths of its full value.
#[derive(Debug, Clone, Copy, PartialEq, Eq, Structural)]
pub struct Rgb {
    pub red: u8,
    pub green: u8,
    pub blue: u8,
}

/// A cell of the drawn map: the glyphs and colours it may show, the one
/// variant it does show, and whether it stops whoever walks into it.
#[derive(Debug, Clone)]
pub struct MapItem {
    pub character_variants: Vec<String>,
    pub color_variants: Vec<Rgb>,
    pub current_variant: usize,
    pub solid: bool,
}

/// The player's sheet, and whether the inventory is open.
#[derive(Debug, Clone, Copy, PartialEq, Eq)]
pub struct PlayerStats {
    pub level: u32,
    pub exp: u32,
    pub hp: u32,
    pub max_hp: u32,
    pub mp: u32,
    pub max_mp: u32,
    pub strength: u32,
    pub dexterity: u32,
    pub constitution: u32,
    pub intelligence: u32,
    pub wisdom: u32,
    pub charisma: u32,
    pub show_inventory: bool,
}

/// A place on the map and in the stack of things that share it.
#[derive(Debug, Clone, Copy, PartialEq, Eq, Structural)]
pub struct MapPosition {
    pub x: i32,
    pub y: i32,
    pub z: i32,
}

/// The things on each cell of a map of `width` by `height` cells: for
/// every column, for every cell of it, the stack of the identifiers of
/// what lies there, lowest first.
#[derive(Debug, Clone)]
pub struct GameMap {
    pub width: i32,
    pub height: i32,
    pub items: Vec<Vec<Vec<u64>>>,
}

/// The number of variants that a cell with so many glyphs and so many
/// colours has: the smaller of the two.
pub open spec fn variant_count(characters: int, colors: int) -> int {
    if characters <= colors {
        characters
    } else {
        colors
    }
}

impl MapItem {
    /// The variant shown is one that has both a glyph and a colour.
    pub open spec fn wf(&self) -> bool {
        self.current_variant < variant_count(
            self.character_variants.len() as int,
            self.color_variants.len() as int,
        )
    }

    /// A cell that shows the variant picked by `draw`: the remainder of
    /// the draw by the number of variants. The cell is not solid.
    pub fn with_draw(characters: Vec<String>, colors: Vec<Rgb>, draw: usize) -> (item: Self)
        requires
            characters.len() > 0,
            colors.len() > 0,
        ensures
            item.character_variants == characters,
            item.color_variants == colors,
            item.current_variant == draw % (variant_count(
                characters.len() as int,
                colors.len() as int,
            ) as usize),
            !item.solid,
            item.wf(),
    {
        let variant_count = if characters.len() <= colors.len() {
            characters.len()
        } else {
            colors.len()
        };
        MapItem {
            character_variants: characters,
            color_variants: colors,
            current_variant: draw % variant_count,
            solid: false,
        }
    }

    /// A cell that shows one of its variants, picked at random. There
    /// must be at least one glyph and one colour.
    pub fn new(characters: Vec<String>, colors: Vec<Rgb>) -> (item: Self)
        requires
            characters.len() > 0,
            colors.len() > 0,
        ensures
            item.character_variants == characters,
            item.color_variants == colors,
            !item.solid,
            item.wf(),
    {
        MapItem::with_draw(characters, colors, random_usize())
    }

    /// The glyph that the cell shows.
    pub fn current_character(&self) -> (glyph: &str)
        requires
            self.wf(),
        ensures
            glyph@ == self.character_variants[self.current_variant as int]@,
    {
        self.character_variants[self.current_variant].as_str()
    }

    /// The colour that the cell shows.
    pub fn current_color(&self) -> (color: Rgb)
        requires
            self.wf(),
        ensures
            color == self.color_variants[self.current_variant as int],
    {
        self.color_variants[self.current_variant]
    }
}

impl PlayerStats {
    /// The sheet of a new player: level one, twenty hit points, ten magic
    /// points, ten in every attribute, the inventory closed.
    pub open spec fn fresh() -> PlayerStats {
        PlayerStats {
            level: 1,
            exp: 0,
            hp: 20,
            max_hp: 20,
            mp: 10,
            max_mp: 10,
            strength: 10,
            dexterity: 10,
            constitution: 10,
            intelligence: 10,
            wisdom: 10,
            charisma: 10,
            show_inventory: false,
        }
    }

    /// Opens the inventory if it is closed and closes it if it is open,
    /// and says whether it is open now. Nothing else on the sheet changes.
    pub fn toggle_inventory(&mut self) -> (open: bool)
        ensures
            *final(self) == (PlayerStats {
                show_inventory: !old(self).show_inventory,
                ..*old(self)
            }),
            open == !old(self).show_inventory,
    {
        self.show_inventory = !self.show_inventory;
        self.show_inventory
    }
}

impl Default for PlayerStats {
    fn default() -> (stats: Self)
        ensures
            stats == PlayerStats::fresh(),
    {
        PlayerStats {
            level: 1,
            exp: 0,
            hp: 20,
            max_hp: 20,
            mp: 10,
            max_mp: 10,
            strength: 10,
            dexterity: 10,
            constitution: 10,
            intelligence: 10,
            wisdom: 10,
            charisma: 10,
            show_inventory: false,
        }
    }
}

impl GameMap {
    /// There is a stack for every cell: `width` columns of `height` cells.
    pub open spec fn wf(&self) -> bool {
        &&& 0 <= self.width
        &&& 0 <= self.height
        &&& self.items.len() == self.width
        &&& forall|x: int|
            0 <= x < self.items.len() ==> (#[trigger] self.items[x]).len() == self.height
    }

    /// `(x, y)` is a cell of the map.
    pub open spec fn holds(&self, x: i32, y: i32) -> bool {
        0 <= x < self.width && 0 <= y < self.height
    }

    /// Whether there is a stack for every cell.
    pub fn is_whole(&self) -> (whole: bool)
        ensures
            whole == self.wf(),
    {
        if self.width < 0 || self.height < 0 || self.items.len() != self.width as usize {
            return false;
        }
        let mut x: usize = 0;
        while x < self.items.len()
            invariant
                0 <= self.height,
                x <= self.items.len(),
                forall|u: int| 0 <= u < x ==> (#[trigger] self.items[u]).len() == self.height,
            decreases self.items.len() - x,
        {
            if self.items[x].len() != self.height as usize {
                assert(self.items[x as int].len() != self.height);
                return false;
            }
            x += 1;
        }
        true
    }

    /// A map of `width` by `height` cells with nothing on any of them.
    pub fn new(width: i32, height: i32) -> (map: Self)
        requires
            0 <= width,
            0 <= height,
        ensures
            map.wf(),
            map.width == width,
            map.height == height,
            forall|x: int, y: int|
                0 <= x < width && 0 <= y < height ==> (#[trigger] map.items[x][y]).len() == 0,
    {
        let mut items: Vec<Vec<Vec<u64>>> = Vec::new();
        let mut x: i32 = 0;
        while x < width
            invariant
                0 <= x <= width,
                0 <= height,
                items.len() == x,
                forall|u: int| 0 <= u < x ==> (#[trigger] items[u]).len() == height,
                forall|u: int, v: int|
                    0 <= u < x && 0 <= v < height ==> (#[trigger] items[u][v]).len() == 0,
            decreases width - x,
        {
            let mut column: Vec<Vec<u64>> = Vec::new();
            let mut y: i32 = 0;
            while y < height
                invariant
                    0 <= y <= height,
                    column.len() == y,
                    forall|v: int| 0 <= v < y ==> (#[trigger] column[v]).len() == 0,
                decreases height - y,
            {
                column.push(Vec::new());
                y += 1;
            }
            items.push(column);
            x += 1;
        }
        GameMap { width, height, items }
    }

    /// Puts `entity` on top of the stack at `(x, y)`. A place off the map
    /// is passed over: nothing changes.
    pub fn add_item(&mut self, x: i32, y: i32, entity: u64)
        requires
            old(self).wf(),
        ensures
            final(self).wf(),
            final(self).width == old(self).width,
            final(self).height == old(self).height,
            !old(self).holds(x, y) ==> final(self).items == old(self).items,
            old(self).holds(x, y) ==> final(self).items[x as int][y as int]@ == old(
                self,
            ).items[x as int][y as int]@.push(entity),
            forall|u: int, v: int|
                0 <= u < old(self).width && 0 <= v < old(self).height && !(u == x && v == y)
                    ==> #[trigger] final(self).items[u][v] == old(self).items[u][v],
    {
        if x >= 0 && x < self.width && y >= 0 && y < self.height {
            self.items[x as usize][y as usize].push(entity);
        }
    }
}

} // verus!
