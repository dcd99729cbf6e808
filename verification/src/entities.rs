//! What stands on the grid: the player, the monsters, items, and the land
//! under them. Each is drawn from an [`Entity`], the fixed description of
//! how a thing is named and shown.

use crate::dice::roll_between;
use vstd::prelude::*;

verus! {

/// The names of a thing, and which of them to show.
#[derive(Debug, Clone, Copy, PartialEq, Eq)]
pub struct EntityName {
    pub english_name: &'static str,
    pub japanese_name: Option<&'static str>,
    pub discovered: bool,
    pub use_japanese: bool,
}

/// How a thing is shown: three glyphs and three colours (written
/// `0xRRGGBB`) to vary it, its opacity, and whether it blocks the view.
#[derive(Debug, Clone, Copy, PartialEq, Eq)]
pub struct Entity {
    pub name: EntityName,
    pub description: &'static str,
    pub symbols: [&'static str; 3],
    pub colors: [u32; 3],
    pub opacity: u8,
    pub visibly_blocking: bool,
}

/// A creature that fights back. A monster whose hit points reach zero is
/// marked dead and stays where it fell.
#[derive(Debug, Clone, Copy, PartialEq, Eq)]
pub struct Monster {
    pub entity: Entity,
    pub position: (usize, usize),
    pub hp: u32,
    pub max_hp: u32,
    pub strength: u32,
    pub is_alive: bool,
}

/// A thing that can be picked up.
#[derive(Debug, Clone, Copy, PartialEq, Eq)]
pub struct Item {
    pub entity: Entity,
}

/// A kind of ground: how it looks, and whether it can be walked on.
#[derive(Debug, Clone, Copy, PartialEq, Eq)]
pub struct Land {
    pub entity: Entity,
    pub blocking: bool,
}

/// One cell of ground: its kind, which of the kind's glyphs and colours
/// the cell shows, and where it lies.
#[derive(Debug, Clone, Copy, PartialEq, Eq)]
pub struct LandInstance {
    pub template: Land,
    pub symbol_index: usize,
    pub color_index: usize,
    pub position: (usize, usize),
}

/// The player: where they stand, and their level, experience and
/// attributes.
#[derive(Debug, Clone, Copy, PartialEq, Eq)]
pub struct Player {
    pub entity: Entity,
    pub position: (usize, usize),
    pub level: u32,
    pub exp: u32,
    pub hp: u32,
    pub max_hp: u32,
    pub mp: u32,
    pub max_mp: u32,
    pub strength: u32,
    pub dexterity: u32,
    pub constitution: u32,
    pub intelligence: u32,
    pub wisdom: u32,
    pub charisma: u32,
}

/// Wooded land.
pub open spec fn tree_land() -> Land {
    Land {
        entity: Entity {
            name: EntityName {
                english_name: "Land",
                japanese_name: Some("地"),
                discovered: true,
                use_japanese: true,
            },
            description: "You are on land",
            symbols: ["木", "林", "森"],
            colors: [0x34623f, 0x607744, 0x31572c],
            opacity: 255,
            visibly_blocking: false,
        },
        blocking: false,
    }
}

/// Bare earth.
pub open spec fn dirt_land() -> Land {
    Land {
        entity: Entity {
            name: EntityName {
                english_name: "Land",
                japanese_name: Some("地"),
                discovered: true,
                use_japanese: true,
            },
            description: "You are on land",
            symbols: [". ", " .", ".."],
            colors: [0x806443, 0x685634, 0x806443],
            opacity: 255,
            visibly_blocking: false,
        },
        blocking: false,
    }
}

/// Wooded land: three tree glyphs in three greens, open to walk on.
pub fn land_tree() -> (land: Land)
    ensures
        land == tree_land(),
{
    Land {
        entity: Entity {
            name: EntityName {
                english_name: "Land",
                japanese_name: Some("地"),
                discovered: true,
                use_japanese: true,
            },
            description: "You are on land",
            symbols: ["木", "林", "森"],
            colors: [0x34623f, 0x607744, 0x31572c],
            opacity: 255,
            visibly_blocking: false,
        },
        blocking: false,
    }
}

/// Bare earth: three dotted glyphs in two browns, open to walk on.
pub fn land_dirt() -> (land: Land)
    ensures
        land == dirt_land(),
{
    Land {
        entity: Entity {
            name: EntityName {
                english_name: "Land",
                japanese_name: Some("地"),
                discovered: true,
                use_japanese: true,
            },
            description: "You are on land",
            symbols: [". ", " .", ".."],
            colors: [0x806443, 0x685634, 0x806443],
            opacity: 255,
            visibly_blocking: false,
        },
        blocking: false,
    }
}

impl Player {
    /// The player at the start of a game on a grid of `width` by `height`
    /// cells: level one, twenty hit points, ten in every attribute,
    /// standing in the middle.
    pub open spec fn fresh(width: usize, height: usize) -> Player {
        Player {
            entity: Entity {
                name: EntityName {
                    english_name: "Player",
                    japanese_name: Some("プレイヤー"),
                    discovered: true,
                    use_japanese: true,
                },
                description: "You are the player",
                symbols: ["@/", "\\@", "@|"],
                colors: [0xffedd8, 0xf3d5b5, 0xe7bc91],
                opacity: 255,
                visibly_blocking: true,
            },
            position: ((width / 2) as usize, (height / 2) as usize),
            level: 1,
            exp: 0,
            hp: 20,
            max_hp: 20,
            mp: 10,
            max_mp: 10,
            strength: 10,
            dexterity: 10,
            constitution: 10,
            intelligence: 10,
            wisdom: 10,
            charisma: 10,
        }
    }

    /// A new player in the middle of a grid of `width` by `height` cells.
    pub fn new(width: usize, height: usize) -> (player: Self)
        ensures
            player == Player::fresh(width, height),
    {
        Player {
            entity: Entity {
                name: EntityName {
                    english_name: "Player",
                    japanese_name: Some("プレイヤー"),
                    discovered: true,
                    use_japanese: true,
                },
                description: "You are the player",
                symbols: ["@/", "\\@", "@|"],
                colors: [0xffedd8, 0xf3d5b5, 0xe7bc91],
                opacity: 255,
                visibly_blocking: true,
            },
            position: (width / 2, height / 2),
            level: 1,
            exp: 0,
            hp: 20,
            max_hp: 20,
            mp: 10,
            max_mp: 10,
            strength: 10,
            dexterity: 10,
            constitution: 10,
            intelligence: 10,
            wisdom: 10,
            charisma: 10,
        }
    }
}

impl Monster {
    /// The monster is alive and stands on `position`.
    pub open spec fn holds(self, position: (usize, usize)) -> bool {
        self.is_alive && self.position == position
    }

    /// A living goblin on `position`: ten hit points, strength three.
    pub open spec fn goblin_at(position: (usize, usize)) -> Monster {
        Monster {
            entity: Entity {
                name: EntityName {
                    english_name: "Goblin",
                    japanese_name: Some("ゴブリン"),
                    discovered: true,
                    use_japanese: true,
                },
                description: "A nasty goblin",
                symbols: ["G ", "g ", "G!"],
                colors: [0x00FF00, 0x32CD32, 0x228B22],
                opacity: 255,
                visibly_blocking: true,
            },
            position,
            hp: 10,
            max_hp: 10,
            strength: 3,
            is_alive: true,
        }
    }

    /// A living oni on `position`: twenty hit points, strength five.
    pub open spec fn oni_at(position: (usize, usize)) -> Monster {
        Monster {
            entity: Entity {
                name: EntityName {
                    english_name: "Oni",
                    japanese_name: Some("鬼"),
                    discovered: true,
                    use_japanese: true,
                },
                description: "A fearsome demon",
                symbols: ["鬼", "鬼", "鬼"],
                colors: [0xFF0000, 0xCC0000, 0x990000],
                opacity: 255,
                visibly_blocking: true,
            },
            position,
            hp: 20,
            max_hp: 20,
            strength: 5,
            is_alive: true,
        }
    }

    /// A living kappa on `position`: fifteen hit points, strength four.
    pub open spec fn kappa_at(position: (usize, usize)) -> Monster {
        Monster {
            entity: Entity {
                name: EntityName {
                    english_name: "Kappa",
                    japanese_name: Some("河童"),
                    discovered: true,
                    use_japanese: true,
                },
                description: "A water imp",
                symbols: ["河", "童", "河"],
                colors: [0x0000FF, 0x0000CC, 0x000099],
                opacity: 255,
                visibly_blocking: true,
            },
            position,
            hp: 15,
            max_hp: 15,
            strength: 4,
            is_alive: true,
        }
    }

    /// A goblin three cells to the right of the middle of the grid.
    pub open spec fn goblin(width: usize, height: usize) -> Monster {
        Monster::goblin_at(((width / 2 + 3) as usize, (height / 2) as usize))
    }

    /// An oni three cells to the left of the middle of the grid.
    pub open spec fn oni(width: usize, height: usize) -> Monster {
        Monster::oni_at(((width / 2 - 3) as usize, (height / 2) as usize))
    }

    /// A kappa three cells below the middle of the grid.
    pub open spec fn kappa(width: usize, height: usize) -> Monster {
        Monster::kappa_at(((width / 2) as usize, (height / 2 + 3) as usize))
    }

    /// A living goblin on `position`.
    pub fn new_goblin_at(position: (usize, usize)) -> (monster: Self)
        ensures
            monster == Monster::goblin_at(position),
    {
        Monster {
            entity: Entity {
                name: EntityName {
                    english_name: "Goblin",
                    japanese_name: Some("ゴブリン"),
                    discovered: true,
                    use_japanese: true,
                },
                description: "A nasty goblin",
                symbols: ["G ", "g ", "G!"],
                colors: [0x00FF00, 0x32CD32, 0x228B22],
                opacity: 255,
                visibly_blocking: true,
            },
            position,
            hp: 10,
            max_hp: 10,
            strength: 3,
            is_alive: true,
        }
    }

    /// A living oni on `position`.
    pub fn new_oni_at(position: (usize, usize)) -> (monster: Self)
        ensures
            monster == Monster::oni_at(position),
    {
        Monster {
            entity: Entity {
                name: EntityName {
                    english_name: "Oni",
                    japanese_name: Some("鬼"),
                    discovered: true,
                    use_japanese: true,
                },
                description: "A fearsome demon",
                symbols: ["鬼", "鬼", "鬼"],
                colors: [0xFF0000, 0xCC0000, 0x990000],
                opacity: 255,
                visibly_blocking: true,
            },
            position,
            hp: 20,
            max_hp: 20,
            strength: 5,
            is_alive: true,
        }
    }

    /// A living kappa on `position`.
    pub fn new_kappa_at(position: (usize, usize)) -> (monster: Self)
        ensures
            monster == Monster::kappa_at(position),
    {
        Monster {
            entity: Entity {
                name: EntityName {
                    english_name: "Kappa",
                    japanese_name: Some("河童"),
                    discovered: true,
                    use_japanese: true,
                },
                description: "A water imp",
                symbols: ["河", "童", "河"],
                colors: [0x0000FF, 0x0000CC, 0x000099],
                opacity: 255,
                visibly_blocking: true,
            },
            position,
            hp: 15,
            max_hp: 15,
            strength: 4,
            is_alive: true,
        }
    }

    /// A living goblin three cells to the right of the middle of a grid
    /// of `width` by `height` cells.
    pub fn new_goblin(width: usize, height: usize) -> (monster: Self)
        ensures
            monster == Monster::goblin(width, height),
    {
        Monster::new_goblin_at((width / 2 + 3, height / 2))
    }

    /// A living oni three cells to the left of the middle of a grid of
    /// `width` by `height` cells. The grid must be wide enough to have
    /// such a cell.
    pub fn new_oni(width: usize, height: usize) -> (monster: Self)
        requires
            width / 2 >= 3,
        ensures
            monster == Monster::oni(width, height),
    {
        Monster::new_oni_at((width / 2 - 3, height / 2))
    }

    /// A living kappa three cells below the middle of a grid of `width`
    /// by `height` cells.
    pub fn new_kappa(width: usize, height: usize) -> (monster: Self)
        ensures
            monster == Monster::kappa(width, height),
    {
        Monster::new_kappa_at((width / 2, height / 2 + 3))
    }
}

impl LandInstance {
    /// Both variant indices point into the kind's three glyphs and three
    /// colours.
    pub open spec fn wf(self) -> bool {
        self.symbol_index < 3 && self.color_index < 3
    }

    /// The cell is the `index`-th of a grid of the given `width`, counted
    /// row by row, and is wooded or bare.
    pub open spec fn laid_at(self, index: int, width: int) -> bool {
        &&& self.wf()
        &&& self.position.0 == index % width
        &&& self.position.1 == index / width
        &&& (self.template == tree_land() || self.template == dirt_land())
    }

    /// The cell that the three draws make at `position`: wooded where
    /// `kind_draw` is below three (three chances in ten), else bare.
    pub open spec fn drawn(
        kind_draw: usize,
        symbol_index: usize,
        color_index: usize,
        position: (usize, usize),
    ) -> LandInstance {
        LandInstance {
            template: if kind_draw < 3 {
                tree_land()
            } else {
                dirt_land()
            },
            symbol_index,
            color_index,
            position,
        }
    }

    /// Makes a cell from three draws.
    pub fn from_draws(
        kind_draw: usize,
        symbol_index: usize,
        color_index: usize,
        position: (usize, usize),
    ) -> (cell: LandInstance)
        ensures
            cell == LandInstance::drawn(kind_draw, symbol_index, color_index, position),
    {
        let template = if kind_draw < 3 {
            land_tree()
        } else {
            land_dirt()
        };
        LandInstance { template, symbol_index, color_index, position }
    }

    /// The glyph that the cell shows.
    pub fn symbol(&self) -> (s: &'static str)
        requires
            self.wf(),
        ensures
            s == self.template.entity.symbols[self.symbol_index as int],
    {
        self.template.entity.symbols[self.symbol_index]
    }

    /// The colour that the cell shows, before any light falls on it.
    pub fn color(&self) -> (c: u32)
        requires
            self.wf(),
        ensures
            c == self.template.entity.colors[self.color_index as int],
    {
        self.template.entity.colors[self.color_index]
    }

    /// Ground for a grid of `width` by `height` cells, row by row. Each
    /// cell is wooded with three chances in ten and bare otherwise, and
    /// shows a glyph and a colour of its kind picked at random.
    pub fn generate_terrain(width: usize, height: usize) -> (terrain: Vec<LandInstance>)
        requires
            width * height <= usize::MAX,
        ensures
            terrain.len() == width * height,
            forall|i: int|
                0 <= i < terrain.len() ==> (#[trigger] terrain[i]).laid_at(i, width as int),
    {
        let size = width * height;
        let mut terrain: Vec<LandInstance> = Vec::new();
        let mut i: usize = 0;
        while i < size
            invariant
                i <= size,
                size == width * height,
                terrain.len() == i,
                forall|j: int| 0 <= j < i ==> (#[trigger] terrain[j]).laid_at(j, width as int),
            decreases size - i,
        {
            assert(width > 0) by (nonlinear_arith)
                requires
                    i < width * height,
            ;
            let kind_draw = roll_between(0, 10);
            let symbol_index = roll_between(0, 3);
            let color_index = roll_between(0, 3);
            let cell = LandInstance::from_draws(
                kind_draw,
                symbol_index,
                color_index,
                (i % width, i / width),
            );
            terrain.push(cell);
            i += 1;
        }
        terrain
    }
}

} // verus!
