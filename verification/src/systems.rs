//! The rules that an engine-hosted game asks for between its frames:
//! which way the keys point, what a blow does to a monster, what ground
//! a roll lays, and what the inventory overlay says.

use crate::components::{PlayerStats, Rgb};
use crate::dice::roll_between;
use crate::terrain::{grass, rock, tree, TerrainType};
use crate::text::{decimal, pad_left, right_aligned, to_decimal};
use vstd::prelude::*;
use vstd::string::*;

verus! {

/// What every blow of the player takes from a monster.
pub const BLOW_DAMAGE: u32 = 5;

/// How a monster stands after a blow, and the message that reports it.
#[derive(Debug, Clone, PartialEq, Eq)]
pub struct Strike {
    pub hp: u32,
    pub is_alive: bool,
    pub message: String,
}

/// A monster as it is put on the map at the start: how it is drawn, the
/// cell it stands on, counted from the top left, and what it can take
/// and deal.
#[derive(Debug, Clone, Copy, PartialEq, Eq)]
pub struct Spawn {
    pub glyph: &'static str,
    pub color: Rgb,
    pub column: u32,
    pub row: u32,
    pub name: &'static str,
    pub hp: u32,
    pub max_hp: u32,
    pub strength: u32,
}

/// Whether the inventory overlay has to be drawn anew.
#[derive(Debug, Clone, Copy, PartialEq, Eq, Structural)]
pub struct InventoryState {
    pub needs_update: bool,
}

/// The step that the pressed keys ask for, in cells: up and right count
/// one forward, down and left one back, and opposite keys cancel.
pub open spec fn heading_of(up: bool, down: bool, left: bool, right: bool) -> (int, int) {
    (
        (if right {
            1int
        } else {
            0
        }) - (if left {
            1int
        } else {
            0
        }),
        (if up {
            1int
        } else {
            0
        }) - (if down {
            1int
        } else {
            0
        }),
    )
}

/// The monsters of a new game: a red oni, a green goblin and a blue
/// kappa near the top left of the map.
pub open spec fn starting_monsters() -> Seq<Spawn> {
    seq![
        Spawn {
            glyph: "鬼",
            color: Rgb { red: 100, green: 0, blue: 0 },
            column: 5,
            row: 3,
            name: "Oni",
            hp: 20,
            max_hp: 20,
            strength: 5,
        },
        Spawn {
            glyph: "G",
            color: Rgb { red: 0, green: 100, blue: 0 },
            column: 7,
            row: 3,
            name: "Goblin",
            hp: 10,
            max_hp: 10,
            strength: 3,
        },
        Spawn {
            glyph: "河",
            color: Rgb { red: 0, green: 0, blue: 100 },
            column: 5,
            row: 5,
            name: "Kappa",
            hp: 15,
            max_hp: 15,
            strength: 4,
        },
    ]
}

/// The message after a blow that kills the monster called `name`.
pub open spec fn defeat_text(name: Seq<char>) -> Seq<char> {
    "You defeated the "@ + name + "!"@
}

/// The message after a blow that leaves the monster called `name` with
/// `left` hit points.
pub open spec fn hit_text(name: Seq<char>, left: nat) -> Seq<char> {
    "You hit the "@ + name + "! ("@ + decimal(left) + " HP left)"@
}

/// The text of the inventory overlay for the given sheet.
pub open spec fn inventory_text(stats: PlayerStats) -> Seq<char> {
    "╔═══ Character Stats ═══╗\n║ Level: "@
        + right_aligned(decimal(stats.level as nat), 13)
        + " ║\n║ EXP: "@
        + decimal(stats.exp as nat)
        + "/100         ║\n║ HP: "@
        + decimal(stats.hp as nat)
        + "/"@
        + decimal(stats.max_hp as nat)
        + "           ║\n║ MP: "@
        + decimal(stats.mp as nat)
        + "/"@
        + decimal(stats.max_mp as nat)
        + "           ║\n╟──── Attributes ─────╢\n║ STR: "@
        + right_aligned(decimal(stats.strength as nat), 13)
        + " ║\n║ DEX: "@
        + right_aligned(decimal(stats.dexterity as nat), 13)
        + " ║\n║ CON: "@
        + right_aligned(decimal(stats.constitution as nat), 13)
        + " ║\n║ INT: "@
        + right_aligned(decimal(stats.intelligence as nat), 13)
        + " ║\n║ WIS: "@
        + right_aligned(decimal(stats.wisdom as nat), 13)
        + " ║\n║ CHA: "@
        + right_aligned(decimal(stats.charisma as nat), 13)
        + " ║\n╚═══════════════════════╝"@
}

/// The monsters of a new game, in the order they are put on the map.
pub fn roster() -> (monsters: Vec<Spawn>)
    ensures
        monsters@ == starting_monsters(),
{
    let monsters = vec![
        Spawn {
            glyph: "鬼",
            color: Rgb { red: 100, green: 0, blue: 0 },
            column: 5,
            row: 3,
            name: "Oni",
            hp: 20,
            max_hp: 20,
            strength: 5,
        },
        Spawn {
            glyph: "G",
            color: Rgb { red: 0, green: 100, blue: 0 },
            column: 7,
            row: 3,
            name: "Goblin",
            hp: 10,
            max_hp: 10,
            strength: 3,
        },
        Spawn {
            glyph: "河",
            color: Rgb { red: 0, green: 0, blue: 100 },
            column: 5,
            row: 5,
            name: "Kappa",
            hp: 15,
            max_hp: 15,
            strength: 4,
        },
    ];
    assert(monsters@ =~= starting_monsters());
    monsters
}

/// The step that the pressed keys ask for, in cells.
pub fn heading(up: bool, down: bool, left: bool, right: bool) -> (step: (i32, i32))
    ensures
        (step.0 as int, step.1 as int) == heading_of(up, down, left, right),
{
    let mut dx: i32 = 0;
    let mut dy: i32 = 0;
    if up {
        dy += 1;
    }
    if down {
        dy -= 1;
    }
    if left {
        dx -= 1;
    }
    if right {
        dx += 1;
    }
    (dx, dy)
}

/// The player's blow on the monster called `name` that has `hp` hit
/// points: it takes five of them, never more than there are, and the
/// monster dies when none is left.
pub fn strike(name: &str, hp: u32) -> (outcome: Strike)
    ensures
        outcome.hp == if hp >= BLOW_DAMAGE {
            hp - BLOW_DAMAGE
        } else {
            0
        },
        outcome.is_alive == (hp > BLOW_DAMAGE),
        outcome.message@ == if hp > BLOW_DAMAGE {
            hit_text(name@, (hp - BLOW_DAMAGE) as nat)
        } else {
            defeat_text(name@)
        },
{
    let left = hp.saturating_sub(BLOW_DAMAGE);
    if left == 0 {
        let mut message = String::from_str("You defeated the ");
        message.append(name);
        message.append("!");
        Strike { hp: 0, is_alive: false, message }
    } else {
        let mut message = String::from_str("You hit the ");
        message.append(name);
        message.append("! (");
        message.append(to_decimal(left as u64).as_str());
        message.append(" HP left)");
        Strike { hp: left, is_alive: true, message }
    }
}

/// The ground that `roll` lays: grass for a roll up to sixty, trees up
/// to eighty, rock above.
pub fn terrain_for_roll(roll: usize) -> (terrain: TerrainType)
    ensures
        terrain@ == if roll <= 60 {
            TerrainType::grass_view()
        } else if roll <= 80 {
            TerrainType::tree_view()
        } else {
            TerrainType::rock_view()
        },
{
    if roll <= 60 {
        grass()
    } else if roll <= 80 {
        tree()
    } else {
        rock()
    }
}

/// Ground laid by a roll of a hundred-sided die: grass, trees or rock.
pub fn random_terrain() -> (terrain: TerrainType)
    ensures
        terrain@ == TerrainType::grass_view() || terrain@ == TerrainType::tree_view() || terrain@
            == TerrainType::rock_view(),
{
    terrain_for_roll(roll_between(0, 100))
}

/// The text of the inventory overlay for the given sheet.
pub fn inventory_overlay(stats: &PlayerStats) -> (text: String)
    ensures
        text@ == inventory_text(*stats),
{
    let mut text = String::from_str("╔═══ Character Stats ═══╗\n║ Level: ");
    text.append(pad_left(to_decimal(stats.level as u64).as_str(), 13).as_str());
    text.append(" ║\n║ EXP: ");
    text.append(to_decimal(stats.exp as u64).as_str());
    text.append("/100         ║\n║ HP: ");
    text.append(to_decimal(stats.hp as u64).as_str());
    text.append("/");
    text.append(to_decimal(stats.max_hp as u64).as_str());
    text.append("           ║\n║ MP: ");
    text.append(to_decimal(stats.mp as u64).as_str());
    text.append("/");
    text.append(to_decimal(stats.max_mp as u64).as_str());
    text.append("           ║\n╟──── Attributes ─────╢\n║ STR: ");
    text.append(pad_left(to_decimal(stats.strength as u64).as_str(), 13).as_str());
    text.append(" ║\n║ DEX: ");
    text.append(pad_left(to_decimal(stats.dexterity as u64).as_str(), 13).as_str());
    text.append(" ║\n║ CON: ");
    text.append(pad_left(to_decimal(stats.constitution as u64).as_str(), 13).as_str());
    text.append(" ║\n║ INT: ");
    text.append(pad_left(to_decimal(stats.intelligence as u64).as_str(), 13).as_str());
    text.append(" ║\n║ WIS: ");
    text.append(pad_left(to_decimal(stats.wisdom as u64).as_str(), 13).as_str());
    text.append(" ║\n║ CHA: ");
    text.append(pad_left(to_decimal(stats.charisma as u64).as_str(), 13).as_str());
    text.append(" ║\n╚═══════════════════════╝");
    text
}

impl InventoryState {
    /// Whether the overlay is to be drawn now: it is if it is out of date
    /// and the inventory is open, and drawing brings it up to date.
    pub fn take_refresh(&mut self, open: bool) -> (draw: bool)
        ensures
            draw == (old(self).needs_update && open),
            final(self).needs_update == (old(self).needs_update && !open),
    {
        if !self.needs_update {
            return false;
        }
        if open {
            self.needs_update = false;
            true
        } else {
            false
        }
    }
}

} // verus!
