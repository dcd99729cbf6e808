//! What the screen shows: for every cell of the grid the glyph that wins
//! it, the line that reports the last fight, and the character sheet.
//! Light and colour are laid over the glyphs by whoever draws them.

use crate::light::{period_of, time_of_day};
use crate::text::{decimal, left_aligned, pad_left, pad_right, right_aligned, to_decimal};
use crate::time::{get_moon_phase, get_season, moon_phase, season};
use crate::world::{first_living_at, WorldMap, WorldView};
use vstd::prelude::*;
use vstd::string::*;

verus! {

/// What one cell shows: a glyph, and its colour (written `0xRRGGBB`)
/// before any light falls on it.
#[derive(Debug, Clone, Copy, PartialEq, Eq)]
pub struct Glyph {
    pub symbol: &'static str,
    pub color: u32,
}

/// A row of the sheet that shows a number, pushed to the right of a
/// field, between two fixed parts.
pub open spec fn number_row(head: Seq<char>, n: nat, width: nat, tail: Seq<char>) -> Seq<char> {
    head + right_aligned(decimal(n), width) + tail
}

/// A row of the sheet that shows two numbers, each in a field of three.
pub open spec fn ratio_row(
    head: Seq<char>,
    n: nat,
    mid: Seq<char>,
    m: nat,
    tail: Seq<char>,
) -> Seq<char> {
    head + right_aligned(decimal(n), 3) + mid + right_aligned(decimal(m), 3) + tail
}

/// A row of the sheet that shows a word, at the left of a field, between
/// two fixed parts.
pub open spec fn label_row(head: Seq<char>, label: Seq<char>, width: nat, tail: Seq<char>) -> Seq<
    char,
> {
    head + left_aligned(label, width) + tail
}

/// The character sheet of the world's player, row by row: level and
/// experience, hit and magic points, the six attributes, and the time,
/// the period of the day, the day, the moon and the season.
pub open spec fn character_sheet(world: WorldView) -> Seq<Seq<char>> {
    seq![
        "╔═══════════════════╗"@,
        "║  Character Sheet  ║"@,
        "╠═══════════════════╣"@,
        number_row("║ Level: "@, world.player.level as nat, 3, "        ║"@),
        number_row("║ EXP: "@, world.player.exp as nat, 3, "/100      ║"@),
        "╟───────────────────╢"@,
        ratio_row("║ HP: "@, world.player.hp as nat, "/"@, world.player.max_hp as nat, "       ║"@),
        ratio_row("║ MP: "@, world.player.mp as nat, "/"@, world.player.max_mp as nat, "       ║"@),
        "╟───────────────────╢"@,
        "║      Stats        ║"@,
        "╟───────────────────╢"@,
        number_row("║ STR: "@, world.player.strength as nat, 3, "          ║"@),
        number_row("║ DEX: "@, world.player.dexterity as nat, 3, "          ║"@),
        number_row("║ CON: "@, world.player.constitution as nat, 3, "          ║"@),
        number_row("║ INT: "@, world.player.intelligence as nat, 3, "          ║"@),
        number_row("║ WIS: "@, world.player.wisdom as nat, 3, "          ║"@),
        number_row("║ CHA: "@, world.player.charisma as nat, 3, "          ║"@),
        "╟───────────────────╢"@,
        "║    Environment    ║"@,
        "╟───────────────────╢"@,
        number_row("║ Time: "@, world.time_tick as nat, 10, "  ║"@),
        label_row("║ Period: "@, period_of(world.time_tick as nat).label(), 8, "  ║"@),
        number_row("║ Day: "@, world.day as nat, 11, "  ║"@),
        label_row("║ Moon: "@, moon_phase(world.day as nat).label(), 10, "  ║"@),
        label_row("║ Season: "@, season(world.day as nat).label(), 8, "  ║"@),
        "╚═══════════════════╝"@,
    ]
}

/// The line that reports a fight.
pub open spec fn combat_text(message: Seq<char>) -> Seq<char> {
    "Combat: "@ + message
}

impl WorldView {
    /// What the cell at `position` shows. The first living monster on it
    /// wins the cell and shows its first glyph in its first colour; else
    /// the player, if they stand there, shows their first glyph in their
    /// second colour; else the land shows the glyph and colour picked
    /// for the cell.
    pub open spec fn glyph_at(self, position: (usize, usize)) -> Glyph {
        match first_living_at(self.monsters, position) {
            Some(i) => Glyph {
                symbol: self.monsters[i].entity.symbols[0],
                color: self.monsters[i].entity.colors[0],
            },
            None => if self.player.position == position {
                Glyph { symbol: self.player.entity.symbols[0], color: self.player.entity.colors[1] }
            } else {
                let land = self.land_at(position);
                Glyph {
                    symbol: land.template.entity.symbols[land.symbol_index as int],
                    color: land.template.entity.colors[land.color_index as int],
                }
            },
        }
    }
}

fn number_line(head: &str, n: u64, width: usize, tail: &str) -> (line: String)
    ensures
        line@ == number_row(head@, n as nat, width as nat, tail@),
{
    let mut line = String::from_str(head);
    line.append(pad_left(to_decimal(n).as_str(), width).as_str());
    line.append(tail);
    line
}

fn ratio_line(head: &str, n: u64, mid: &str, m: u64, tail: &str) -> (line: String)
    ensures
        line@ == ratio_row(head@, n as nat, mid@, m as nat, tail@),
{
    let mut line = String::from_str(head);
    line.append(pad_left(to_decimal(n).as_str(), 3).as_str());
    line.append(mid);
    line.append(pad_left(to_decimal(m).as_str(), 3).as_str());
    line.append(tail);
    line
}

fn label_line(head: &str, label: &str, width: usize, tail: &str) -> (line: String)
    ensures
        line@ == label_row(head@, label@, width as nat, tail@),
{
    let mut line = String::from_str(head);
    line.append(pad_right(label, width).as_str());
    line.append(tail);
    line
}

impl WorldMap {
    /// What the cell at `position` shows.
    pub fn glyph_at(&self, position: (usize, usize)) -> (glyph: Glyph)
        requires
            self@.wf(),
            position.0 < self.width,
            position.1 < self.height,
        ensures
            glyph == self@.glyph_at(position),
    {
        match self.monster_at(position) {
            Some(i) => Glyph {
                symbol: self.monsters[i].entity.symbols[0],
                color: self.monsters[i].entity.colors[0],
            },
            None => {
                if self.player.position.0 == position.0 && self.player.position.1 == position.1 {
                    Glyph {
                        symbol: self.player.entity.symbols[0],
                        color: self.player.entity.colors[1],
                    }
                } else {
                    let land = self.land_on(position);
                    Glyph { symbol: land.symbol(), color: land.color() }
                }
            },
        }
    }

    /// The whole grid, row by row from the top, each row from the left.
    pub fn frame(&self) -> (rows: Vec<Vec<Glyph>>)
        requires
            self@.wf(),
        ensures
            rows.len() == self.height,
            forall|y: int| 0 <= y < rows.len() ==> (#[trigger] rows[y]).len() == self.width,
            forall|x: int, y: int|
                0 <= y < self.height && 0 <= x < self.width ==> #[trigger] rows[y][x]
                    == self@.glyph_at((x as usize, y as usize)),
    {
        let mut rows: Vec<Vec<Glyph>> = Vec::new();
        let mut y: usize = 0;
        while y < self.height
            invariant
                self@.wf(),
                y <= self.height,
                rows.len() == y,
                forall|v: int| 0 <= v < y ==> (#[trigger] rows[v]).len() == self.width,
                forall|u: int, v: int|
                    0 <= v < y && 0 <= u < self.width ==> #[trigger] rows[v][u]
                        == self@.glyph_at((u as usize, v as usize)),
            decreases self.height - y,
        {
            let mut row: Vec<Glyph> = Vec::new();
            let mut x: usize = 0;
            while x < self.width
                invariant
                    self@.wf(),
                    y < self.height,
                    x <= self.width,
                    row.len() == x,
                    forall|u: int|
                        0 <= u < x ==> #[trigger] row[u] == self@.glyph_at((u as usize, y)),
                decreases self.width - x,
            {
                row.push(self.glyph_at((x, y)));
                x += 1;
            }
            rows.push(row);
            y += 1;
        }
        rows
    }

    /// The character sheet, row by row.
    pub fn stat_lines(&self) -> (lines: Vec<String>)
        ensures
            lines.deep_view() == character_sheet(self@),
    {
        let mut lines: Vec<String> = Vec::new();
        lines.push(String::from_str("╔═══════════════════╗"));
        lines.push(String::from_str("║  Character Sheet  ║"));
        lines.push(String::from_str("╠═══════════════════╣"));
        lines.push(number_line("║ Level: ", self.player.level as u64, 3, "        ║"));
        lines.push(number_line("║ EXP: ", self.player.exp as u64, 3, "/100      ║"));
        lines.push(String::from_str("╟───────────────────╢"));
        lines.push(
            ratio_line("║ HP: ", self.player.hp as u64, "/", self.player.max_hp as u64, "       ║"),
        );
        lines.push(
            ratio_line("║ MP: ", self.player.mp as u64, "/", self.player.max_mp as u64, "       ║"),
        );
        lines.push(String::from_str("╟───────────────────╢"));
        lines.push(String::from_str("║      Stats        ║"));
        lines.push(String::from_str("╟───────────────────╢"));
        lines.push(number_line("║ STR: ", self.player.strength as u64, 3, "          ║"));
        lines.push(number_line("║ DEX: ", self.player.dexterity as u64, 3, "          ║"));
        lines.push(number_line("║ CON: ", self.player.constitution as u64, 3, "          ║"));
        lines.push(number_line("║ INT: ", self.player.intelligence as u64, 3, "          ║"));
        lines.push(number_line("║ WIS: ", self.player.wisdom as u64, 3, "          ║"));
        lines.push(number_line("║ CHA: ", self.player.charisma as u64, 3, "          ║"));
        lines.push(String::from_str("╟───────────────────╢"));
        lines.push(String::from_str("║    Environment    ║"));
        lines.push(String::from_str("╟───────────────────╢"));
        lines.push(number_line("║ Time: ", self.time_tick as u64, 10, "  ║"));
        lines.push(label_line("║ Period: ", time_of_day(self.time_tick).name(), 8, "  ║"));
        lines.push(number_line("║ Day: ", self.day as u64, 11, "  ║"));
        lines.push(label_line("║ Moon: ", get_moon_phase(self.day).name(), 10, "  ║"));
        lines.push(label_line("║ Season: ", get_season(self.day).name(), 8, "  ║"));
        lines.push(String::from_str("╚═══════════════════╝"));
        assert(lines.deep_view() =~= character_sheet(self@));
        lines
    }

    /// The character sheet if it is switched on, and no rows if it is not.
    pub fn panel(&self) -> (lines: Vec<String>)
        ensures
            lines.deep_view() == if self.show_stats {
                character_sheet(self@)
            } else {
                Seq::empty()
            },
    {
        if self.show_stats {
            self.stat_lines()
        } else {
            let lines: Vec<String> = Vec::new();
            assert(lines.deep_view() =~= Seq::<Seq<char>>::empty());
            lines
        }
    }

    /// The line that reports the last fight, if there was one.
    pub fn combat_line(&self) -> (line: Option<String>)
        ensures
            match self@.combat_message {
                Some(message) => line matches Some(text) && text@ == combat_text(message),
                None => line is None,
            },
    {
        match &self.combat_message {
            Some(message) => {
                let mut text = String::from_str("Combat: ");
                text.append(message.as_str());
                Some(text)
            },
            None => None,
        }
    }
}

} // verus!
