//! The world: a grid of land with the player and the monsters on it, and
//! the clock that every step advances. One move of the player is one
//! turn: it is stopped by blocking land, becomes an attack where a living
//! monster stands in the way, and otherwise is a step that costs a tick.

use crate::dice::roll_between;
use crate::entities::{Item, LandInstance, Monster, Player};
use crate::text::{decimal, to_decimal};
use crate::time::{DAYS_PER_YEAR, TICKS_PER_DAY};
use vstd::prelude::*;
use vstd::string::*;

verus! {

/// Experience that a defeated monster is worth.
pub const EXP_PER_KILL: u32 = 10;

/// Experience at which the player gains a level.
pub const EXP_PER_LEVEL: u32 = 100;

/// The world and everything in it.
pub struct WorldMap {
    pub time_tick: usize,
    pub day: usize,
    pub width: usize,
    pub height: usize,
    pub player: Player,
    pub items: Vec<Item>,
    pub monsters: Vec<Monster>,
    pub lands: Vec<LandInstance>,
    pub combat_message: Option<String>,
    pub show_stats: bool,
}

/// The world as a value: its collections as sequences, its message as
/// the characters it is made of.
#[verifier::ext_equal]
pub struct WorldView {
    pub time_tick: usize,
    pub day: usize,
    pub width: usize,
    pub height: usize,
    pub player: Player,
    pub items: Seq<Item>,
    pub monsters: Seq<Monster>,
    pub lands: Seq<LandInstance>,
    pub combat_message: Option<Seq<char>>,
    pub show_stats: bool,
}

impl View for WorldMap {
    type V = WorldView;

    open spec fn view(&self) -> WorldView {
        WorldView {
            time_tick: self.time_tick,
            day: self.day,
            width: self.width,
            height: self.height,
            player: self.player,
            items: self.items@,
            monsters: self.monsters@,
            lands: self.lands@,
            combat_message: match self.combat_message {
                Some(message) => Some(message@),
                None => None,
            },
            show_stats: self.show_stats,
        }
    }
}

/// `v` brought into `0..size`: below the range it becomes the first
/// index, above it the last.
pub open spec fn clamped(v: int, size: usize) -> usize {
    if v <= 0 {
        0
    } else if v >= size {
        (size - 1) as usize
    } else {
        v as usize
    }
}

/// What the player's blow takes from a monster: half the player's
/// strength, rounded down, and the attack roll.
pub open spec fn blow(strength: u32, attack: u32) -> int {
    strength / 2 + attack
}

/// Hit points left after `damage`: never below zero.
pub open spec fn drained(hp: u32, damage: int) -> u32 {
    if hp >= damage {
        (hp - damage) as u32
    } else {
        0
    }
}

/// The message after a blow that kills.
pub open spec fn victory_text(name: Seq<char>, damage: nat) -> Seq<char> {
    "You hit "@ + name + " for "@ + decimal(damage)
        + " damage and defeated it! (+10 exp)"@
}

/// The message after a kill that brings the player to `level`.
pub open spec fn level_up_text(level: nat) -> Seq<char> {
    "Level Up! You are now level "@ + decimal(level)
}

/// The message after a blow that the monster survives and answers.
pub open spec fn exchange_text(name: Seq<char>, damage: nat, back: nat) -> Seq<char> {
    "You hit "@ + name + " for "@ + decimal(damage) + " damage. It hits back for "@
        + decimal(back) + " damage!"@
}

/// The first living monster on `position` among the first `n` of
/// `monsters`, if there is one.
pub open spec fn first_living_within(
    monsters: Seq<Monster>,
    position: (usize, usize),
    n: int,
) -> Option<int>
    decreases n,
{
    if n <= 0 {
        None
    } else {
        match first_living_within(monsters, position, n - 1) {
            Some(i) => Some(i),
            None => if monsters[n - 1].holds(position) {
                Some(n - 1)
            } else {
                None
            },
        }
    }
}

/// The first living monster on `position`, in the order of the list.
pub open spec fn first_living_at(monsters: Seq<Monster>, position: (usize, usize)) -> Option<int> {
    first_living_within(monsters, position, monsters.len() as int)
}

/// What `first_living_within` finds is a living monster on the position
/// with no such monster before it; where it finds none, there is none.
pub proof fn lemma_first_living_within(monsters: Seq<Monster>, position: (usize, usize), n: int)
    requires
        0 <= n <= monsters.len(),
    ensures
        match first_living_within(monsters, position, n) {
            Some(i) => {
                &&& 0 <= i < n
                &&& monsters[i].holds(position)
                &&& forall|j: int| 0 <= j < i ==> !(#[trigger] monsters[j]).holds(position)
            },
            None => forall|j: int| 0 <= j < n ==> !(#[trigger] monsters[j]).holds(position),
        },
    decreases n,
{
    if n > 0 {
        lemma_first_living_within(monsters, position, n - 1);
    }
}

impl WorldView {
    /// The world is whole: the grid is not empty and every cell has its
    /// land, laid row by row; the player and every monster stand on the
    /// grid; the clock and the calendar are in range; the player's
    /// experience is below the next level's; and no monster is too strong
    /// to roll for.
    pub open spec fn wf(self) -> bool {
        &&& 0 < self.width
        &&& 0 < self.height
        &&& self.lands.len() == self.width * self.height
        &&& forall|i: int|
            0 <= i < self.lands.len() ==> {
                &&& (#[trigger] self.lands[i]).wf()
                &&& self.lands[i].position.0 == i % (self.width as int)
                &&& self.lands[i].position.1 == i / (self.width as int)
            }
        &&& self.player.position.0 < self.width
        &&& self.player.position.1 < self.height
        &&& self.time_tick <= TICKS_PER_DAY
        &&& self.day < DAYS_PER_YEAR
        &&& self.player.exp < EXP_PER_LEVEL
        &&& forall|i: int|
            0 <= i < self.monsters.len() ==> {
                &&& (#[trigger] self.monsters[i]).position.0 < self.width
                &&& self.monsters[i].position.1 < self.height
                &&& self.monsters[i].strength < u32::MAX
            }
    }

    /// The world can take a turn: it is whole, and where the next kill
    /// would bring a new level the player can still grow.
    pub open spec fn ready(self) -> bool {
        &&& self.wf()
        &&& self.player.exp + EXP_PER_KILL >= EXP_PER_LEVEL ==> self.can_grow()
    }

    /// The player's level, hit points and strength can still grow by
    /// what a new level adds to them.
    pub open spec fn can_grow(self) -> bool {
        &&& self.player.level < u32::MAX
        &&& self.player.max_hp <= u32::MAX - 5
        &&& self.player.strength <= u32::MAX - 2
    }

    /// The cell that a move by `(dx, dy)` aims at: the player's cell
    /// shifted and held inside the grid.
    pub open spec fn target(self, dx: int, dy: int) -> (usize, usize) {
        (
            clamped(self.player.position.0 + dx, self.width),
            clamped(self.player.position.1 + dy, self.height),
        )
    }

    /// The land of the cell at `position`.
    pub open spec fn land_at(self, position: (usize, usize)) -> LandInstance {
        self.lands[position.1 * self.width + position.0]
    }

    /// The world after the player's blow on monster `i` with the given
    /// attack roll, and the monster's answer with the given counter roll
    /// if it survives. The player does not move and no time passes.
    pub open spec fn after_fight(self, i: int, attack: u32, counter: u32) -> WorldView {
        let monster = self.monsters[i];
        let name = monster.entity.name.english_name@;
        let damage = blow(self.player.strength, attack);
        let left = drained(monster.hp, damage);
        if left == 0 {
            let fallen = Monster { hp: 0, is_alive: false, ..monster };
            if self.player.exp + EXP_PER_KILL >= EXP_PER_LEVEL {
                WorldView {
                    monsters: self.monsters.update(i, fallen),
                    player: Player {
                        level: (self.player.level + 1) as u32,
                        exp: 0,
                        max_hp: (self.player.max_hp + 5) as u32,
                        hp: (self.player.max_hp + 5) as u32,
                        strength: (self.player.strength + 2) as u32,
                        ..self.player
                    },
                    combat_message: Some(level_up_text((self.player.level + 1) as nat)),
                    ..self
                }
            } else {
                WorldView {
                    monsters: self.monsters.update(i, fallen),
                    player: Player {
                        exp: (self.player.exp + EXP_PER_KILL) as u32,
                        ..self.player
                    },
                    combat_message: Some(victory_text(name, damage as nat)),
                    ..self
                }
            }
        } else {
            let back = monster.strength + counter;
            WorldView {
                monsters: self.monsters.update(i, Monster { hp: left, ..monster }),
                player: Player { hp: drained(self.player.hp, back), ..self.player },
                combat_message: Some(exchange_text(name, damage as nat, back as nat)),
                ..self
            }
        }
    }

    /// The world after the player's step onto `target`: one tick later,
    /// and on the next day where the day's last tick has passed.
    pub open spec fn after_step(self, target: (usize, usize)) -> WorldView {
        WorldView {
            player: Player { position: target, ..self.player },
            time_tick: if self.time_tick == TICKS_PER_DAY {
                0
            } else {
                (self.time_tick + 1) as usize
            },
            day: if self.time_tick == TICKS_PER_DAY {
                ((self.day + 1) % (DAYS_PER_YEAR as int)) as usize
            } else {
                self.day
            },
            ..self
        }
    }

    /// `next` is what one move of the player by `(dx, dy)` can make of
    /// this world: the outcome for some attack roll from one to three
    /// and some counter roll of zero or one.
    pub open spec fn can_become(self, next: WorldView, dx: int, dy: int) -> bool {
        exists|attack: u32, counter: u32|
            1 <= attack < 4 && counter < 2 && next == #[trigger] self.after_move(
                dx,
                dy,
                attack,
                counter,
            )
    }

    /// The world after one move of the player by `(dx, dy)`. Blocking
    /// land at the target leaves everything as it was. The first living
    /// monster there is fought instead of stepped on. Otherwise the
    /// player steps.
    pub open spec fn after_move(self, dx: int, dy: int, attack: u32, counter: u32) -> WorldView {
        let target = self.target(dx, dy);
        if self.land_at(target).template.blocking {
            self
        } else {
            match first_living_at(self.monsters, target) {
                Some(i) => self.after_fight(i, attack, counter),
                None => self.after_step(target),
            }
        }
    }
}

/// On a grid of seven by seven cells or more the monsters of a new game
/// stand at their usual places, three cells from the middle; on any grid
/// they stand on the grid.
pub proof fn lemma_opening_places(
    size: (u16, u16),
    day: usize,
    time_tick: usize,
    lands: Seq<LandInstance>,
)
    requires
        WorldMap::roomy(size),
    ensures
        ({
            let world = WorldMap::opening(size, day, time_tick, lands);
            &&& world.monsters.len() == 3
            &&& forall|i: int|
                0 <= i < 3 ==> (#[trigger] world.monsters[i]).position.0 < world.width
                    && world.monsters[i].position.1 < world.height
            &&& world.player.position.0 < world.width
            &&& world.player.position.1 < world.height
            &&& world.width >= 7 && world.height >= 7 ==> world.monsters == seq![
                Monster::goblin(world.width, world.height),
                Monster::oni(world.width, world.height),
                Monster::kappa(world.width, world.height),
            ]
        }),
{
    let world = WorldMap::opening(size, day, time_tick, lands);
    if world.width >= 7 && world.height >= 7 {
        assert(world.monsters =~= seq![
            Monster::goblin(world.width, world.height),
            Monster::oni(world.width, world.height),
            Monster::kappa(world.width, world.height),
        ]);
    }
}

/// A turn keeps the world whole. In particular the player stays on the
/// grid whatever move was asked for.
pub proof fn lemma_move_keeps_wf(world: WorldView, dx: int, dy: int, attack: u32, counter: u32)
    requires
        world.wf(),
    ensures
        world.after_move(dx, dy, attack, counter).wf(),
        world.after_move(dx, dy, attack, counter).player.position.0 < world.width,
        world.after_move(dx, dy, attack, counter).player.position.1 < world.height,
        world.after_move(dx, dy, attack, counter).width == world.width,
        world.after_move(dx, dy, attack, counter).height == world.height,
        world.after_move(dx, dy, attack, counter).lands == world.lands,
{
    let target = world.target(dx, dy);
    lemma_first_living_within(world.monsters, target, world.monsters.len() as int);
}

/// A move onto blocking land changes nothing: the player stays, no time
/// passes, nobody is hurt.
pub proof fn lemma_blocked_move_changes_nothing(
    world: WorldView,
    dx: int,
    dy: int,
    attack: u32,
    counter: u32,
)
    requires
        world.land_at(world.target(dx, dy)).template.blocking,
    ensures
        world.after_move(dx, dy, attack, counter) == world,
{
}

/// A move onto a living monster's cell never moves the player, and no
/// time passes.
pub proof fn lemma_attack_holds_ground(
    world: WorldView,
    dx: int,
    dy: int,
    attack: u32,
    counter: u32,
)
    requires
        exists|i: int|
            0 <= i < world.monsters.len() && (#[trigger] world.monsters[i]).holds(
                world.target(dx, dy),
            ),
    ensures
        world.after_move(dx, dy, attack, counter).player.position == world.player.position,
        world.after_move(dx, dy, attack, counter).time_tick == world.time_tick,
        world.after_move(dx, dy, attack, counter).day == world.day,
{
    let target = world.target(dx, dy);
    lemma_first_living_within(world.monsters, target, world.monsters.len() as int);
}

/// A move onto a living monster's cell leaves a combat message, unless
/// the land of that cell blocks the move before any blow is struck.
pub proof fn lemma_attack_leaves_message(
    world: WorldView,
    dx: int,
    dy: int,
    attack: u32,
    counter: u32,
)
    requires
        !world.land_at(world.target(dx, dy)).template.blocking,
        exists|i: int|
            0 <= i < world.monsters.len() && (#[trigger] world.monsters[i]).holds(
                world.target(dx, dy),
            ),
    ensures
        world.after_move(dx, dy, attack, counter).combat_message is Some,
{
    let target = world.target(dx, dy);
    lemma_first_living_within(world.monsters, target, world.monsters.len() as int);
}

/// A fight touches one monster only, and takes from it what the blow is
/// worth: its hit points fall by the damage and stop at zero; it dies
/// exactly when they reach zero.
pub proof fn lemma_fight_hurts_one(world: WorldView, i: int, attack: u32, counter: u32)
    requires
        0 <= i < world.monsters.len(),
    ensures
        world.after_fight(i, attack, counter).monsters.len() == world.monsters.len(),
        forall|j: int|
            0 <= j < world.monsters.len() && j != i ==> world.after_fight(
                i,
                attack,
                counter,
            ).monsters[j] == world.monsters[j],
        world.after_fight(i, attack, counter).monsters[i].hp == drained(
            world.monsters[i].hp,
            blow(world.player.strength, attack),
        ),
        world.after_fight(i, attack, counter).monsters[i].hp <= world.monsters[i].hp,
        world.monsters[i].is_alive ==> (world.after_fight(i, attack, counter).monsters[i].is_alive
            <==> world.after_fight(i, attack, counter).monsters[i].hp > 0),
{
}

/// One turn raises the level by one at most, and it does so exactly when
/// a kill brings the experience to the threshold; the experience then
/// starts again from zero.
pub proof fn lemma_one_level_per_threshold(
    world: WorldView,
    dx: int,
    dy: int,
    attack: u32,
    counter: u32,
)
    requires
        world.wf(),
        world.can_grow(),
    ensures
        ({
            let next = world.after_move(dx, dy, attack, counter);
            let target = world.target(dx, dy);
            let kill = !world.land_at(target).template.blocking && (first_living_at(
                world.monsters,
                target,
            ) matches Some(i) && world.monsters[i].hp <= blow(world.player.strength, attack));
            &&& next.player.level == world.player.level || next.player.level == world.player.level
                + 1
            &&& next.player.level == world.player.level + 1 <==> kill && world.player.exp
                + EXP_PER_KILL >= EXP_PER_LEVEL
            &&& next.player.level == world.player.level + 1 ==> next.player.exp == 0
            &&& kill && world.player.exp + EXP_PER_KILL < EXP_PER_LEVEL ==> next.player.exp
                == world.player.exp + EXP_PER_KILL
            &&& !kill ==> next.player.exp == world.player.exp
        }),
{
    let target = world.target(dx, dy);
    lemma_first_living_within(world.monsters, target, world.monsters.len() as int);
}

/// A roll that is either still to be made or already known.
enum Die {
    Cast,
    Shown(u32),
}

impl Die {
    /// A known roll lies in `low..high`.
    spec fn within(self, low: u32, high: u32) -> bool {
        match self {
            Die::Shown(shown) => low <= shown < high,
            Die::Cast => true,
        }
    }

    /// `value` is a roll in `low..high` that this die can give.
    spec fn admits(self, value: u32, low: u32, high: u32) -> bool {
        &&& low <= value < high
        &&& match self {
            Die::Shown(shown) => shown == value,
            Die::Cast => true,
        }
    }

    /// The smallest roll in `low..` that this die can give.
    spec fn least(self, low: u32) -> u32 {
        match self {
            Die::Shown(shown) => shown,
            Die::Cast => low,
        }
    }

    /// The roll: the known one, or a fresh draw.
    fn value(&self, low: u32, high: u32) -> (value: u32)
        requires
            low < high,
            self.within(low, high),
        ensures
            self.admits(value, low, high),
    {
        match self {
            Die::Shown(shown) => *shown,
            Die::Cast => roll_between(low as usize, high as usize) as u32,
        }
    }
}

fn victory_message(name: &str, damage: u32) -> (s: String)
    ensures
        s@ == victory_text(name@, damage as nat),
{
    let mut s = String::from_str("You hit ");
    s.append(name);
    s.append(" for ");
    s.append(to_decimal(damage as u64).as_str());
    s.append(" damage and defeated it! (+10 exp)");
    s
}

fn level_up_message(level: u32) -> (s: String)
    ensures
        s@ == level_up_text(level as nat),
{
    let mut s = String::from_str("Level Up! You are now level ");
    s.append(to_decimal(level as u64).as_str());
    s
}

fn exchange_message(name: &str, damage: u32, back: u32) -> (s: String)
    ensures
        s@ == exchange_text(name@, damage as nat, back as nat),
{
    let mut s = String::from_str("You hit ");
    s.append(name);
    s.append(" for ");
    s.append(to_decimal(damage as u64).as_str());
    s.append(" damage. It hits back for ");
    s.append(to_decimal(back as u64).as_str());
    s.append(" damage!");
    s
}

/// A cell of a whole grid has its place in the row-by-row list of lands.
proof fn lemma_cell_index(x: int, y: int, width: int, height: int)
    requires
        0 <= x < width,
        0 <= y < height,
    ensures
        0 <= y * width + x < width * height,
{
    assert(y * width + x < width * height) by (nonlinear_arith)
        requires
            0 <= x < width,
            0 <= y < height,
    {
        assert((y + 1) * width <= height * width);
    }
    assert(0 <= y * width) by (nonlinear_arith)
        requires
            0 <= y,
            0 <= width,
    ;
}

fn clamp_shift(from: usize, delta: i32, size: usize) -> (to: usize)
    requires
        0 < size,
    ensures
        to == clamped(from + delta, size),
        to < size,
{
    let shifted: i128 = from as i128 + delta as i128;
    if shifted <= 0 {
        0
    } else if shifted >= size as i128 {
        size - 1
    } else {
        shifted as usize
    }
}

impl WorldMap {
    /// A terminal of `size` columns and rows is large enough for a world:
    /// a cell is two columns wide and one row is kept for messages, and
    /// the grid must have a cell.
    pub open spec fn roomy(size: (u16, u16)) -> bool {
        size.0 >= 2 && size.1 >= 2
    }

    /// The world at the start of a game, but for what is drawn: the day,
    /// the tick and the lands. The player stands in the middle. The
    /// goblin stands three cells to the right of the middle, the oni
    /// three cells to the left, the kappa three cells below, each at the
    /// edge of the grid where the grid ends before that.
    pub open spec fn opening(
        size: (u16, u16),
        day: usize,
        time_tick: usize,
        lands: Seq<LandInstance>,
    ) -> WorldView {
        let width = (size.0 / 2) as usize;
        let height = (size.1 - 1) as usize;
        WorldView {
            time_tick,
            day,
            width,
            height,
            player: Player::fresh(width, height),
            items: Seq::empty(),
            monsters: seq![
                Monster::goblin_at(
                    (clamped(width / 2 + 3, width), clamped(height as int / 2, height)),
                ),
                Monster::oni_at(
                    (clamped(width / 2 - 3, width), clamped(height as int / 2, height)),
                ),
                Monster::kappa_at(
                    (clamped(width as int / 2, width), clamped(height / 2 + 3, height)),
                ),
            ],
            lands,
            combat_message: None,
            show_stats: false,
        }
    }

    /// Whether a terminal of `size` columns and rows is large enough for
    /// a world.
    pub fn is_roomy(size: (u16, u16)) -> (roomy: bool)
        ensures
            roomy == WorldMap::roomy(size),
    {
        size.0 >= 2 && size.1 >= 2
    }

    /// Whether the world is whole.
    pub fn is_whole(&self) -> (whole: bool)
        ensures
            whole == self@.wf(),
    {
        if self.width == 0 || self.height == 0 {
            return false;
        }
        match self.width.checked_mul(self.height) {
            Some(cells) => {
                if self.lands.len() != cells {
                    return false;
                }
            },
            None => {
                assert(self.lands@.len() == self.lands.len());
                return false;
            },
        }
        if self.player.position.0 >= self.width || self.player.position.1 >= self.height
            || self.time_tick > TICKS_PER_DAY || self.day >= DAYS_PER_YEAR || self.player.exp
            >= EXP_PER_LEVEL {
            return false;
        }
        let mut i: usize = 0;
        while i < self.lands.len()
            invariant
                0 < self.width,
                i <= self.lands.len(),
                forall|j: int|
                    0 <= j < i ==> {
                        &&& (#[trigger] self.lands[j]).wf()
                        &&& self.lands[j].position.0 == j % (self.width as int)
                        &&& self.lands[j].position.1 == j / (self.width as int)
                    },
            decreases self.lands.len() - i,
        {
            let land = &self.lands[i];
            if land.symbol_index >= 3 || land.color_index >= 3 || land.position.0 != i % self.width
                || land.position.1 != i / self.width {
                assert(!({
                    &&& self@.lands[i as int].wf()
                    &&& self@.lands[i as int].position.0 == (i as int) % (self.width as int)
                    &&& self@.lands[i as int].position.1 == (i as int) / (self.width as int)
                }));
                return false;
            }
            i += 1;
        }
        let mut k: usize = 0;
        while k < self.monsters.len()
            invariant
                k <= self.monsters.len(),
                forall|j: int|
                    0 <= j < k ==> {
                        &&& (#[trigger] self.monsters[j]).position.0 < self.width
                        &&& self.monsters[j].position.1 < self.height
                        &&& self.monsters[j].strength < u32::MAX
                    },
            decreases self.monsters.len() - k,
        {
            let monster = &self.monsters[k];
            if monster.position.0 >= self.width || monster.position.1 >= self.height
                || monster.strength == u32::MAX {
                assert(!({
                    &&& self@.monsters[k as int].position.0 < self.width
                    &&& self@.monsters[k as int].position.1 < self.height
                    &&& self@.monsters[k as int].strength < u32::MAX
                }));
                return false;
            }
            k += 1;
        }
        true
    }

    /// Whether the world can take a turn.
    pub fn is_ready(&self) -> (ready: bool)
        ensures
            ready == self@.ready(),
    {
        if !self.is_whole() {
            return false;
        }
        self.player.exp < EXP_PER_LEVEL - EXP_PER_KILL || (self.player.level < u32::MAX
            && self.player.max_hp <= u32::MAX - 5 && self.player.strength <= u32::MAX - 2)
    }

    /// The world at the start of a game on a terminal of `size` columns
    /// and rows, with the day, the tick and the lands given.
    pub fn assemble(
        size: (u16, u16),
        day: usize,
        time_tick: usize,
        lands: Vec<LandInstance>,
    ) -> (world: WorldMap)
        requires
            WorldMap::roomy(size),
            day < DAYS_PER_YEAR,
            time_tick <= TICKS_PER_DAY,
            lands.len() == (size.0 / 2) * (size.1 - 1),
            forall|i: int|
                0 <= i < lands.len() ==> {
                    &&& (#[trigger] lands[i]).wf()
                    &&& lands[i].position.0 == i % ((size.0 / 2) as int)
                    &&& lands[i].position.1 == i / ((size.0 / 2) as int)
                },
        ensures
            world@ == WorldMap::opening(size, day, time_tick, lands@),
            world@.wf(),
    {
        let width = (size.0 / 2) as usize;
        let height = (size.1 - 1) as usize;
        let middle = (width / 2, height / 2);
        let mut monsters: Vec<Monster> = Vec::new();
        monsters.push(
            Monster::new_goblin_at(
                (clamp_shift(middle.0, 3, width), clamp_shift(middle.1, 0, height)),
            ),
        );
        monsters.push(
            Monster::new_oni_at(
                (clamp_shift(middle.0, -3, width), clamp_shift(middle.1, 0, height)),
            ),
        );
        monsters.push(
            Monster::new_kappa_at(
                (clamp_shift(middle.0, 0, width), clamp_shift(middle.1, 3, height)),
            ),
        );
        let world = WorldMap {
            time_tick,
            day,
            width,
            height,
            player: Player::new(width, height),
            items: Vec::new(),
            monsters,
            lands,
            combat_message: None,
            show_stats: false,
        };
        assert(world@ =~= WorldMap::opening(size, day, time_tick, lands@));
        world
    }

    /// A new world for a terminal of `size` columns and rows: the player
    /// in the middle, a goblin, an oni and a kappa around them, on land
    /// drawn at random, at a random tick of a random day of the year.
    pub fn new(size: (u16, u16)) -> (world: WorldMap)
        requires
            WorldMap::roomy(size),
        ensures
            world@.wf(),
            world@ == WorldMap::opening(size, world.day, world.time_tick, world.lands@),
            world.time_tick < TICKS_PER_DAY,
            forall|i: int|
                0 <= i < world.lands.len() ==> (#[trigger] world.lands[i]).laid_at(
                    i,
                    world.width as int,
                ),
    {
        let width = (size.0 / 2) as usize;
        let height = (size.1 - 1) as usize;
        let day = roll_between(0, DAYS_PER_YEAR);
        let time_tick = roll_between(0, TICKS_PER_DAY);
        assert(width * height <= usize::MAX) by (nonlinear_arith)
            requires
                width <= 0x7fff,
                height <= 0xffff,
        ;
        let lands = LandInstance::generate_terrain(width, height);
        WorldMap::assemble(size, day, time_tick, lands)
    }

    /// The cell that a move by `(dx, dy)` aims at.
    pub fn target_of(&self, dx: i32, dy: i32) -> (target: (usize, usize))
        requires
            self@.wf(),
        ensures
            target == self@.target(dx as int, dy as int),
            target.0 < self.width,
            target.1 < self.height,
    {
        (
            clamp_shift(self.player.position.0, dx, self.width),
            clamp_shift(self.player.position.1, dy, self.height),
        )
    }

    /// Whether the land at `position` stops the player.
    pub fn blocked_at(&self, position: (usize, usize)) -> (blocked: bool)
        requires
            self@.wf(),
            position.0 < self.width,
            position.1 < self.height,
        ensures
            blocked == self@.land_at(position).template.blocking,
    {
        self.land_on(position).template.blocking
    }

    /// The land of the cell at `position`.
    pub fn land_on(&self, position: (usize, usize)) -> (land: &LandInstance)
        requires
            self@.wf(),
            position.0 < self.width,
            position.1 < self.height,
        ensures
            *land == self@.land_at(position),
            land.wf(),
    {
        proof {
            lemma_cell_index(
                position.0 as int,
                position.1 as int,
                self.width as int,
                self.height as int,
            );
        }
        assert(self.lands@.len() == self.lands.len());
        &self.lands[position.1 * self.width + position.0]
    }

    /// The first living monster on `position`, in the order of the list.
    pub fn monster_at(&self, position: (usize, usize)) -> (found: Option<usize>)
        ensures
            match found {
                Some(i) => i < self.monsters.len() && first_living_at(self@.monsters, position)
                    == Some(i as int),
                None => first_living_at(self@.monsters, position) is None,
            },
    {
        let mut i: usize = 0;
        while i < self.monsters.len()
            invariant
                i <= self.monsters.len(),
                forall|j: int| 0 <= j < i ==> !(#[trigger] self.monsters[j]).holds(position),
            decreases self.monsters.len() - i,
        {
            let monster = &self.monsters[i];
            if monster.position.0 == position.0 && monster.position.1 == position.1
                && monster.is_alive {
                proof {
                    lemma_first_living_within(
                        self.monsters@,
                        position,
                        self.monsters.len() as int,
                    );
                }
                return Some(i);
            }
            i += 1;
        }
        proof {
            lemma_first_living_within(self.monsters@, position, self.monsters.len() as int);
        }
        None
    }

    /// The player's blow on monster `i`, and the monster's answer where
    /// it survives.
    fn fight(&mut self, i: usize, attack: u32, counter: Die)
        requires
            old(self)@.ready(),
            i < old(self).monsters.len(),
            1 <= attack < 4,
            counter.within(0, 2),
        ensures
            exists|c: u32|
                counter.admits(c, 0, 2) && final(self)@ == #[trigger] old(self)@.after_fight(
                    i as int,
                    attack,
                    c,
                ),
    {
        let monster = self.monsters[i];
        let damage = self.player.strength / 2 + attack;
        let left = monster.hp.saturating_sub(damage);
        if left == 0 {
            self.monsters[i].hp = 0;
            self.monsters[i].is_alive = false;
            self.player.exp += EXP_PER_KILL;
            if self.player.exp >= EXP_PER_LEVEL {
                self.player.level += 1;
                self.player.exp = 0;
                self.player.max_hp += 5;
                self.player.hp = self.player.max_hp;
                self.player.strength += 2;
                self.combat_message = Some(level_up_message(self.player.level));
            } else {
                self.combat_message = Some(
                    victory_message(monster.entity.name.english_name, damage),
                );
            }
            assert(self@ =~= old(self)@.after_fight(i as int, attack, counter.least(0)));
        } else {
            let c = counter.value(0, 2);
            let back = monster.strength + c;
            self.monsters[i].hp = left;
            self.player.hp = self.player.hp.saturating_sub(back);
            self.combat_message = Some(
                exchange_message(monster.entity.name.english_name, damage, back),
            );
            assert(self@ =~= old(self)@.after_fight(i as int, attack, c));
        }
    }

    /// The player's step onto `target`, and the tick that it costs.
    fn step_to(&mut self, target: (usize, usize))
        requires
            old(self)@.wf(),
        ensures
            final(self)@ == old(self)@.after_step(target),
    {
        self.player.position = target;
        if self.time_tick == TICKS_PER_DAY {
            self.time_tick = 0;
            self.day = (self.day + 1) % DAYS_PER_YEAR;
        } else {
            self.time_tick += 1;
        }
        assert(self@ =~= old(self)@.after_step(target));
    }

    /// One turn, with each roll either given or drawn when it is needed.
    fn take_turn(&mut self, dx: i32, dy: i32, attack: Die, counter: Die)
        requires
            old(self)@.ready(),
            attack.within(1, 4),
            counter.within(0, 2),
        ensures
            exists|a: u32, c: u32|
                attack.admits(a, 1, 4) && counter.admits(c, 0, 2) && final(self)@
                    == #[trigger] old(self)@.after_move(dx as int, dy as int, a, c),
    {
        let target = self.target_of(dx, dy);
        if self.blocked_at(target) {
            assert(self@ == old(self)@.after_move(
                dx as int,
                dy as int,
                attack.least(1),
                counter.least(0),
            ));
            return ;
        }
        match self.monster_at(target) {
            Some(i) => {
                let a = attack.value(1, 4);
                self.fight(i, a, counter);
                let ghost c = choose|c: u32|
                    counter.admits(c, 0, 2) && self@ == #[trigger] old(self)@.after_fight(
                        i as int,
                        a,
                        c,
                    );
                assert(self@ == old(self)@.after_move(dx as int, dy as int, a, c));
            },
            None => {
                self.step_to(target);
                assert(self@ == old(self)@.after_move(
                    dx as int,
                    dy as int,
                    attack.least(1),
                    counter.least(0),
                ));
            },
        }
    }

    /// One move of the player by `(dx, dy)` with the rolls given: `attack`
    /// is added to the player's blow, `counter` to the monster's answer.
    /// Where no monster is fought the rolls are not looked at.
    pub fn resolve_move(&mut self, dx: i32, dy: i32, attack: u32, counter: u32)
        requires
            old(self)@.ready(),
            1 <= attack < 4,
            counter < 2,
        ensures
            final(self)@ == old(self)@.after_move(dx as int, dy as int, attack, counter),
            final(self)@.wf(),
    {
        self.take_turn(dx, dy, Die::Shown(attack), Die::Shown(counter));
        proof {
            lemma_move_keeps_wf(old(self)@, dx as int, dy as int, attack, counter);
        }
    }

    /// One move of the player by `(dx, dy)`. Where it becomes a fight,
    /// the attack roll is drawn from one to three and, if the monster
    /// survives, the counter roll from zero to one.
    pub fn move_player(&mut self, dx: i32, dy: i32)
        requires
            old(self)@.ready(),
        ensures
            old(self)@.can_become(final(self)@, dx as int, dy as int),
            final(self)@.wf(),
    {
        self.take_turn(dx, dy, Die::Cast, Die::Cast);
        proof {
            let (attack, counter) = choose|attack: u32, counter: u32|
                Die::Cast.admits(attack, 1, 4) && Die::Cast.admits(counter, 0, 2) && self@
                    == #[trigger] old(self)@.after_move(dx as int, dy as int, attack, counter);
            assert(self@ == old(self)@.after_move(dx as int, dy as int, attack, counter));
            lemma_move_keeps_wf(old(self)@, dx as int, dy as int, attack, counter);
        }
    }
}

} // verus!
