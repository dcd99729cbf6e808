//! What a key asks of the world, and what the world does about it.

use crate::world::{WorldMap, WorldView};
use vstd::prelude::*;

verus! {

/// What the player can ask for with one key.
#[derive(Debug, Clone, Copy, PartialEq, Eq, Structural)]
pub enum Command {
    /// A move by one cell; rows grow downwards, so up is `-1`.
    Step(i32, i32),
    /// Stay and let a tick pass.
    Wait,
    /// Show or hide the character sheet.
    ToggleStats,
    /// Leave the game.
    Quit,
}

/// The command bound to `key`: `w`, `a`, `s`, `d` step up, left, down and
/// right; `q`, `e`, `z`, `c` step along the diagonals; `x` waits; `C`
/// shows or hides the character sheet; the escape character quits. Other
/// keys are bound to nothing.
pub open spec fn binding(key: char) -> Option<Command> {
    if key == 'w' {
        Some(Command::Step(0i32, -1i32))
    } else if key == 's' {
        Some(Command::Step(0i32, 1i32))
    } else if key == 'a' {
        Some(Command::Step(-1i32, 0i32))
    } else if key == 'd' {
        Some(Command::Step(1i32, 0i32))
    } else if key == 'q' {
        Some(Command::Step(-1i32, -1i32))
    } else if key == 'e' {
        Some(Command::Step(1i32, -1i32))
    } else if key == 'z' {
        Some(Command::Step(-1i32, 1i32))
    } else if key == 'c' {
        Some(Command::Step(1i32, 1i32))
    } else if key == 'x' {
        Some(Command::Wait)
    } else if key == 'C' {
        Some(Command::ToggleStats)
    } else if key == '\u{1b}' {
        Some(Command::Quit)
    } else {
        None
    }
}

/// The command bound to `key`, if there is one.
pub fn command_for_key(key: char) -> (command: Option<Command>)
    ensures
        command == binding(key),
{
    if key == 'w' {
        Some(Command::Step(0, -1))
    } else if key == 's' {
        Some(Command::Step(0, 1))
    } else if key == 'a' {
        Some(Command::Step(-1, 0))
    } else if key == 'd' {
        Some(Command::Step(1, 0))
    } else if key == 'q' {
        Some(Command::Step(-1, -1))
    } else if key == 'e' {
        Some(Command::Step(1, -1))
    } else if key == 'z' {
        Some(Command::Step(-1, 1))
    } else if key == 'c' {
        Some(Command::Step(1, 1))
    } else if key == 'x' {
        Some(Command::Wait)
    } else if key == 'C' {
        Some(Command::ToggleStats)
    } else if key == '\u{1b}' {
        Some(Command::Quit)
    } else {
        None
    }
}

impl Command {
    /// The move that the command makes, if it makes one: a step is its
    /// own move, and waiting is the move that goes nowhere.
    pub open spec fn motion(self) -> Option<(int, int)> {
        match self {
            Command::Step(dx, dy) => Some((dx as int, dy as int)),
            Command::Wait => Some((0, 0)),
            Command::ToggleStats => None,
            Command::Quit => None,
        }
    }
}

impl WorldMap {
    /// Carries out one command and says whether the game goes on. A step
    /// or a wait is one turn of the world, with its rolls drawn; the
    /// character sheet is switched without a turn; quitting changes
    /// nothing and ends the game.
    pub fn obey(&mut self, command: Command) -> (goes_on: bool)
        requires
            old(self)@.ready(),
        ensures
            final(self)@.wf(),
            goes_on == (command != Command::Quit),
            match command.motion() {
                Some(by) => old(self)@.can_become(final(self)@, by.0, by.1),
                None => final(self)@ == (WorldView {
                    show_stats: if command == Command::ToggleStats {
                        !old(self).show_stats
                    } else {
                        old(self).show_stats
                    },
                    ..old(self)@
                }),
            },
    {
        match command {
            Command::Step(dx, dy) => {
                self.move_player(dx, dy);
                true
            },
            Command::Wait => {
                self.move_player(0, 0);
                true
            },
            Command::ToggleStats => {
                self.show_stats = !self.show_stats;
                assert(self@ =~= (WorldView { show_stats: !old(self).show_stats, ..old(self)@ }));
                true
            },
            Command::Quit => {
                assert(self@ =~= old(self)@);
                false
            },
        }
    }
}

} // verus!
