//! The calendar: ticks of the day, days of the month and of the year, and
//! the moon phase and season that a day falls in.

use vstd::prelude::*;

verus! {

/// Ticks in one day.
pub const TICKS_PER_DAY: usize = 1200;

/// The tick at which the witching hour begins.
pub const WITCHING_HOUR: usize = TICKS_PER_DAY / 6;

/// The tick at which the sun starts to rise.
pub const SUNRISE: usize = TICKS_PER_DAY / 4;

/// The tick at which the sun has set.
pub const SUNSET: usize = TICKS_PER_DAY * 3 / 4;

/// Ticks in one of the twenty-four hours of a day.
pub const TICKS_PER_HOUR: usize = TICKS_PER_DAY / 24;

/// Days in a lunar month.
pub const DAYS_PER_MONTH: usize = 28;

/// Days in a year of twelve months.
pub const DAYS_PER_YEAR: usize = DAYS_PER_MONTH * 12;

/// Days in each of the four seasons.
pub const DAYS_PER_SEASON: usize = DAYS_PER_YEAR / 4;

/// The phases of the moon, in the order of a month.
#[derive(Debug, Clone, Copy, PartialEq, Eq, Structural)]
pub enum Moonphases {
    New,
    WaxingCrescent,
    FirstQuarter,
    WaxingGibbous,
    Full,
    WaningGibbous,
    LastQuarter,
    WaningCrescent,
}

/// The seasons, in the order of a year that begins in spring.
#[derive(Debug, Clone, Copy, PartialEq, Eq, Structural)]
pub enum Season {
    Spring,
    Summer,
    Autumn,
    Winter,
}

/// The phase of the moon on `day`, by the day of the month: the first six
/// phases last four days each, from the new moon on day 0 to the waning
/// gibbous that ends with day 23; the last quarter and the waning
/// crescent share the four days that are left, two days each.
pub open spec fn moon_phase(day: nat) -> Moonphases {
    let moon_day = day % 28;
    if moon_day < 4 {
        Moonphases::New
    } else if moon_day < 8 {
        Moonphases::WaxingCrescent
    } else if moon_day < 12 {
        Moonphases::FirstQuarter
    } else if moon_day < 16 {
        Moonphases::WaxingGibbous
    } else if moon_day < 20 {
        Moonphases::Full
    } else if moon_day < 24 {
        Moonphases::WaningGibbous
    } else if moon_day < 26 {
        Moonphases::LastQuarter
    } else {
        Moonphases::WaningCrescent
    }
}

/// The season of `day`: spring up to day 83, summer up to day 167, autumn
/// up to day 251, and winter from day 252 on, also past the year's end.
pub open spec fn season(day: nat) -> Season {
    if day < 84 {
        Season::Spring
    } else if day < 168 {
        Season::Summer
    } else if day < 252 {
        Season::Autumn
    } else {
        Season::Winter
    }
}

/// The phase of the moon on `day`.
pub fn get_moon_phase(day: usize) -> (phase: Moonphases)
    ensures
        phase == moon_phase(day as nat),
{
    let moon_day = day % DAYS_PER_MONTH;
    if moon_day < 4 {
        Moonphases::New
    } else if moon_day < 8 {
        Moonphases::WaxingCrescent
    } else if moon_day < 12 {
        Moonphases::FirstQuarter
    } else if moon_day < 16 {
        Moonphases::WaxingGibbous
    } else if moon_day < 20 {
        Moonphases::Full
    } else if moon_day < 24 {
        Moonphases::WaningGibbous
    } else if moon_day < 26 {
        Moonphases::LastQuarter
    } else {
        Moonphases::WaningCrescent
    }
}

/// The season of `day`.
pub fn get_season(day: usize) -> (s: Season)
    ensures
        s == season(day as nat),
{
    if day < DAYS_PER_SEASON {
        Season::Spring
    } else if day < 2 * DAYS_PER_SEASON {
        Season::Summer
    } else if day < 3 * DAYS_PER_SEASON {
        Season::Autumn
    } else {
        Season::Winter
    }
}

impl Moonphases {
    /// The phase's name as the character sheet shows it.
    pub open spec fn label(self) -> Seq<char> {
        match self {
            Moonphases::New => "New Moon"@,
            Moonphases::WaxingCrescent => "Waxing Crescent"@,
            Moonphases::FirstQuarter => "First Quarter"@,
            Moonphases::WaxingGibbous => "Waxing Gibbous"@,
            Moonphases::Full => "Full Moon"@,
            Moonphases::WaningGibbous => "Waning Gibbous"@,
            Moonphases::LastQuarter => "Last Quarter"@,
            Moonphases::WaningCrescent => "Waning Crescent"@,
        }
    }

    /// The phase's name.
    pub fn name(&self) -> (s: &'static str)
        ensures
            s@ == self.label(),
    {
        match self {
            Moonphases::New => "New Moon",
            Moonphases::WaxingCrescent => "Waxing Crescent",
            Moonphases::FirstQuarter => "First Quarter",
            Moonphases::WaxingGibbous => "Waxing Gibbous",
            Moonphases::Full => "Full Moon",
            Moonphases::WaningGibbous => "Waning Gibbous",
            Moonphases::LastQuarter => "Last Quarter",
            Moonphases::WaningCrescent => "Waning Crescent",
        }
    }
}

impl Season {
    /// The season's name as the character sheet shows it.
    pub open spec fn label(self) -> Seq<char> {
        match self {
            Season::Spring => "Spring"@,
            Season::Summer => "Summer"@,
            Season::Autumn => "Autumn"@,
            Season::Winter => "Winter"@,
        }
    }

    /// The season's name.
    pub fn name(&self) -> (s: &'static str)
        ensures
            s@ == self.label(),
    {
        match self {
            Season::Spring => "Spring",
            Season::Summer => "Summer",
            Season::Autumn => "Autumn",
            Season::Winter => "Winter",
        }
    }
}

/// Every phase has its days: within any month each of the eight phases
/// falls on some day, the waning crescent on the last.
pub proof fn lemma_every_phase_has_a_day(month: nat)
    ensures
        moon_phase(28 * month) == Moonphases::New,
        moon_phase(28 * month + 4) == Moonphases::WaxingCrescent,
        moon_phase(28 * month + 8) == Moonphases::FirstQuarter,
        moon_phase(28 * month + 12) == Moonphases::WaxingGibbous,
        moon_phase(28 * month + 16) == Moonphases::Full,
        moon_phase(28 * month + 20) == Moonphases::WaningGibbous,
        moon_phase(28 * month + 24) == Moonphases::LastQuarter,
        moon_phase(28 * month + 27) == Moonphases::WaningCrescent,
{
}

/// The moon phase repeats every month.
pub proof fn lemma_moon_phase_is_monthly(day: nat)
    ensures
        moon_phase(day + DAYS_PER_MONTH as nat) == moon_phase(day),
{
}

/// The seasons follow one another in order, never turning back: once it
/// is winter it stays winter, and a day of spring has only spring before
/// it.
pub proof fn lemma_seasons_in_order(earlier: nat, later: nat)
    requires
        earlier <= later,
    ensures
        season(earlier) == Season::Winter ==> season(later) == Season::Winter,
        season(later) == Season::Spring ==> season(earlier) == Season::Spring,
{
}

/// The seasons are the quarters of the year: each lasts as many days as
/// the calendar gives a season, and the four fill the year.
pub proof fn lemma_seasons_are_quarters(day: nat)
    ensures
        DAYS_PER_SEASON == 84,
        DAYS_PER_YEAR == 4 * DAYS_PER_SEASON,
        season(day) == Season::Spring <==> day / 84 == 0,
        season(day) == Season::Summer <==> day / 84 == 1,
        season(day) == Season::Autumn <==> day / 84 == 2,
        season(day) == Season::Winter <==> day / 84 >= 3,
{
}

} // verus!
