//! Ambient light: how bright and how tinted the world is drawn at a given
//! tick of a given day. Brightness is stepwise over the periods of the
//! day, the season tints each colour channel, and the moon adds a glow
//! around dawn and from dusk on. All factors are held in thousandths.

use crate::time::{
    get_moon_phase, get_season, moon_phase, season, Moonphases, Season, SUNRISE, SUNSET,
    TICKS_PER_HOUR, WITCHING_HOUR,
};
use vstd::prelude::*;

verus! {

/// The periods of a day, each with its own brightness.
#[derive(Debug, Clone, Copy, PartialEq, Eq, Structural)]
pub enum Period {
    Night,
    WitchingHour,
    BeforeSunrise,
    Sunrise,
    Day,
    Sunset,
    Twilight,
}

/// The light of one moment, in thousandths: the brightness of the period,
/// the season's factor for the red, green and blue channels, and what the
/// moon adds to every channel. A channel is drawn at
/// `level * factor / 1000 + glow` thousandths of its own value, `factor`
/// being `red`, `green` or `blue`.
#[derive(Debug, Clone, Copy, PartialEq, Eq, Structural)]
pub struct Ambient {
    pub level: u16,
    pub red: u16,
    pub green: u16,
    pub blue: u16,
    pub glow: u16,
}

/// The period that `tick` falls in. A tick on the border of two periods
/// belongs to the later one; the night runs from the end of twilight
/// through midnight to the witching hour.
pub open spec fn period_of(tick: nat) -> Period {
    if tick < WITCHING_HOUR {
        Period::Night
    } else if tick < WITCHING_HOUR + TICKS_PER_HOUR {
        Period::WitchingHour
    } else if tick < SUNRISE {
        Period::BeforeSunrise
    } else if tick < SUNRISE + TICKS_PER_HOUR {
        Period::Sunrise
    } else if tick < SUNSET - TICKS_PER_HOUR {
        Period::Day
    } else if tick < SUNSET {
        Period::Sunset
    } else if tick < SUNSET + TICKS_PER_HOUR / 2 {
        Period::Twilight
    } else {
        Period::Night
    }
}

/// Whether the moon's glow counts at `tick`: before the sun is up, and
/// from the hour before sunset on.
pub open spec fn moonlit(tick: nat) -> bool {
    tick < SUNRISE + TICKS_PER_HOUR || tick > SUNSET - TICKS_PER_HOUR
}

/// The light at `tick` of `day`.
pub open spec fn ambient_of(tick: nat, day: nat) -> Ambient {
    Ambient {
        level: period_of(tick).level(),
        red: season(day).tint().0,
        green: season(day).tint().1,
        blue: season(day).tint().2,
        glow: if moonlit(tick) {
            moon_phase(day).glow()
        } else {
            0
        },
    }
}

impl Period {
    /// The period's brightness in thousandths of full daylight.
    pub open spec fn level(self) -> u16 {
        match self {
            Period::Night => 300,
            Period::WitchingHour => 200,
            Period::BeforeSunrise => 300,
            Period::Sunrise => 600,
            Period::Day => 1000,
            Period::Sunset => 600,
            Period::Twilight => 500,
        }
    }

    /// The period's name as the character sheet shows it.
    pub open spec fn label(self) -> Seq<char> {
        match self {
            Period::Night => "night"@,
            Period::WitchingHour => "witching hour"@,
            Period::BeforeSunrise => "before sunrise"@,
            Period::Sunrise => "sunrise"@,
            Period::Day => "day"@,
            Period::Sunset => "sunset"@,
            Period::Twilight => "twilight"@,
        }
    }

    /// The period's brightness in thousandths.
    pub fn brightness(&self) -> (level: u16)
        ensures
            level == self.level(),
    {
        match self {
            Period::Night => 300,
            Period::WitchingHour => 200,
            Period::BeforeSunrise => 300,
            Period::Sunrise => 600,
            Period::Day => 1000,
            Period::Sunset => 600,
            Period::Twilight => 500,
        }
    }

    /// The period's name.
    pub fn name(&self) -> (s: &'static str)
        ensures
            s@ == self.label(),
    {
        match self {
            Period::Night => "night",
            Period::WitchingHour => "witching hour",
            Period::BeforeSunrise => "before sunrise",
            Period::Sunrise => "sunrise",
            Period::Day => "day",
            Period::Sunset => "sunset",
            Period::Twilight => "twilight",
        }
    }
}

impl Season {
    /// The season's factor for the red, green and blue channels, in
    /// thousandths.
    pub open spec fn tint(self) -> (u16, u16, u16) {
        match self {
            Season::Spring => (975, 1000, 0),
            Season::Summer => (1000, 975, 975),
            Season::Autumn => (1000, 985, 957),
            Season::Winter => (975, 975, 1000),
        }
    }

    /// The season's factor for each colour channel, in thousandths.
    pub fn channel_tint(&self) -> (tint: (u16, u16, u16))
        ensures
            tint == self.tint(),
    {
        match self {
            Season::Spring => (975, 1000, 0),
            Season::Summer => (1000, 975, 975),
            Season::Autumn => (1000, 985, 957),
            Season::Winter => (975, 975, 1000),
        }
    }
}

impl Moonphases {
    /// What the moon in this phase adds to every channel, in thousandths:
    /// nothing when new, a tenth when full, and in even steps between.
    pub open spec fn glow(self) -> u16 {
        match self {
            Moonphases::New => 0,
            Moonphases::WaxingCrescent => 25,
            Moonphases::FirstQuarter => 50,
            Moonphases::WaxingGibbous => 75,
            Moonphases::Full => 100,
            Moonphases::WaningGibbous => 75,
            Moonphases::LastQuarter => 50,
            Moonphases::WaningCrescent => 25,
        }
    }

    /// What the moon in this phase adds to every channel, in thousandths.
    pub fn moonlight(&self) -> (glow: u16)
        ensures
            glow == self.glow(),
    {
        match self {
            Moonphases::New => 0,
            Moonphases::WaxingCrescent => 25,
            Moonphases::FirstQuarter => 50,
            Moonphases::WaxingGibbous => 75,
            Moonphases::Full => 100,
            Moonphases::WaningGibbous => 75,
            Moonphases::LastQuarter => 50,
            Moonphases::WaningCrescent => 25,
        }
    }
}

/// The period that `tick` falls in.
pub fn time_of_day(tick: usize) -> (period: Period)
    ensures
        period == period_of(tick as nat),
{
    if tick < WITCHING_HOUR {
        Period::Night
    } else if tick < WITCHING_HOUR + TICKS_PER_HOUR {
        Period::WitchingHour
    } else if tick < SUNRISE {
        Period::BeforeSunrise
    } else if tick < SUNRISE + TICKS_PER_HOUR {
        Period::Sunrise
    } else if tick < SUNSET - TICKS_PER_HOUR {
        Period::Day
    } else if tick < SUNSET {
        Period::Sunset
    } else if tick < SUNSET + TICKS_PER_HOUR / 2 {
        Period::Twilight
    } else {
        Period::Night
    }
}

/// The light at `tick` of `day`. It depends on nothing else: the same
/// tick and day always give the same light.
pub fn ambient_light(tick: usize, day: usize) -> (light: Ambient)
    ensures
        light == ambient_of(tick as nat, day as nat),
{
    let glow = if tick < SUNRISE + TICKS_PER_HOUR || tick > SUNSET - TICKS_PER_HOUR {
        get_moon_phase(day).moonlight()
    } else {
        0
    };
    let tint = get_season(day).channel_tint();
    Ambient {
        level: time_of_day(tick).brightness(),
        red: tint.0,
        green: tint.1,
        blue: tint.2,
        glow,
    }
}

/// The red, green and blue channels of a colour written as `0xRRGGBB`.
/// Bits above the low twenty-four are ignored.
pub open spec fn channels_of(color: u32) -> (u8, u8, u8) {
    (((color / 0x1_0000) % 0x100) as u8, ((color / 0x100) % 0x100) as u8, (color % 0x100) as u8)
}

/// Splits a colour written as `0xRRGGBB` into its three channels.
pub fn channels(color: u32) -> (rgb: (u8, u8, u8))
    ensures
        rgb == channels_of(color),
{
    let r: u32 = (color >> 16) & 0xff;
    let g: u32 = (color >> 8) & 0xff;
    let b: u32 = color & 0xff;
    assert((color >> 16) & 0xff == (color / 0x1_0000) % 0x100) by (bit_vector);
    assert((color >> 8) & 0xff == (color / 0x100) % 0x100) by (bit_vector);
    assert(color & 0xff == color % 0x100) by (bit_vector);
    (r as u8, g as u8, b as u8)
}

/// By day the brightness is whole and the moon adds nothing.
pub proof fn lemma_daylight_is_plain(tick: nat, day: nat)
    requires
        period_of(tick) == Period::Day,
    ensures
        ambient_of(tick, day).level == 1000,
        ambient_of(tick, day).glow == 0,
{
}

/// No factor of the light exceeds the whole: brightness and tint stay at
/// or below a thousand thousandths, the glow at or below a hundred.
pub proof fn lemma_ambient_bounds(tick: nat, day: nat)
    ensures
        200 <= ambient_of(tick, day).level <= 1000,
        ambient_of(tick, day).red <= 1000,
        ambient_of(tick, day).green <= 1000,
        ambient_of(tick, day).blue <= 1000,
        ambient_of(tick, day).glow <= 100,
{
}

} // verus!
