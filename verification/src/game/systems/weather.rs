use crate::audio::wav::{lcg_next, lcg_step};
use vstd::prelude::*;

verus! {

/// Weather mode selectable in the pause menu.
#[derive(Debug, Clone, Copy, PartialEq, Eq, Structural, Default)]
pub enum WeatherKind {
    #[default]
    Clear,
    Rain,
    Snow,
    /// Cycles between the three concrete kinds on a timer.
    Random,
}

/// Position of a kind in the menu cycle Clear → Rain → Snow → Random.
pub open spec fn weather_ordinal(kind: WeatherKind) -> int {
    match kind {
        WeatherKind::Clear => 0,
        WeatherKind::Rain => 1,
        WeatherKind::Snow => 2,
        WeatherKind::Random => 3,
    }
}

impl WeatherKind {
    /// The kind that follows `self` in the menu cycle.
    pub open spec fn spec_next(self) -> WeatherKind {
        match self {
            WeatherKind::Clear => WeatherKind::Rain,
            WeatherKind::Rain => WeatherKind::Snow,
            WeatherKind::Snow => WeatherKind::Random,
            WeatherKind::Random => WeatherKind::Clear,
        }
    }

    pub fn next(self) -> (r: WeatherKind)
        ensures
            r == self.spec_next(),
            weather_ordinal(r) == (weather_ordinal(self) + 1) % 4,
    {
        match self {
            WeatherKind::Clear => WeatherKind::Rain,
            WeatherKind::Rain => WeatherKind::Snow,
            WeatherKind::Snow => WeatherKind::Random,
            WeatherKind::Random => WeatherKind::Clear,
        }
    }
}

impl WeatherKind {
    /// Menu label of the kind.
    pub fn label(self) -> (s: &'static str)
        ensures
            s@ == match self {
                WeatherKind::Clear => "晴天"@,
                WeatherKind::Rain => "雨天"@,
                WeatherKind::Snow => "雪天"@,
                WeatherKind::Random => "随机"@,
            },
    {
        match self {
            WeatherKind::Clear => "晴天",
            WeatherKind::Rain => "雨天",
            WeatherKind::Snow => "雪天",
            WeatherKind::Random => "随机",
        }
    }
}

/// Seed of the weather generator.
pub const WEATHER_SEED: u32 = 0x9E37_79B9;

/// The concrete kind picked from generator state `x`.
pub open spec fn pick_from_state(x: u32) -> WeatherKind {
    let r = (x as int / 65536) % 3;
    if r == 0 {
        WeatherKind::Clear
    } else if r == 1 {
        WeatherKind::Rain
    } else {
        WeatherKind::Snow
    }
}

/// Deterministic generator behind Random weather: it picks the next concrete
/// kind and supplies the uniform draws for hold times and particle placement.
#[derive(Debug, Clone, Copy)]
pub struct WeatherRng {
    pub state: u32,
}

impl WeatherRng {
    pub fn new() -> (r: Self)
        ensures
            r.state == WEATHER_SEED,
    {
        WeatherRng { state: WEATHER_SEED }
    }

    /// Advance the generator and return its new state.
    pub fn next_state(&mut self) -> (x: u32)
        ensures
            x == lcg_step(old(self).state),
            final(self).state == x,
    {
        self.state = lcg_next(self.state);
        self.state
    }

    /// Advance the generator and pick Clear, Rain or Snow from its new state.
    pub fn next_random(&mut self) -> (k: WeatherKind)
        ensures
            final(self).state == lcg_step(old(self).state),
            k == pick_from_state(final(self).state),
            k != WeatherKind::Random,
    {
        let x = self.next_state();
        let r = (x / 65536) % 3;
        if r == 0 {
            WeatherKind::Clear
        } else if r == 1 {
            WeatherKind::Rain
        } else {
            WeatherKind::Snow
        }
    }

    /// The concrete kind that should be falling. A concrete selection is
    /// used as is. Under Random the active kind stays until its hold time
    /// has elapsed; then the generator picks the next kind.
    pub fn target_kind(&mut self, selected: WeatherKind, active: WeatherKind, hold_elapsed: bool) -> (k: WeatherKind)
        ensures
            selected != WeatherKind::Random ==> k == selected && final(self).state == old(self).state,
            selected == WeatherKind::Random && !hold_elapsed ==> k == active && final(self).state == old(self).state,
            selected == WeatherKind::Random && hold_elapsed ==> {
                &&& final(self).state == lcg_step(old(self).state)
                &&& k == pick_from_state(final(self).state)
            },
    {
        match selected {
            WeatherKind::Random => if hold_elapsed {
                self.next_random()
            } else {
                active
            },
            concrete => concrete,
        }
    }
}

} // verus!
