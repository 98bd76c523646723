use crate::game::menu::{DEFAULT_GOD_MODE_ENABLED, DEFAULT_RESOLUTION_INDEX, RESOLUTION_OPTION_COUNT};
use crate::game::systems::weather::WeatherKind;
use vstd::prelude::*;

verus! {


/// Mouse-sensitivity multipliers, in percent, applied on top of the scene's base value.
pub const SENSITIVITY_PERCENT: [u32; 5] = [50, 75, 100, 150, 200];
pub const SENSITIVITY_OPTION_COUNT: usize = 5;
pub const DEFAULT_SENSITIVITY_INDEX: usize = 2;

/// Settings persisted across sessions.
#[derive(Debug, Clone, Copy, PartialEq, Eq, Structural)]
pub struct UserConfig {
    /// Index into the resolution options of the pause menu.
    pub resolution_index: usize,
    /// Index into [`SENSITIVITY_PERCENT`].
    pub sensitivity_index: usize,
    pub god_mode_enabled: bool,
    /// Whether the player has opened the help overlay at least once.
    pub help_seen: bool,
    /// Selected weather mode.
    pub weather: WeatherKind,
}

/// Both option indices name an existing option.
pub open spec fn config_in_range(c: UserConfig) -> bool {
    &&& c.resolution_index < RESOLUTION_OPTION_COUNT
    &&& c.sensitivity_index < SENSITIVITY_OPTION_COUNT
}

/// `c` with each out-of-range index replaced by its default.
pub open spec fn sanitize_spec(c: UserConfig) -> UserConfig {
    UserConfig {
        resolution_index: if c.resolution_index >= RESOLUTION_OPTION_COUNT {
            DEFAULT_RESOLUTION_INDEX
        } else {
            c.resolution_index
        },
        sensitivity_index: if c.sensitivity_index >= SENSITIVITY_OPTION_COUNT {
            DEFAULT_SENSITIVITY_INDEX
        } else {
            c.sensitivity_index
        },
        ..c
    }
}

pub open spec fn default_config() -> UserConfig {
    UserConfig {
        resolution_index: DEFAULT_RESOLUTION_INDEX,
        sensitivity_index: DEFAULT_SENSITIVITY_INDEX,
        god_mode_enabled: DEFAULT_GOD_MODE_ENABLED,
        help_seen: false,
        weather: WeatherKind::Clear,
    }
}

impl Default for UserConfig {
    fn default() -> (c: Self)
        ensures
            c == default_config(),
    {
        UserConfig {
            resolution_index: DEFAULT_RESOLUTION_INDEX,
            sensitivity_index: DEFAULT_SENSITIVITY_INDEX,
            god_mode_enabled: DEFAULT_GOD_MODE_ENABLED,
            help_seen: false,
            weather: WeatherKind::Clear,
        }
    }
}

impl UserConfig {
    /// Replace out-of-range option indices (from a hand-edited or older
    /// file) with their defaults; everything else is kept.
    pub fn sanitized(self) -> (c: Self)
        ensures
            c == sanitize_spec(self),
            config_in_range(c),
    {
        let mut c = self;
        if c.resolution_index >= RESOLUTION_OPTION_COUNT {
            c.resolution_index = DEFAULT_RESOLUTION_INDEX;
        }
        if c.sensitivity_index >= SENSITIVITY_OPTION_COUNT {
            c.sensitivity_index = DEFAULT_SENSITIVITY_INDEX;
        }
        c
    }

    /// Sensitivity multiplier of the selected option in percent; 100 when
    /// the index names no option.
    pub fn sensitivity_percent(&self) -> (p: u32)
        ensures
            p == if self.sensitivity_index < SENSITIVITY_OPTION_COUNT {
                SENSITIVITY_PERCENT@[self.sensitivity_index as int]
            } else {
                100
            },
    {
        if self.sensitivity_index < SENSITIVITY_OPTION_COUNT {
            SENSITIVITY_PERCENT[self.sensitivity_index]
        } else {
            100
        }
    }
}

} // verus!
