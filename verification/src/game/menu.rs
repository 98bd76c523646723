use crate::engine::config::{UserConfig, DEFAULT_SENSITIVITY_INDEX, SENSITIVITY_OPTION_COUNT};
use crate::game::systems::weather::WeatherKind;
use vstd::prelude::*;

verus! {

#[derive(Debug, Clone, Copy, PartialEq, Eq, Structural)]
pub enum Language {
    SimplifiedChinese,
}

/// A window size offered by the pause menu.
#[derive(Debug, Clone, Copy, PartialEq, Eq)]
pub struct ResolutionOption {
    pub label: &'static str,
    pub width: u32,
    pub height: u32,
}

pub const RESOLUTION_OPTION_COUNT: usize = 5;
/// 1920 x 1080.
pub const DEFAULT_RESOLUTION_INDEX: usize = 2;

/// Startup default for god mode, shared by the menu checkbox and the view-mode key.
pub const DEFAULT_GOD_MODE_ENABLED: bool = true;

/// Width and height of resolution option `index`, in menu order.
pub open spec fn resolution_size(index: int) -> (u32, u32) {
    if index == 0 {
        (1280u32, 720u32)
    } else if index == 1 {
        (1600u32, 900u32)
    } else if index == 2 {
        (1920u32, 1080u32)
    } else if index == 3 {
        (2560u32, 1440u32)
    } else {
        (3440u32, 1440u32)
    }
}

/// Button label of resolution option `index`.
pub open spec fn resolution_label(index: int) -> Seq<char> {
    if index == 0 {
        "1280 x 720"@
    } else if index == 1 {
        "1600 x 900"@
    } else if index == 2 {
        "1920 x 1080"@
    } else if index == 3 {
        "2560 x 1440"@
    } else {
        "3440 x 1440 (21:9)"@
    }
}

/// Resolution option `index`, or `None` past the end of the list.
pub fn resolution_option(index: usize) -> (r: Option<ResolutionOption>)
    ensures
        index < RESOLUTION_OPTION_COUNT <==> r is Some,
        r matches Some(o) ==> (o.width, o.height) == resolution_size(index as int) && o.label@
            == resolution_label(index as int),
{
    if index == 0 {
        Some(ResolutionOption { label: "1280 x 720", width: 1280, height: 720 })
    } else if index == 1 {
        Some(ResolutionOption { label: "1600 x 900", width: 1600, height: 900 })
    } else if index == 2 {
        Some(ResolutionOption { label: "1920 x 1080", width: 1920, height: 1080 })
    } else if index == 3 {
        Some(ResolutionOption { label: "2560 x 1440", width: 2560, height: 1440 })
    } else if index == 4 {
        Some(ResolutionOption { label: "3440 x 1440 (21:9)", width: 3440, height: 1440 })
    } else {
        None
    }
}

/// Settings menu state.
#[derive(Debug, Clone)]
pub struct PauseMenu {
    pub open: bool,
    pub language: Language,
    pub selected_resolution: usize,
    pub god_mode_enabled: bool,
    /// Index into the sensitivity options.
    pub sensitivity_index: usize,
    /// Selected weather mode shown on the weather button.
    pub weather: WeatherKind,
    /// Scene names shown by the scene selector.
    pub scene_names: Vec<String>,
    /// Which entry corresponds to the loaded scene.
    pub current_scene: Option<usize>,
}

/// A click on one of the menu's controls.
#[derive(Debug, Clone, Copy, PartialEq, Eq, Structural)]
pub enum MenuAction {
    SetResolution(usize),
    SetLanguage(Language),
    ToggleGodMode,
    CycleSensitivity,
    CycleWeather,
    /// Load the scene at this index of `PauseMenu::scene_names`.
    LoadScene(usize),
    Resume,
    ResetScene,
    Quit,
}

/// What the engine must do after the menu handled an action.
#[derive(Debug, Clone, Copy, PartialEq, Eq, Structural)]
pub enum MenuEffect {
    Nothing,
    /// Resize (and re-centre) the window; save the settings.
    ResizeWindow { width: u32, height: u32 },
    /// Apply the god-mode setting to the view mode; save the settings.
    SetGodMode(bool),
    /// Switch the weather system to this selection; save the settings.
    SetWeather(WeatherKind),
    /// Rescale the live mouse sensitivity from one option to another; save the settings.
    RescaleSensitivity { from_index: usize, to_index: usize },
    /// Load the scene at this library index, if it exists.
    LoadScene(usize),
    /// Reload the current scene.
    ReloadScene,
    /// Lock the cursor again for play.
    Resume,
    /// Leave the game.
    Quit,
}

impl MenuEffect {
    /// Whether the settings file must be rewritten after this effect.
    pub open spec fn spec_saves_config(self) -> bool {
        match self {
            MenuEffect::ResizeWindow { .. } => true,
            MenuEffect::SetGodMode(_) => true,
            MenuEffect::SetWeather(_) => true,
            MenuEffect::RescaleSensitivity { .. } => true,
            _ => false,
        }
    }

    pub fn saves_config(&self) -> (b: bool)
        ensures
            b == self.spec_saves_config(),
    {
        match self {
            MenuEffect::ResizeWindow { .. } => true,
            MenuEffect::SetGodMode(_) => true,
            MenuEffect::SetWeather(_) => true,
            MenuEffect::RescaleSensitivity { .. } => true,
            _ => false,
        }
    }
}

/// The persisted settings a menu writes over `base`: its resolution,
/// sensitivity, god-mode and weather choices; the rest stays as in `base`.
pub open spec fn config_of_menu(m: PauseMenu, base: UserConfig) -> UserConfig {
    UserConfig {
        resolution_index: m.selected_resolution,
        sensitivity_index: m.sensitivity_index,
        god_mode_enabled: m.god_mode_enabled,
        weather: m.weather,
        ..base
    }
}

/// The menu after a click on `action`, and what the engine must do.
pub open spec fn spec_apply(m: PauseMenu, action: MenuAction) -> (PauseMenu, MenuEffect) {
    match action {
        MenuAction::SetResolution(i) => if i < RESOLUTION_OPTION_COUNT {
            (
                PauseMenu { selected_resolution: i, ..m },
                MenuEffect::ResizeWindow { width: resolution_size(i as int).0, height: resolution_size(i as int).1 },
            )
        } else {
            (m, MenuEffect::Nothing)
        },
        MenuAction::SetLanguage(l) => (PauseMenu { language: l, ..m }, MenuEffect::Nothing),
        MenuAction::ToggleGodMode => (
            PauseMenu { god_mode_enabled: !m.god_mode_enabled, ..m },
            MenuEffect::SetGodMode(!m.god_mode_enabled),
        ),
        MenuAction::CycleSensitivity => {
            let next = ((m.sensitivity_index as int + 1) % (SENSITIVITY_OPTION_COUNT as int)) as usize;
            (
                PauseMenu { sensitivity_index: next, ..m },
                MenuEffect::RescaleSensitivity { from_index: m.sensitivity_index, to_index: next },
            )
        },
        MenuAction::CycleWeather => (
            PauseMenu { weather: m.weather.spec_next(), ..m },
            MenuEffect::SetWeather(m.weather.spec_next()),
        ),
        MenuAction::LoadScene(i) => (m, MenuEffect::LoadScene(i)),
        MenuAction::Resume => (PauseMenu { open: false, ..m }, MenuEffect::Resume),
        MenuAction::ResetScene => (m, MenuEffect::ReloadScene),
        MenuAction::Quit => (m, MenuEffect::Quit),
    }
}

impl PauseMenu {
    pub fn new() -> (m: Self)
        ensures
            !m.open,
            m.language == Language::SimplifiedChinese,
            m.selected_resolution == DEFAULT_RESOLUTION_INDEX,
            m.god_mode_enabled == DEFAULT_GOD_MODE_ENABLED,
            m.sensitivity_index == DEFAULT_SENSITIVITY_INDEX,
            m.weather == WeatherKind::Clear,
            m.scene_names@.len() == 0,
            m.current_scene is None,
    {
        PauseMenu {
            open: false,
            language: Language::SimplifiedChinese,
            selected_resolution: DEFAULT_RESOLUTION_INDEX,
            god_mode_enabled: DEFAULT_GOD_MODE_ENABLED,
            sensitivity_index: DEFAULT_SENSITIVITY_INDEX,
            weather: WeatherKind::Clear,
            scene_names: Vec::new(),
            current_scene: None,
        }
    }

    /// Apply a clicked control to the menu state and report what the engine
    /// has to do in response.
    pub fn apply(&mut self, action: MenuAction) -> (e: MenuEffect)
        ensures
            (*final(self), e) == spec_apply(*old(self), action),
    {
        match action {
            MenuAction::SetResolution(i) => {
                match resolution_option(i) {
                    Some(option) => {
                        self.selected_resolution = i;
                        MenuEffect::ResizeWindow { width: option.width, height: option.height }
                    },
                    None => MenuEffect::Nothing,
                }
            },
            MenuAction::SetLanguage(l) => {
                self.language = l;
                MenuEffect::Nothing
            },
            MenuAction::ToggleGodMode => {
                self.god_mode_enabled = !self.god_mode_enabled;
                MenuEffect::SetGodMode(self.god_mode_enabled)
            },
            MenuAction::CycleSensitivity => {
                let old_index = self.sensitivity_index;
                let next = if old_index >= SENSITIVITY_OPTION_COUNT - 1 {
                    (old_index % SENSITIVITY_OPTION_COUNT + 1) % SENSITIVITY_OPTION_COUNT
                } else {
                    old_index + 1
                };
                proof {
                    if old_index >= SENSITIVITY_OPTION_COUNT - 1 {
                        vstd::arithmetic::div_mod::lemma_add_mod_noop(old_index as int, 1, 5);
                        vstd::arithmetic::div_mod::lemma_mod_bound(old_index as int, 5);
                        vstd::arithmetic::div_mod::lemma_small_mod(1, 5);
                        vstd::arithmetic::div_mod::lemma_mod_twice(old_index as int % 5 + 1, 5);
                    } else {
                        vstd::arithmetic::div_mod::lemma_small_mod((old_index + 1) as nat, 5);
                    }
                }
                self.sensitivity_index = next;
                MenuEffect::RescaleSensitivity { from_index: old_index, to_index: next }
            },
            MenuAction::CycleWeather => {
                self.weather = self.weather.next();
                MenuEffect::SetWeather(self.weather)
            },
            MenuAction::LoadScene(i) => MenuEffect::LoadScene(i),
            MenuAction::Resume => {
                self.open = false;
                MenuEffect::Resume
            },
            MenuAction::ResetScene => MenuEffect::ReloadScene,
            MenuAction::Quit => MenuEffect::Quit,
        }
    }

    /// The persisted settings with this menu's choices written over `base`.
    pub fn to_config(&self, base: UserConfig) -> (c: UserConfig)
        ensures
            c == config_of_menu(*self, base),
    {
        UserConfig {
            resolution_index: self.selected_resolution,
            sensitivity_index: self.sensitivity_index,
            god_mode_enabled: self.god_mode_enabled,
            weather: self.weather,
            help_seen: base.help_seen,
        }
    }

    /// A closed menu showing the persisted settings and the scene list.
    pub fn from_config(config: UserConfig, scene_names: Vec<String>, current_scene: Option<usize>) -> (m: Self)
        ensures
            !m.open,
            m.language == Language::SimplifiedChinese,
            m.selected_resolution == config.resolution_index,
            m.sensitivity_index == config.sensitivity_index,
            m.god_mode_enabled == config.god_mode_enabled,
            m.weather == config.weather,
            m.scene_names@ == scene_names@,
            m.current_scene == current_scene,
    {
        PauseMenu {
            open: false,
            language: Language::SimplifiedChinese,
            selected_resolution: config.resolution_index,
            god_mode_enabled: config.god_mode_enabled,
            sensitivity_index: config.sensitivity_index,
            weather: config.weather,
            scene_names,
            current_scene,
        }
    }
}

} // verus!
