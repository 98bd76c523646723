use gxengine::audio::{lcg_next, pcm16_wav, NoiseLcg, SAMPLE_RATE};
use gxengine::engine::config::DEFAULT_SENSITIVITY_INDEX;
use gxengine::engine::overlay::{CursorGrab, OverlayState, WindowInput};
use gxengine::engine::UserConfig;
use gxengine::game::menu::{MenuAction, MenuEffect, PauseMenu};
use gxengine::game::systems::state::{menu_open, MenuState, PhysicsDebugState, ViewMode};
use gxengine::game::systems::weather::WeatherKind;
use gxengine::input::{ButtonState, InputState, Key, KeyboardInput, MouseButtonCode, MouseInput};

#[test]
fn invalid_indices_are_sanitized_on_load() {
    let config = UserConfig {
        resolution_index: 99,
        sensitivity_index: 99,
        god_mode_enabled: true,
        help_seen: true,
        weather: Default::default(),
    }
    .sanitized();
    assert_eq!(config.resolution_index, 2);
    assert_eq!(config.sensitivity_index, DEFAULT_SENSITIVITY_INDEX);
    assert!(config.help_seen);
}

#[test]
fn sanitizing_keeps_valid_settings() {
    let config = UserConfig { resolution_index: 4, sensitivity_index: 0, ..UserConfig::default() };
    assert_eq!(config.sanitized(), config);
    assert_eq!(config.sanitized().sanitized(), config.sanitized());
    assert_eq!(config.sensitivity_percent(), 50);
}

#[test]
fn menu_settings_survive_the_config_round_trip() {
    let mut menu = PauseMenu::new();
    assert_eq!(menu.apply(MenuAction::SetResolution(4)), MenuEffect::ResizeWindow { width: 3440, height: 1440 });
    assert_eq!(menu.apply(MenuAction::SetResolution(9)), MenuEffect::Nothing);
    assert_eq!(menu.apply(MenuAction::ToggleGodMode), MenuEffect::SetGodMode(false));
    assert_eq!(menu.apply(MenuAction::CycleSensitivity), MenuEffect::RescaleSensitivity { from_index: 2, to_index: 3 });
    assert_eq!(menu.apply(MenuAction::CycleWeather), MenuEffect::SetWeather(WeatherKind::Rain));
    let base = UserConfig { help_seen: true, ..UserConfig::default() };
    let saved = menu.to_config(base);
    assert!(saved.help_seen);
    let restored = PauseMenu::from_config(saved, vec!["dust2".to_string()], Some(0));
    assert_eq!(restored.selected_resolution, 4);
    assert!(!restored.god_mode_enabled);
    assert_eq!(restored.sensitivity_index, 3);
    assert_eq!(restored.weather, WeatherKind::Rain);
    assert!(!menu_open(Some(&MenuState(restored))));
    assert!(!menu_open(None));
}

#[test]
fn key_presses_turn_into_holds_at_frame_end() {
    let mut input = InputState::new();
    input.process_key(Key::Space.code(), true);
    assert!(KeyboardInput::is_jump_pressed(&input));
    assert!(input.is_key_pressed(Key::Space.code()));
    input.update();
    assert!(!KeyboardInput::is_jump_pressed(&input), "one press is one jump");
    assert!(input.is_key_pressed(Key::Space.code()));
    input.process_key(Key::Space.code(), false);
    assert!(!input.is_key_pressed(Key::Space.code()));
    input.process_key(Key::KeyW.code(), true);
    input.process_key(Key::KeyD.code(), true);
    assert_eq!(KeyboardInput::movement_axes(&input), (1, 0, -1));
}

#[test]
fn mouse_buttons_track_shooting() {
    let mut input = InputState::new();
    input.process_mouse_button(MouseButtonCode::LEFT, true);
    assert!(MouseInput::is_just_shooting(&input));
    input.update();
    assert!(MouseInput::is_shooting(&input));
    assert!(!MouseInput::is_just_shooting(&input));
    assert!(!MouseInput::is_aiming(&input));
    assert!(ButtonState::Held.is_held() && ButtonState::Released.is_released());
}

#[test]
fn view_mode_follows_the_god_mode_setting() {
    assert_eq!(ViewMode::Fps.after_toggle_key(true), ViewMode::God);
    assert_eq!(ViewMode::Fps.after_toggle_key(false), ViewMode::Fps);
    assert_eq!(ViewMode::God.after_god_mode_setting(false), ViewMode::Fps);
    let mut debug = PhysicsDebugState::default();
    debug.toggle(true, false, false, true);
    debug.toggle(true, false, false, false);
    assert_eq!(debug, PhysicsDebugState { colliders: false, velocities: false, contacts: false, impulses: true });
}

#[test]
fn wav_header_is_exact() {
    let wav = pcm16_wav(&[1, -1]);
    assert_eq!(wav.len(), 48);
    assert_eq!(&wav[0..4], b"RIFF");
    assert_eq!(&wav[4..8], &40u32.to_le_bytes());
    assert_eq!(&wav[8..16], b"WAVEfmt ");
    assert_eq!(&wav[24..28], &SAMPLE_RATE.to_le_bytes());
    assert_eq!(&wav[36..40], b"data");
    assert_eq!(&wav[40..44], &4u32.to_le_bytes());
    assert_eq!(&wav[44..48], &[1, 0, 255, 255]);
}

#[test]
fn noise_generator_is_the_classic_lcg() {
    assert_eq!(lcg_next(0), 1_013_904_223);
    let mut noise = NoiseLcg(1);
    assert_eq!(noise.next_state(), 1_664_525u32.wrapping_add(1_013_904_223));
}

#[test]
fn open_menu_frees_the_cursor_and_blocks_mouse_look() {
    let mut overlay = OverlayState::new();
    assert_eq!(overlay.handle(WindowInput::MouseMotion), (CursorGrab::Keep, true));
    assert_eq!(overlay.handle(WindowInput::EscapeKey), (CursorGrab::Release, false));
    assert!(overlay.menu_open && !overlay.mouse_locked);
    assert_eq!(overlay.handle(WindowInput::MouseMotion), (CursorGrab::Keep, false));
    assert_eq!(overlay.handle(WindowInput::MousePressed), (CursorGrab::Keep, false));
    assert_eq!(overlay.handle(WindowInput::Focused(true)), (CursorGrab::Keep, false), "focus does not steal the cursor from the menu");
    assert_eq!(overlay.handle(WindowInput::EscapeKey), (CursorGrab::Lock, false));
    assert_eq!(overlay.handle(WindowInput::DebugPanelKey), (CursorGrab::Release, false));
    assert_eq!(overlay.handle(WindowInput::MouseMotion), (CursorGrab::Keep, false));
    assert_eq!(overlay.handle(WindowInput::DebugPanelKey), (CursorGrab::Lock, false));
    assert_eq!(overlay.handle(WindowInput::Focused(false)), (CursorGrab::Release, false));
    assert_eq!(overlay.handle(WindowInput::MouseMotion), (CursorGrab::Keep, false), "an unfocused window does not look around");
    overlay.menu_open = true;
    assert_eq!(overlay.scene_loaded(), CursorGrab::Lock);
    assert!(!overlay.menu_open && overlay.mouse_locked);
}

#[test]
fn resume_closes_the_menu_and_recaptures_the_cursor() {
    let mut menu = PauseMenu::new();
    menu.open = true;
    let mut overlay = OverlayState::new();
    overlay.handle(WindowInput::EscapeKey);
    assert_eq!(menu.open, overlay.menu_open);
    let effect = menu.apply(MenuAction::Resume);
    assert_eq!(effect, MenuEffect::Resume);
    assert_eq!(overlay.apply_menu_effect(effect), CursorGrab::Lock);
    assert!(!menu.open && !overlay.menu_open && overlay.mouse_locked);
    assert_eq!(overlay.apply_menu_effect(MenuEffect::Quit), CursorGrab::Keep);
}
