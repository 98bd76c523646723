use gxengine::asset::Handle;
use gxengine::game::enemy::select_route;
use gxengine::game::systems::buy_menu::{
    equip_weapon, menu_lines, reset_to_default_weapon, BuyInput, BuyOutcome, BuyState, MAX_MONEY,
    STARTING_MONEY,
};
use gxengine::game::systems::match_mode::{
    match_roster, match_roster_size, movement_allowed, round_winner, Announcement, BombHud, BombStatus,
    MatchRefusal, MatchState, RoundPhase, StatEntry,
};
use gxengine::game::systems::sandbox_input::{sandbox_commands, SandboxCommands};
use gxengine::engine::schedule::{next_fixed_step, FixedStep};
use gxengine::input::{InputState, Key, MouseButtonCode};
use gxengine::game::systems::missing::{AssetKind, MissingAssetLog};
use gxengine::game::systems::ragdoll::{RagdollState, MAX_RAGDOLLS};
use gxengine::game::systems::state::WeaponMeshes;
use gxengine::game::systems::weather::{WeatherKind, WeatherRng};
use gxengine::game::team::Team;
use gxengine::game::weapon::{
    weapon_catalog, Magazine, TriggerAction, TriggerInput, DEFAULT_WEAPON_INDEX,
};
use gxengine::physics::RuntimeProps;

#[test]
fn award_saturates_at_cap() {
    let mut buy = BuyState::new(true);
    buy.money = MAX_MONEY - 100;
    buy.award(500);
    assert_eq!(buy.money, MAX_MONEY);
}

#[test]
fn catalog_covers_five_archetypes_with_free_default() {
    let catalog = weapon_catalog();
    assert_eq!(catalog.len(), 5);
    assert_eq!(catalog[DEFAULT_WEAPON_INDEX].price, 0);
    assert!(catalog.iter().any(|spec| spec.pellets > 1));
}

#[test]
fn menu_lines_mark_current_weapon() {
    let buy = BuyState::new(true);
    let lines = menu_lines(&buy, 2);
    assert!(lines[2].starts_with('●'));
    assert!(!lines[0].starts_with('●'));
}

#[test]
fn team_opponent_is_symmetric() {
    assert_eq!(Team::Alpha.opponent(), Team::Bravo);
    assert_eq!(Team::Bravo.opponent(), Team::Alpha);
}

#[test]
fn weather_kind_cycle_visits_every_option() {
    let mut kind = WeatherKind::Clear;
    let mut seen = Vec::new();
    for _ in 0..4 {
        seen.push(kind);
        kind = kind.next();
    }
    assert_eq!(kind, WeatherKind::Clear, "cycle must wrap");
    assert!(seen.contains(&WeatherKind::Rain));
    assert!(seen.contains(&WeatherKind::Snow));
    assert!(seen.contains(&WeatherKind::Random));
}

#[test]
fn random_picks_are_deterministic_and_varied() {
    let mut state = WeatherRng::new();
    let picks: Vec<WeatherKind> = (0..30).map(|_| state.next_random()).collect();
    assert!(picks.contains(&WeatherKind::Rain));
    assert!(picks.contains(&WeatherKind::Snow));
    assert!(picks.contains(&WeatherKind::Clear));
}

#[test]
fn weather_generator_follows_the_lcg() {
    let mut rng = WeatherRng::new();
    let x = rng.next_state();
    assert_eq!(x, 0x9E37_79B9u32.wrapping_mul(1_664_525).wrapping_add(1_013_904_223));
    assert_eq!(WeatherKind::Rain.label(), "雨天");
}

#[test]
fn hud_line_reflects_phase_and_score() {
    let mut state = MatchState::new(5, Vec::new());
    state.score_alpha = 2;
    state.score_bravo = 1;
    assert!(state.hud_line(3, BombHud::Hidden).contains("2 : 1"));
    state.phase = RoundPhase::Live;
    assert!(state.hud_line(3, BombHud::Hidden).contains("交战中"));
}

#[test]
fn hud_line_has_the_exact_layout() {
    let mut state = MatchState::new(5, Vec::new());
    state.score_alpha = 2;
    state.score_bravo = 1;
    assert_eq!(state.hud_line(4, BombHud::Fuse(12)), "第 1 回合 · 我方 2 : 1 敌方 · 准备  4s · C4 引爆 12s");
}

#[test]
fn reload_key_starts_reload_when_magazine_is_not_full() {
    let mut weapon = Magazine::full(30);
    weapon.current = 7;
    let input = TriggerInput { reload_elapsed: false, reload_pressed: true, fire_held: false, cooldown_ready: true };
    assert_ne!(weapon.step(input), TriggerAction::Fired);
    assert!(weapon.reloading);
}

#[test]
fn magazine_fires_empties_and_refills() {
    let mut m = Magazine::full(2);
    let fire = TriggerInput { reload_elapsed: false, reload_pressed: false, fire_held: true, cooldown_ready: true };
    assert_eq!(m.step(fire), TriggerAction::Fired);
    assert_eq!(m.step(fire), TriggerAction::Fired);
    assert_eq!(m.current, 0);
    assert_eq!(m.step(fire), TriggerAction::ReloadStarted);
    assert_eq!(m.step(fire), TriggerAction::Nothing, "nothing fires while reloading");
    let done = TriggerInput { reload_elapsed: true, ..fire };
    assert_eq!(m.step(done), TriggerAction::Reloaded);
    assert_eq!(m, Magazine { current: 2, max: 2, reloading: false });
    assert!(!m.start_reload(), "a full magazine does not reload");
}

#[test]
fn equipping_swaps_the_view_mesh_when_one_is_registered() {
    let meshes = WeaponMeshes(vec![Handle::<()>::new(10), Handle::new(11), Handle::new(12)]);
    let current = Handle::new(99);
    let l = equip_weapon(Some(&meshes), current, 1);
    assert_eq!(l.mesh.id, 11);
    assert_eq!(l.slot, 1);
    assert_eq!(l.magazine, Magazine { current: 32, max: 32, reloading: false });
    let l = equip_weapon(Some(&meshes), current, 4);
    assert_eq!(l.mesh.id, 99);
    assert_eq!(l.pellets, 6);
    let l = equip_weapon(None, current, 17);
    assert_eq!((l.slot, l.mesh.id), (0, 99), "an out-of-range index reports the slot it was built from");
    assert_eq!(l.magazine.max, 12, "out of range falls back to the default weapon");
    let l = reset_to_default_weapon(Some(&meshes), current);
    assert_eq!((l.slot, l.mesh.id), (0, 10));
}

#[test]
fn spawner_assigns_each_enemy_its_own_route() {
    let shared = vec![[0.0f32, 0.0, 1.0]];
    let routes = vec![vec![[1.0f32, 0.0, 0.0]], vec![[-1.0f32, 0.0, 0.0]]];
    assert_eq!(select_route(&routes, &shared, 0), &vec![[1.0f32, 0.0, 0.0]]);
    assert_eq!(select_route(&routes, &shared, 1), &vec![[-1.0f32, 0.0, 0.0]]);
}

#[test]
fn empty_or_missing_routes_fall_back_to_shared_waypoints() {
    let shared = vec![1u8, 2];
    let routes = vec![vec![], vec![3u8]];
    assert_eq!(select_route(&routes, &shared, 0), &shared);
    assert_eq!(select_route(&routes, &shared, 1), &vec![3u8]);
    assert_eq!(select_route(&routes, &shared, 5), &shared);
}

#[test]
fn runtime_prop_limit_removes_oldest_body_and_entity() {
    let mut sandbox = RuntimeProps::new(2);
    let mut removed = Vec::new();
    for entity in 0..3u64 {
        removed.extend(sandbox.track(entity));
    }
    assert_eq!(removed, vec![0]);
    assert!(!sandbox.props.contains(&0));
    assert!(sandbox.props.contains(&1));
    assert!(sandbox.props.contains(&2));
}

#[test]
fn runtime_props_forget_and_zero_limit() {
    let mut props = RuntimeProps::new(0);
    assert!(props.track(5).is_empty());
    assert_eq!(props.track(6), vec![5], "a limit of zero still keeps one prop");
    props.forget(6);
    assert!(props.props.is_empty());
}

#[test]
fn buy_menu_refuses_and_charges() {
    let mut buy = BuyState::new(true);
    assert_eq!(buy.money, STARTING_MONEY);
    let none = [false; 5];
    let toggle = BuyInput { menu_open: false, spectating: false, toggle: true, buying_allowed: false, digits: none };
    assert_eq!(buy.step(toggle), BuyOutcome::RefusedOutsideBuyTime);
    assert!(!buy.open);
    let open = BuyInput { buying_allowed: true, ..toggle };
    assert_eq!(buy.step(open), BuyOutcome::Idle);
    assert!(buy.open);
    let rifle = BuyInput { toggle: false, buying_allowed: true, digits: [false, false, true, false, false], ..toggle };
    assert_eq!(buy.step(rifle), BuyOutcome::InsufficientFunds(2));
    buy.award(2000);
    assert_eq!(buy.step(rifle), BuyOutcome::Purchased(2));
    assert_eq!(buy.money, 100);
    assert!(!buy.open);
}

#[test]
fn a_round_is_scored_once_and_the_series_resets() {
    let mut state = MatchState::new(1, match_roster(1, 1));
    state.start_live();
    assert!(movement_allowed(Some(&state)));
    let award = state.award_round(Team::Alpha).expect("first award counts");
    assert_eq!(award.announcement, Announcement::MatchWon(1, 0));
    assert_eq!(award.reward, 1400);
    assert!(state.award_round(Team::Bravo).is_none(), "no second award in the same round");
    assert!(!movement_allowed(Some(&state)));
    state.start_next_round();
    assert_eq!((state.score_alpha, state.score_bravo, state.round_number), (0, 0, 1));
    assert_eq!(state.phase, RoundPhase::Warmup);
    assert!(movement_allowed(None));
}

#[test]
fn bomb_decides_the_round() {
    let mut state = MatchState::new(3, Vec::new());
    state.start_live();
    assert!(state.resolve_bomb(true).is_none(), "nothing planted yet");
    assert!(state.plant_bomb());
    assert!(!state.plant_bomb());
    let award = state.resolve_bomb(true).unwrap();
    assert_eq!(award.announcement, Announcement::RoundLost);
    assert_eq!(state.bomb, BombStatus::Resolved);
    assert_eq!(state.score_bravo, 1);
    assert_eq!(round_winner(0, 0, false, false), Some(Team::Alpha));
    assert_eq!(round_winner(0, 3, false, true), None);
    assert_eq!(round_winner(0, 3, false, false), Some(Team::Bravo));
    assert_eq!(round_winner(0, 3, true, false), None);
}

#[test]
fn scoreboard_sorts_by_kills_then_deaths() {
    let mut state = MatchState::new(5, match_roster(1, 2));
    state.record_bot_kill(2, Some(1));
    state.record_bot_kill(2, None);
    assert!(state.record_player_death(3));
    assert!(!state.record_player_death(3), "a spectator does not die twice");
    assert_eq!(state.stats[2].kills, 2);
    assert_eq!(state.stats[0].deaths, 1);
    assert_eq!(state.scoreboard_order(), vec![2, 3, 0, 1]);
    let lines = state.scoreboard_lines();
    assert_eq!(lines.len(), 4);
    assert!(lines[0].starts_with("[敌方]"));
    let _: &StatEntry = &state.stats[0];
}

#[test]
fn missing_assets_are_reported_once_per_kind() {
    let mut log = MissingAssetLog::new();
    assert!(log.first_report(AssetKind::Mesh, 4));
    assert!(!log.first_report(AssetKind::Mesh, 4));
    assert!(log.first_report(AssetKind::Material, 4));
}

#[test]
fn ragdolls_beyond_the_cap_evict_the_oldest() {
    let mut state = RagdollState::default();
    for n in 1..=MAX_RAGDOLLS as u64 {
        assert_eq!(state.register_spawn(), (n, None));
    }
    assert_eq!(state.register_spawn(), (MAX_RAGDOLLS as u64 + 1, Some(1)));
    assert_eq!(state.spawned.len(), MAX_RAGDOLLS);
}

#[test]
fn random_weather_switches_only_when_the_hold_ends() {
    let mut rng = WeatherRng::new();
    assert_eq!(rng.target_kind(WeatherKind::Snow, WeatherKind::Clear, true), WeatherKind::Snow);
    assert_eq!(rng.state, 0x9E37_79B9);
    assert_eq!(rng.target_kind(WeatherKind::Random, WeatherKind::Rain, false), WeatherKind::Rain);
    assert_eq!(rng.state, 0x9E37_79B9);
    let mut copy = WeatherRng::new();
    let expected = copy.next_random();
    assert_eq!(rng.target_kind(WeatherKind::Random, WeatherKind::Rain, true), expected);
    assert_eq!(rng.state, copy.state);
}

#[test]
fn out_of_range_weapon_reports_the_default_slot() {
    let (spec, slot) = gxengine::game::weapon::spec_for_index(7);
    assert_eq!(slot, DEFAULT_WEAPON_INDEX);
    assert_eq!(spec.magazine, 12);
    assert_eq!(spec.name, "GX-9 手枪");
}

#[test]
fn match_blocks_need_mesh_materials_and_spawns() {
    assert_eq!(match_roster_size(false, true, true, 5, 5), Err(MatchRefusal::UnknownMesh));
    assert_eq!(match_roster_size(true, true, false, 5, 5), Err(MatchRefusal::MissingTeamMaterial));
    assert_eq!(match_roster_size(true, true, true, 0, 5), Err(MatchRefusal::MissingSpawns));
    assert_eq!(match_roster_size(true, true, true, 5, 5), Ok((4, 5)));
}

#[test]
fn sandbox_tools_follow_keys_unless_a_menu_has_the_input() {
    let mut input = InputState::new();
    input.process_key(Key::KeyG.code(), true);
    input.process_mouse_button(MouseButtonCode::MIDDLE, true);
    input.process_key(Key::Delete.code(), true);
    let commands = sandbox_commands(false, false, false, &input).expect("gameplay has the input");
    assert_eq!(
        commands,
        SandboxCommands {
            spawn_box: true,
            spawn_bouncy: false,
            spawn_heavy: false,
            pick_or_drop: true,
            toggle_freeze: false,
            throw_or_push: false,
            delete_target: true,
        }
    );
    assert!(commands.wants_spawn());
    assert_eq!(sandbox_commands(false, true, false, &input), None);
    assert_eq!(sandbox_commands(true, false, false, &input), None);
    assert_eq!(sandbox_commands(false, false, true, &input), None);
    input.update();
    assert!(!sandbox_commands(false, false, false, &input).unwrap().wants_spawn(), "a held key spawns once");
}

#[test]
fn a_frame_runs_at_most_eight_fixed_ticks() {
    let mut taken = 0u32;
    let mut discarded = false;
    loop {
        match next_fixed_step(taken, true) {
            FixedStep::Tick => taken += 1,
            FixedStep::Stop => break,
            FixedStep::StopAndDiscardBacklog => {
                discarded = true;
                break;
            }
        }
    }
    assert_eq!(taken, 8);
    assert!(discarded);
    assert_eq!(next_fixed_step(3, false), FixedStep::Stop);
}
