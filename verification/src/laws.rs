//! Properties that hold across calls and across every state of the library,
//! stated over the same spec functions as the operations' contracts.

use crate::asset::gltf_loader::{flipped_winding, rgba_of_rgb};
use crate::audio::wav::{le16, sample_bits, wav_file, SAMPLE_RATE};
use crate::engine::schedule::{spec_next_fixed_step, FixedStep, MAX_FIXED_STEPS_PER_FRAME};
use crate::game::systems::match_mode::{scoreboard_line, side_tag, spec_round_winner};
use crate::game::systems::buy_menu::menu_line;
use crate::game::weapon::WeaponSpec;
use crate::asset::procedural::clamp_spec;
use crate::engine::config::{config_in_range, sanitize_spec, UserConfig};
use crate::engine::overlay::{overlay_after_effect, overlay_step, CursorGrab, OverlayState, WindowInput};
use crate::game::menu::{config_of_menu, spec_apply, MenuAction, MenuEffect, PauseMenu};
use crate::game::scene::library::{
    first_named, is_library_order, lemma_listed_total, lemma_listed_transitive, lemma_text_before_irreflexive,
    listed_before, lists_in_order, pair_names, scene_candidates, SceneEntry,
};
use crate::game::systems::match_mode::{is_scoreboard_order, lemma_ranks_total, lemma_ranks_transitive, ranks_before, StatEntry};
use crate::game::scene::outline::{
    bears_name, body_warnings, duplicate_entity_warning, entity_label, entity_prefix, entity_section,
    entity_warnings, interaction_valid, light_section, material_declared, material_listed_before,
    material_section, mesh_is_gltf, mesh_listed_before, mesh_section, mesh_warnings, none, one,
    player_section, enemy_section, reference_warnings, scene_warnings, MaterialOutline, MeshOutline, MeshSourceKind, SceneOutline,
    SurfaceOutline,
};
use crate::game::systems::buy_menu::{awarded_money, buy_step, charged_price, BuyInput, BuyOutcome, BuyState, MAX_MONEY};
use crate::game::systems::missing::{AssetKind, MissingAssetLog};
use crate::game::systems::weather::WeatherKind;
use crate::game::team::Team;
use crate::game::weapon::{spec_start_reload, spec_trigger, Magazine, TriggerAction, TriggerInput};
use crate::input::state::{aged, event_state, is_down, state_of, went_down, ButtonState};
use crate::paths::path_file_stem;
use crate::text::{decimal, digit_char, pad_left};
use vstd::prelude::*;
use vstd::relations::{sorted_by, total_ordering};
use vstd::seq_lib::lemma_sorted_unique;
use vstd::set_lib::{lemma_int_range, lemma_subset_equality, set_int_range};

verus! {

/// Each team's opponent's opponent is the team itself, and no team is its
/// own opponent.
pub proof fn law_opponent_is_symmetric(t: Team)
    ensures
        t.spec_opponent().spec_opponent() == t,
        t.spec_opponent() != t,
{
}

/// Stepping the weather selector four times returns to the start, and the
/// four kinds visited are all different: the cycle visits every option.
pub proof fn law_weather_cycle_visits_every_option(k: WeatherKind)
    ensures
        k.spec_next().spec_next().spec_next().spec_next() == k,
        k != k.spec_next(),
        k != k.spec_next().spec_next(),
        k != k.spec_next().spec_next().spec_next(),
        k.spec_next() != k.spec_next().spec_next(),
        k.spec_next() != k.spec_next().spec_next().spec_next(),
        k.spec_next().spec_next() != k.spec_next().spec_next().spec_next(),
{
}

/// An award never lifts a wallet within the cap above it.
pub proof fn law_award_stays_within_cap(money: u32, amount: u32)
    requires
        money <= MAX_MONEY,
    ensures
        money <= awarded_money(money, amount) <= MAX_MONEY,
{
}

/// Sanitizing yields indices in range, leaves an in-range config unchanged,
/// and sanitizing twice is sanitizing once.
pub proof fn law_sanitize_is_idempotent(c: UserConfig)
    ensures
        config_in_range(sanitize_spec(c)),
        config_in_range(c) ==> sanitize_spec(c) == c,
        sanitize_spec(sanitize_spec(c)) == sanitize_spec(c),
{
}

/// The settings a menu saves are the ones a menu built from that config
/// shows again; the rest of the config is kept.
pub proof fn law_menu_config_round_trip(m: PauseMenu, base: UserConfig)
    ensures
        config_of_menu(m, base).resolution_index == m.selected_resolution,
        config_of_menu(m, base).sensitivity_index == m.sensitivity_index,
        config_of_menu(m, base).god_mode_enabled == m.god_mode_enabled,
        config_of_menu(m, base).weather == m.weather,
        config_of_menu(m, base).help_seen == base.help_seen,
{
}

/// Clamping lands within the bounds, and clamping again changes nothing.
pub proof fn law_clamp_is_bounded_and_idempotent(value: int, lo: int, hi: int)
    requires
        lo <= hi,
    ensures
        lo <= clamp_spec(value, lo, hi) <= hi,
        clamp_spec(clamp_spec(value, lo, hi), lo, hi) == clamp_spec(value, lo, hi),
        lo <= value <= hi ==> clamp_spec(value, lo, hi) == value,
{
}

/// Flipping the winding twice gives back the original indices.
pub proof fn law_flip_winding_is_an_involution(indices: Seq<u32>)
    ensures
        flipped_winding(flipped_winding(indices)) == indices,
{
    let once = flipped_winding(indices);
    let twice = flipped_winding(once);
    assert forall|n: int| 0 <= n < indices.len() implies twice[n] == indices[n] by {
        let full = 3 * (indices.len() / 3);
        if n < full {
            if n % 3 == 1 {
                assert(once[n + 1] == indices[n]);
            } else if n % 3 == 2 {
                assert(once[n - 1] == indices[n]);
            }
        }
    }
    assert(twice =~= indices);
}

/// A key event is visible right away: a press reads as down and as just
/// pressed, a release as up.
pub proof fn law_key_event_is_visible(keys: Map<u32, ButtonState>, code: u32, pressed: bool)
    ensures
        is_down(state_of(keys.insert(code, event_state(pressed)), code)) == pressed,
        went_down(state_of(keys.insert(code, event_state(pressed)), code)) == pressed,
{
}

/// At the end of a frame a press turns into a hold: still down, no longer
/// just pressed; every other state carries over.
pub proof fn law_press_becomes_hold(s: ButtonState)
    ensures
        is_down(Some(aged(s))) == is_down(Some(s)),
        !went_down(Some(aged(s))),
        aged(aged(s)) == aged(s),
{
}

/// The trigger logic never puts more rounds in the magazine than it holds,
/// and never changes its size.
pub proof fn law_magazine_stays_within_capacity(m: Magazine, input: TriggerInput)
    requires
        m.current <= m.max,
    ensures
        spec_trigger(m, input).0.current <= m.max,
        spec_trigger(m, input).0.max == m.max,
{
}

/// A shot spends exactly one round; a completed reload fills the magazine;
/// while reloading nothing is fired.
pub proof fn law_magazine_accounting(m: Magazine, input: TriggerInput)
    ensures
        spec_trigger(m, input).1 == TriggerAction::Fired ==> spec_trigger(m, input).0.current + 1
            == m.current,
        spec_trigger(m, input).1 == TriggerAction::Reloaded ==> spec_trigger(m, input).0.current
            == m.max && !spec_trigger(m, input).0.reloading,
        m.reloading ==> spec_trigger(m, input).1 != TriggerAction::Fired,
{
}

/// A reload request on a magazine that is not full and not reloading starts
/// one; asking again while it runs changes nothing.
pub proof fn law_reload_request_is_idempotent(m: Magazine)
    ensures
        !m.reloading && m.current < m.max ==> spec_start_reload(m).reloading,
        spec_start_reload(spec_start_reload(m)) == spec_start_reload(m),
{
}

/// Looking up the name of entry `k` finds an entry of that name at or
/// before `k`, the first one.
pub proof fn law_index_of_finds_listed_name(entries: Seq<SceneEntry>, k: int)
    requires
        0 <= k < entries.len(),
        entries.len() <= usize::MAX,
    ensures
        first_named(entries, entries[k].name@) matches Some(j) && j <= k && entries[j as int].name@
            == entries[k].name@ && forall|m: int|
            0 <= m < j ==> (#[trigger] entries[m]).name@ != entries[k].name@,
{
    let name = entries[k].name@;
    assert(0 <= k < entries.len() && entries[k].name@ == name);
    let w = choose|w: int|
        0 <= w < entries.len() && (#[trigger] entries[w]).name@ == name && forall|m: int|
            0 <= m < w ==> (#[trigger] entries[m]).name@ != name;
    lemma_first_match_exists(entries, name, k);
    if w > k {
        assert(entries[k].name@ != name);
    }
}

proof fn lemma_first_match_exists(entries: Seq<SceneEntry>, name: Seq<char>, k: int)
    requires
        0 <= k < entries.len(),
        entries[k].name@ == name,
    ensures
        exists|w: int|
            0 <= w <= k && (#[trigger] entries[w]).name@ == name && forall|m: int|
                0 <= m < w ==> (#[trigger] entries[m]).name@ != name,
    decreases k,
{
    if exists|m: int| 0 <= m < k && (#[trigger] entries[m]).name@ == name {
        let m = choose|m: int| 0 <= m < k && (#[trigger] entries[m]).name@ == name;
        lemma_first_match_exists(entries, name, m);
    } else {
        assert(forall|m: int| 0 <= m < k ==> (#[trigger] entries[m]).name@ != name);
        assert(0 <= k <= k && entries[k].name@ == name);
    }
}

/// After `insert` hands out a fresh id, `get` of that id reads the inserted
/// asset, and removing it restores the previous contents.
pub proof fn law_store_insert_get_remove<T>(before: Map<u64, T>, id: u64, asset: T)
    requires
        !before.contains_key(id),
    ensures
        before.insert(id, asset).contains_key(id),
        before.insert(id, asset)[id] == asset,
        before.insert(id, asset).remove(id) == before,
{
    assert(before.insert(id, asset).remove(id) =~= before);
}

/// A mesh's generator parameters are usable.
pub open spec fn mesh_params_ok(mesh: MeshOutline) -> bool {
    match mesh.source {
        MeshSourceKind::Sphere { segments, rings } => segments >= 3 && rings >= 2,
        MeshSourceKind::Cylinder { segments } => segments >= 3,
        MeshSourceKind::Plane { size_usable, subdivisions } => size_usable && subdivisions > 0,
        _ => true,
    }
}

/// Entity `i` raises no complaint.
pub open spec fn entity_is_clean(o: SceneOutline, i: int) -> bool {
    let e = o.entities@[i];
    let gltf = mesh_is_gltf(o.meshes@, e.mesh@, o.meshes@.len());
    &&& match e.name {
        Some(n) => !exists|j: int| 0 <= j < i && bears_name(#[trigger] o.entities@[j], n@),
        None => true,
    }
    &&& gltf is Some
    &&& if e.material@ == "$gltf"@ {
        gltf != Some(false)
    } else {
        material_declared(o.materials@, e.material@)
    }
    &&& e.transform_finite
    &&& !e.has_zero_scale_axis
    &&& match e.physics {
        Some(ph) => ph.values_finite && !(ph.surface matches SurfaceOutline::Custom { params_valid } && !params_valid),
        None => true,
    }
    &&& match e.interaction {
        Some(it) => e.physics is Some && interaction_valid(it),
        None => true,
    }
}

/// A scene without authoring mistakes: valid player, unique and usable
/// meshes and materials, valid lights, entities whose references resolve and
/// whose values are usable, and a consistent enemy layout.
pub open spec fn scene_is_clean(o: SceneOutline) -> bool {
    &&& o.player_valid
    &&& forall|i: int| 0 <= i < o.meshes@.len() ==> !mesh_listed_before(o.meshes@, i) && mesh_params_ok(#[trigger] o.meshes@[i])
    &&& forall|i: int| 0 <= i < o.materials@.len() ==> !material_listed_before(o.materials@, i) && (#[trigger] o.materials@[i]).values_finite
    &&& forall|i: int| 0 <= i < o.light_valid@.len() ==> #[trigger] o.light_valid@[i]
    &&& forall|i: int| 0 <= i < o.entities@.len() ==> #[trigger] entity_is_clean(o, i)
    &&& match o.enemies {
        Some(en) => (en.route_count == 0 || en.route_count == en.spawn_count) && en.coords_finite,
        None => true,
    }
}

proof fn lemma_mesh_section_empty(meshes: Seq<MeshOutline>, n: nat)
    requires
        n <= meshes.len(),
    ensures
        mesh_section(meshes, n).len() == 0 <==> forall|i: int|
            0 <= i < n ==> !mesh_listed_before(meshes, i) && mesh_params_ok(#[trigger] meshes[i]),
    decreases n,
{
    if n > 0 {
        lemma_mesh_section_empty(meshes, (n - 1) as nat);
        let i = n - 1;
        assert(mesh_warnings(meshes, i).len() == 0 <==> !mesh_listed_before(meshes, i) && mesh_params_ok(meshes[i]));
    }
}

proof fn lemma_material_section_empty(materials: Seq<MaterialOutline>, n: nat)
    requires
        n <= materials.len(),
    ensures
        material_section(materials, n).len() == 0 <==> forall|i: int|
            0 <= i < n ==> !material_listed_before(materials, i) && (#[trigger] materials[i]).values_finite,
    decreases n,
{
    if n > 0 {
        lemma_material_section_empty(materials, (n - 1) as nat);
    }
}

proof fn lemma_light_section_empty(valid: Seq<bool>, n: nat)
    requires
        n <= valid.len(),
    ensures
        light_section(valid, n).len() == 0 <==> forall|i: int| 0 <= i < n ==> #[trigger] valid[i],
    decreases n,
{
    if n > 0 {
        lemma_light_section_empty(valid, (n - 1) as nat);
    }
}

proof fn lemma_entity_warnings_empty(o: SceneOutline, i: int)
    requires
        0 <= i < o.entities@.len(),
    ensures
        entity_warnings(o, i).len() == 0 <==> entity_is_clean(o, i),
{
    let e = o.entities@[i];
    let p = entity_prefix(i as nat, entity_label(e));
    assert(duplicate_entity_warning(o.entities@, i).len() == 0 <==> match e.name {
        Some(n) => !exists|j: int| 0 <= j < i && bears_name(#[trigger] o.entities@[j], n@),
        None => true,
    });
    assert(body_warnings(e, p).len() == 0 <==> {
        &&& e.transform_finite
        &&& !e.has_zero_scale_axis
        &&& match e.physics {
            Some(ph) => ph.values_finite && !(ph.surface matches SurfaceOutline::Custom { params_valid } && !params_valid),
            None => true,
        }
        &&& match e.interaction {
            Some(it) => e.physics is Some && interaction_valid(it),
            None => true,
        }
    });
    assert(reference_warnings(o, i).len() == 0 <==> {
        let gltf = mesh_is_gltf(o.meshes@, e.mesh@, o.meshes@.len());
        &&& gltf is Some
        &&& if e.material@ == "$gltf"@ {
            gltf != Some(false)
        } else {
            material_declared(o.materials@, e.material@)
        }
    });
}

proof fn lemma_entity_section_empty(o: SceneOutline, n: nat)
    requires
        n <= o.entities@.len(),
    ensures
        entity_section(o, n).len() == 0 <==> forall|i: int| 0 <= i < n ==> #[trigger] entity_is_clean(o, i),
    decreases n,
{
    if n > 0 {
        lemma_entity_section_empty(o, (n - 1) as nat);
        lemma_entity_warnings_empty(o, n - 1);
    }
}

/// Validation reports nothing exactly when the scene has no authoring
/// mistakes; it never rejects a scene, it only lists what it found.
pub proof fn law_clean_scene_has_no_warnings(o: SceneOutline)
    ensures
        scene_warnings(o).len() == 0 <==> scene_is_clean(o),
{
    lemma_mesh_section_empty(o.meshes@, o.meshes@.len());
    lemma_material_section_empty(o.materials@, o.materials@.len());
    lemma_light_section_empty(o.light_valid@, o.light_valid@.len());
    lemma_entity_section_empty(o, o.entities@.len());
}

/// While the pause menu is open, mouse motion never turns the camera, and
/// no event but Escape opens or closes the menu.
pub proof fn law_open_menu_blocks_mouse_look(s: OverlayState, input: WindowInput)
    ensures
        s.menu_open ==> !overlay_step(s, WindowInput::MouseMotion).2,
        input != WindowInput::EscapeKey ==> overlay_step(s, input).0.menu_open == s.menu_open,
{
}

/// Pressing Escape twice restores the overlays; the cursor ends captured
/// exactly when the menu ends closed.
pub proof fn law_escape_twice_restores_menu(s: OverlayState)
    ensures
        ({
            let once = overlay_step(s, WindowInput::EscapeKey).0;
            let twice = overlay_step(once, WindowInput::EscapeKey);
            &&& twice.0.menu_open == s.menu_open
            &&& twice.0.panel_open == s.panel_open
            &&& twice.0.window_focused == s.window_focused
            &&& twice.0.mouse_locked == !s.menu_open
            &&& twice.1 == (if s.menu_open { CursorGrab::Release } else { CursorGrab::Lock })
        }),
{
}

/// The wallet changes only on a purchase, and then by exactly the price of
/// the chosen weapon; a purchase closes the menu.
pub proof fn law_purchase_charges_the_price(state: BuyState, input: BuyInput)
    ensures
        ({
            let (after, outcome) = buy_step(state, input);
            &&& after.economy_enabled == state.economy_enabled
            &&& match outcome {
                BuyOutcome::Purchased(i) => after.money + charged_price(state, i as int) == state.money
                    && !after.open,
                BuyOutcome::InsufficientFunds(i) => state.money < charged_price(state, i as int)
                    && after.money == state.money,
                _ => after.money == state.money,
            }
        }),
{
}

/// A missing handle is reported the first time only: once recorded, asking
/// again for the same kind and id says it was already reported.
pub proof fn law_missing_asset_reported_once(log: MissingAssetLog, after: MissingAssetLog, kind: AssetKind, id: u64)
    requires
        after.reported(kind) == log.reported(kind).insert(id),
    ensures
        after.reported(kind).contains(id),
{
}

/// `n` distinct indices below `n` are all the indices below `n`.
proof fn lemma_full_index_list(o: Seq<usize>, n: nat)
    requires
        o.len() == n,
        forall|k: int| 0 <= k < n ==> #[trigger] o[k] < n,
        o.no_duplicates(),
    ensures
        forall|x: usize| x < n ==> #[trigger] o.contains(x),
{
    let oi = o.map_values(|x: usize| x as int);
    assert(oi.no_duplicates()) by {
        assert forall|i: int, j: int| 0 <= i < oi.len() && 0 <= j < oi.len() && i != j implies oi[i] != oi[j] by {
            assert(o[i] != o[j]);
        }
    }
    oi.unique_seq_to_set();
    lemma_int_range(0, n as int);
    assert(oi.to_set().subset_of(set_int_range(0, n as int))) by {
        assert forall|x: int| oi.to_set().contains(x) implies set_int_range(0, n as int).contains(x) by {
            let k = choose|k: int| 0 <= k < oi.len() && oi[k] == x;
            assert(o[k] < n);
        }
    }
    lemma_subset_equality(oi.to_set(), set_int_range(0, n as int));
    assert forall|x: usize| x < n implies #[trigger] o.contains(x) by {
        assert(set_int_range(0, n as int).contains(x as int));
        assert(oi.to_set().contains(x as int));
        let k = choose|k: int| 0 <= k < oi.len() && oi[k] == x as int;
        assert(o[k] == x);
    }
}

/// Two lists that each hold every index below `n` once hold the same indices.
proof fn lemma_full_index_lists_agree(o1: Seq<usize>, o2: Seq<usize>, n: nat)
    requires
        o1.len() == n,
        o2.len() == n,
        forall|k: int| 0 <= k < n ==> #[trigger] o1[k] < n,
        forall|k: int| 0 <= k < n ==> #[trigger] o2[k] < n,
        o1.no_duplicates(),
        o2.no_duplicates(),
    ensures
        o1.to_multiset() == o2.to_multiset(),
{
    broadcast use vstd::seq_lib::group_to_multiset_ensures;
    broadcast use vstd::multiset::group_multiset_axioms;

    lemma_full_index_list(o1, n);
    lemma_full_index_list(o2, n);
    o1.lemma_multiset_has_no_duplicates();
    o2.lemma_multiset_has_no_duplicates();
    assert forall|x: usize| #[trigger] o1.to_multiset().count(x) == o2.to_multiset().count(x) by {
        if x < n {
            assert(o1.contains(x) && o2.contains(x));
        } else {
            assert(!o1.contains(x)) by {
                if o1.contains(x) {
                    let k = choose|k: int| 0 <= k < o1.len() && o1[k] == x;
                    assert(o1[k] < n);
                }
            }
            assert(!o2.contains(x)) by {
                if o2.contains(x) {
                    let k = choose|k: int| 0 <= k < o2.len() && o2[k] == x;
                    assert(o2[k] < n);
                }
            }
        }
    }
    assert(o1.to_multiset() =~= o2.to_multiset());
}

/// There is only one scoreboard order of a set of rows: the order the
/// scoreboard reports is determined by the rows alone.
pub proof fn law_scoreboard_order_is_unique(stats: Seq<StatEntry>, o1: Seq<usize>, o2: Seq<usize>)
    requires
        is_scoreboard_order(stats, o1),
        is_scoreboard_order(stats, o2),
    ensures
        o1 == o2,
{
    let leq = |a: usize, b: usize| a == b || ranks_before(stats, a as int, b as int);
    assert(total_ordering(leq)) by {
        assert forall|a: usize, b: usize| #[trigger] leq(a, b) && #[trigger] leq(b, a) implies a == b by {
            if a != b {
                lemma_ranks_total(stats, a as int, b as int);
            }
        }
        assert forall|a: usize, b: usize, c: usize| #[trigger] leq(a, b) && #[trigger] leq(b, c) implies #[trigger] leq(a, c) by {
            if a != b && b != c && a != c {
                lemma_ranks_transitive(stats, a as int, b as int, c as int);
            } else if a == c && a != b {
                lemma_ranks_total(stats, a as int, b as int);
            }
        }
        assert forall|a: usize, b: usize| #[trigger] leq(a, b) || #[trigger] leq(b, a) by {
            if a != b {
                lemma_ranks_total(stats, a as int, b as int);
            }
        }
    }
    assert(sorted_by(o1, leq));
    assert(sorted_by(o2, leq));
    assert(o1.no_duplicates());
    assert(o2.no_duplicates());
    lemma_full_index_lists_agree(o1, o2, stats.len());
    lemma_sorted_unique(o1, o2, leq);
}

/// There is only one library order of a list of names: the library a list of
/// entries yields is determined by the entries alone.
pub proof fn law_library_order_is_unique(names: Seq<Seq<char>>, o1: Seq<usize>, o2: Seq<usize>)
    requires
        is_library_order(names, o1),
        is_library_order(names, o2),
    ensures
        o1 == o2,
{
    let leq = |a: usize, b: usize| a == b || listed_before(names, a as int, b as int);
    assert(total_ordering(leq)) by {
        assert forall|a: usize, b: usize| #[trigger] leq(a, b) && #[trigger] leq(b, a) implies a == b by {
            if a != b {
                lemma_listed_total(names, a as int, b as int);
            }
        }
        assert forall|a: usize, b: usize, c: usize| #[trigger] leq(a, b) && #[trigger] leq(b, c) implies #[trigger] leq(a, c) by {
            if a != b && b != c && a != c {
                lemma_listed_transitive(names, a as int, b as int, c as int);
            } else if a == c && a != b {
                lemma_listed_total(names, a as int, b as int);
            }
        }
        assert forall|a: usize, b: usize| #[trigger] leq(a, b) || #[trigger] leq(b, a) by {
            if a != b {
                lemma_listed_total(names, a as int, b as int);
            }
        }
    }
    assert forall|i: int, j: int| 0 <= i < o1.len() && 0 <= j < o1.len() && i != j implies o1[i] != o1[j] by {
        let (a, b) = if i < j { (i, j) } else { (j, i) };
        assert(listed_before(names, o1[a] as int, o1[b] as int));
        lemma_text_before_irreflexive(names[o1[a] as int]);
    }
    assert forall|i: int, j: int| 0 <= i < o2.len() && 0 <= j < o2.len() && i != j implies o2[i] != o2[j] by {
        let (a, b) = if i < j { (i, j) } else { (j, i) };
        assert(listed_before(names, o2[a] as int, o2[b] as int));
        lemma_text_before_irreflexive(names[o2[a] as int]);
    }
    assert(sorted_by(o1, leq));
    assert(sorted_by(o2, leq));
    lemma_full_index_lists_agree(o1, o2, names.len());
    lemma_sorted_unique(o1, o2, leq);
}

proof fn lemma_candidates_named_by_stem(paths: Seq<String>)
    ensures
        forall|k: int|
            0 <= k < scene_candidates(paths).len() ==> path_file_stem(#[trigger] scene_candidates(paths)[k].1)
                == Some(scene_candidates(paths)[k].0),
    decreases paths.len(),
{
    if paths.len() > 0 {
        lemma_candidates_named_by_stem(paths.drop_last());
    }
}

/// Every scene the library lists is found again by its own path: the file
/// stem of its path is its name, and looking that up yields it or an earlier
/// entry of the same name.
pub proof fn law_listed_scene_is_found_by_its_path(paths: Seq<String>, entries: Seq<SceneEntry>, k: int)
    requires
        lists_in_order(scene_candidates(paths), entries),
        0 <= k < entries.len(),
        entries.len() <= usize::MAX,
    ensures
        path_file_stem(entries[k].path@) == Some(entries[k].name@),
        first_named(entries, entries[k].name@) matches Some(j) && j <= k && entries[j as int].name@
            == entries[k].name@,
{
    let pairs = scene_candidates(paths);
    let order = choose|order: Seq<usize>|
        #![trigger is_library_order(pair_names(pairs), order)]
        is_library_order(pair_names(pairs), order) && entries.len() == pairs.len() && forall|m: int|
            0 <= m < entries.len() ==> (#[trigger] entries[m]).name@ == pairs[order[m] as int].0
                && entries[m].path@ == pairs[order[m] as int].1;
    lemma_candidates_named_by_stem(paths);
    assert(entries[k].name@ == pairs[order[k] as int].0);
    assert(order[k] < pair_names(pairs).len());
    law_index_of_finds_listed_name(entries, k);
}

/// On a finite store, inserting a fresh id adds exactly one asset, removing
/// a stored id takes exactly one away, and operations on other ids leave an
/// asset where it is.
pub proof fn law_store_lengths_and_other_entries<T>(m: Map<u64, T>, id: u64, other: u64, asset: T)
    requires
        m.dom().finite(),
    ensures
        !m.contains_key(id) ==> m.insert(id, asset).len() == m.len() + 1,
        m.contains_key(id) ==> m.remove(id).len() == m.len() - 1,
        other != id ==> (m.insert(other, asset).contains_key(id) == m.contains_key(id) && (m.contains_key(id)
            ==> m.insert(other, asset)[id] == m[id])),
        other != id ==> (m.remove(other).contains_key(id) == m.contains_key(id) && (m.contains_key(id)
            ==> m.remove(other)[id] == m[id])),
{
}

/// Every warning of entity `i` appears in the scene's warning list.
pub proof fn law_entity_warnings_are_reported(o: SceneOutline, i: int)
    requires
        0 <= i < o.entities@.len(),
    ensures
        forall|w: Seq<char>| entity_warnings(o, i).contains(w) ==> scene_warnings(o).contains(w),
{
    lemma_entity_section_contains(o, o.entities@.len(), i);
    let front = player_section(o.player_valid) + mesh_section(o.meshes@, o.meshes@.len()) + material_section(
        o.materials@,
        o.materials@.len(),
    ) + light_section(o.light_valid@, o.light_valid@.len());
    let sec = entity_section(o, o.entities@.len());
    let back = enemy_section(o.enemies);
    assert(scene_warnings(o) == front + sec + back);
    assert forall|w: Seq<char>| entity_warnings(o, i).contains(w) implies scene_warnings(o).contains(w) by {
        let j = choose|j: int| 0 <= j < sec.len() && sec[j] == w;
        assert((front + sec + back)[front.len() + j] == w);
    }
}

proof fn lemma_entity_section_contains(o: SceneOutline, n: nat, i: int)
    requires
        0 <= i < n <= o.entities@.len(),
    ensures
        forall|w: Seq<char>| entity_warnings(o, i).contains(w) ==> entity_section(o, n).contains(w),
    decreases n,
{
    let prev = entity_section(o, (n - 1) as nat);
    let cur = entity_warnings(o, n - 1);
    assert(entity_section(o, n) == prev + cur);
    if i < n - 1 {
        lemma_entity_section_contains(o, (n - 1) as nat, i);
        assert forall|w: Seq<char>| entity_warnings(o, i).contains(w) implies entity_section(o, n).contains(w) by {
            let j = choose|j: int| 0 <= j < prev.len() && prev[j] == w;
            assert((prev + cur)[j] == w);
        }
    } else {
        assert forall|w: Seq<char>| entity_warnings(o, i).contains(w) implies entity_section(o, n).contains(w) by {
            let j = choose|j: int| 0 <= j < cur.len() && cur[j] == w;
            assert((prev + cur)[prev.len() + j] == w);
        }
    }
}

/// An entity asking for the glTF file's own material (`$gltf`) is never
/// reported for a missing material; it is reported for a missing mesh when
/// its mesh name resolves to nothing, and for a procedural mesh when the
/// last mesh of that name is not imported from glTF.
pub proof fn law_gltf_material_references(o: SceneOutline, i: int)
    requires
        0 <= i < o.entities@.len(),
        o.entities@[i].material@ == "$gltf"@,
    ensures
        ({
            let e = o.entities@[i];
            let p = entity_prefix(i as nat, entity_label(e));
            let gltf = mesh_is_gltf(o.meshes@, e.mesh@, o.meshes@.len());
            reference_warnings(o, i) == (if gltf is None {
                one(p + "references missing mesh `"@ + e.mesh@ + "`"@)
            } else {
                none()
            }) + (if gltf == Some(false) {
                one(p + "requests `$gltf` on a procedural mesh"@)
            } else {
                none()
            })
        }),
{
}

/// The buy overlay marks exactly the current weapon's line with `●`.
pub proof fn law_menu_line_marks_current(index: int, spec: WeaponSpec, current: bool, economy: bool)
    ensures
        menu_line(index, spec, current, economy).len() > 0,
        menu_line(index, spec, current, economy)[0] == (if current { '●' } else { ' ' }),
{
    reveal_strlit("●");
    reveal_strlit(" ");
    let head = if current { "●"@ } else { " "@ };
    assert(head.len() == 1);
    assert(menu_line(index, spec, current, economy)[0] == head[0]);
}

/// A scoreboard line starts with its row's side tag, and the two tags differ.
pub proof fn law_scoreboard_line_starts_with_side(entry: StatEntry)
    ensures
        scoreboard_line(entry).subrange(0, side_tag(entry.team).len() as int) == side_tag(entry.team),
        side_tag(Team::Alpha) != side_tag(Team::Bravo),
{
    reveal_strlit("[我方]");
    reveal_strlit("[敌方]");
    let tag = side_tag(entry.team);
    assert(scoreboard_line(entry).subrange(0, tag.len() as int) =~= tag);
    assert(side_tag(Team::Alpha)[1] != side_tag(Team::Bravo)[1]);
}

/// RGB to RGBA expansion keeps every complete pixel's three bytes, appends an
/// opaque alpha, and drops a trailing partial pixel.
pub proof fn law_rgba_pixels(pixels: Seq<u8>, i: int, k: int)
    requires
        0 <= i < pixels.len() / 3,
        0 <= k < 3,
    ensures
        rgba_of_rgb(pixels).len() == 4 * (pixels.len() / 3),
        rgba_of_rgb(pixels)[4 * i + k] == pixels[3 * i + k],
        rgba_of_rgb(pixels)[4 * i + 3] == 255,
{
    assert((4 * i + k) / 4 == i && (4 * i + k) % 4 == k) by (nonlinear_arith)
        requires
            0 <= k < 3,
            0 <= i,
    ;
    assert((4 * i + 3) / 4 == i && (4 * i + 3) % 4 == 3) by (nonlinear_arith)
        requires
            0 <= i,
    ;
    assert(4 * i + 3 < 4 * (pixels.len() / 3)) by (nonlinear_arith)
        requires
            0 <= i < pixels.len() / 3,
    ;
}

/// A WAV file is its 44-byte header (starting with `RIFF`, the `data` tag
/// at byte 36) followed by each sample as two little-endian bytes.
pub proof fn law_wav_layout(samples: Seq<i16>, i: int)
    requires
        0 <= i < samples.len(),
    ensures
        wav_file(samples).len() == 44 + 2 * samples.len(),
        wav_file(samples).subrange(0, 4) == seq![82u8, 73, 70, 70],
        wav_file(samples).subrange(36, 40) == seq![100u8, 97, 116, 97],
        wav_file(samples)[44 + 2 * i] == le16(sample_bits(samples[i]))[0],
        wav_file(samples)[44 + 2 * i + 1] == le16(sample_bits(samples[i]))[1],
{
    let w = wav_file(samples);
    assert(w.subrange(0, 4) =~= seq![82u8, 73, 70, 70]);
    assert(w.subrange(36, 40) =~= seq![100u8, 97, 116, 97]);
    assert((2 * i) / 2 == i && (2 * i) % 2 == 0 && (2 * i + 1) / 2 == i && (2 * i + 1) % 2 == 1) by (nonlinear_arith)
        requires
            0 <= i,
    ;
}

/// A frame never runs more fixed-update ticks than its budget, and drops the
/// backlog exactly when the budget is spent.
pub proof fn law_fixed_steps_are_bounded(taken: u32, due: bool)
    ensures
        spec_next_fixed_step(taken, due) == FixedStep::Tick ==> taken + 1 <= MAX_FIXED_STEPS_PER_FRAME,
        (spec_next_fixed_step(taken, due) == FixedStep::StopAndDiscardBacklog) == (taken >= MAX_FIXED_STEPS_PER_FRAME),
{
}

/// Resume closes the pause menu and the overlay's menu flag together and
/// captures the cursor; no menu action reopens the menu, so a menu and an
/// overlay that agree on whether the menu is open still agree after any
/// click once the overlay follows the reported effect.
pub proof fn law_resume_closes_menu_and_captures_cursor(m: PauseMenu, s: OverlayState, action: MenuAction)
    requires
        m.open == s.menu_open,
    ensures
        ({
            let (m2, effect) = spec_apply(m, action);
            let (s2, grab) = overlay_after_effect(s, effect);
            &&& m2.open == s2.menu_open
            &&& action == MenuAction::Resume ==> effect == MenuEffect::Resume && !m2.open && s2.mouse_locked
                && grab == CursorGrab::Lock
        }),
{
}

/// The contents and next id of a store after `ops`, starting from `m` and
/// `next`: `None` inserts `value` under the next id (as `insert` does),
/// `Some(id)` removes `id` (as `remove` does).
pub open spec fn store_after_ops<T>(m: Map<u64, T>, next: nat, ops: Seq<Option<u64>>, value: T) -> (Map<u64, T>, nat)
    decreases ops.len(),
{
    if ops.len() == 0 {
        (m, next)
    } else {
        let (m1, n1) = store_after_ops(m, next, ops.drop_last(), value);
        match ops.last() {
            None => (m1.insert(n1 as u64, value), n1 + 1),
            Some(id) => (m1.remove(id), n1),
        }
    }
}

/// How many of the removes in `ops` found their asset in the store.
pub open spec fn live_removes<T>(m: Map<u64, T>, next: nat, ops: Seq<Option<u64>>, value: T) -> nat
    decreases ops.len(),
{
    if ops.len() == 0 {
        0
    } else {
        let before = live_removes(m, next, ops.drop_last(), value);
        let (m1, _) = store_after_ops(m, next, ops.drop_last(), value);
        match ops.last() {
            Some(id) => if m1.contains_key(id) { before + 1 } else { before },
            None => before,
        }
    }
}

/// How many inserts `ops` holds.
pub open spec fn insert_count(ops: Seq<Option<u64>>) -> nat
    decreases ops.len(),
{
    if ops.len() == 0 {
        0
    } else {
        insert_count(ops.drop_last()) + if ops.last() is None { 1nat } else { 0nat }
    }
}

/// From an empty store, after any inserts and removes the store holds as
/// many assets as were inserted minus the removes that found their asset,
/// and ids stay below the next id to hand out.
pub proof fn law_store_size_counts_inserts_and_removes<T>(ops: Seq<Option<u64>>, value: T)
    requires
        ops.len() < u64::MAX,
    ensures
        ({
            let (m, next) = store_after_ops(Map::<u64, T>::empty(), 0, ops, value);
            &&& m.dom().finite()
            &&& next == insert_count(ops)
            &&& forall|id: u64| #[trigger] m.contains_key(id) ==> id < next
            &&& m.len() + live_removes(Map::<u64, T>::empty(), 0, ops, value) == insert_count(ops)
        }),
    decreases ops.len(),
{
    if ops.len() > 0 {
        let rest = ops.drop_last();
        law_store_size_counts_inserts_and_removes(rest, value);
        let (m1, n1) = store_after_ops(Map::<u64, T>::empty(), 0, rest, value);
        assert(n1 == insert_count(rest));
        assert(insert_count(rest) <= rest.len()) by {
            lemma_insert_count_bounded(rest);
        }
        match ops.last() {
            None => {
                assert(!m1.contains_key(n1 as u64));
            },
            Some(id) => {},
        }
    }
}

proof fn lemma_insert_count_bounded(ops: Seq<Option<u64>>)
    ensures
        insert_count(ops) <= ops.len(),
    decreases ops.len(),
{
    if ops.len() > 0 {
        lemma_insert_count_bounded(ops.drop_last());
    }
}

/// Who takes the round. Alpha is the player and the Alpha bots; Bravo the
/// Bravo bots. A side that still has a living member keeps the round going:
/// Alpha wins as soon as no Bravo member lives; Bravo wins only when no Alpha
/// bot and not the player lives and no bomb is planted (a planted bomb
/// leaves the round to the fuse).
pub proof fn law_round_winner(alpha_bots_alive: u32, bravo_alive: u32, player_alive: bool, bomb_planted: bool)
    ensures
        bravo_alive == 0 ==> spec_round_winner(alpha_bots_alive, bravo_alive, player_alive, bomb_planted)
            == Some(Team::Alpha),
        bravo_alive > 0 && (alpha_bots_alive > 0 || player_alive) ==> spec_round_winner(
            alpha_bots_alive,
            bravo_alive,
            player_alive,
            bomb_planted,
        ) is None,
        bravo_alive > 0 && bomb_planted ==> spec_round_winner(alpha_bots_alive, bravo_alive, player_alive, bomb_planted)
            is None,
        bravo_alive > 0 && alpha_bots_alive == 0 && !player_alive && !bomb_planted ==> spec_round_winner(
            alpha_bots_alive,
            bravo_alive,
            player_alive,
            bomb_planted,
        ) == Some(Team::Bravo),
        spec_round_winner(alpha_bots_alive, bravo_alive, player_alive, bomb_planted) != Some(Team::Bravo)
            || (alpha_bots_alive == 0 && !player_alive),
{
}

/// A scoreboard line ends with the row's kills after the 击杀 label and its
/// deaths after the 死亡 label, each right-aligned in two columns; for
/// single-digit counts the kills digit is the ninth character from the end
/// and the deaths digit the last.
pub proof fn law_scoreboard_line_shows_kills_then_deaths(entry: StatEntry)
    ensures
        exists|head: Seq<char>|
            scoreboard_line(entry) == head + "  击杀 "@ + pad_left(decimal(entry.kills as nat), 2)
                + "   死亡 "@ + pad_left(decimal(entry.deaths as nat), 2),
        entry.kills < 10 && entry.deaths < 10 ==> {
            let line = scoreboard_line(entry);
            &&& line.len() >= 15
            &&& line[line.len() - 1] == digit_char(entry.deaths as int)
            &&& line[line.len() - 9] == digit_char(entry.kills as int)
        },
{
    let line = scoreboard_line(entry);
    let kills = pad_left(decimal(entry.kills as nat), 2);
    let deaths = pad_left(decimal(entry.deaths as nat), 2);
    let head = side_tag(entry.team) + "  "@ + crate::text::pad_right(entry.name@, 14);
    assert(line == head + "  击杀 "@ + kills + "   死亡 "@ + deaths);
    if entry.kills < 10 && entry.deaths < 10 {
        reveal_strlit("   死亡 ");
        reveal_strlit("  击杀 ");
        assert(decimal(entry.kills as nat) == seq![digit_char(entry.kills as int)]);
        assert(decimal(entry.deaths as nat) == seq![digit_char(entry.deaths as int)]);
        assert(kills.len() == 2 && kills[1] == digit_char(entry.kills as int));
        assert(deaths.len() == 2 && deaths[1] == digit_char(entry.deaths as int));
        let tail = "   死亡 "@ + deaths;
        assert(tail.len() == 8);
        assert(line == (head + "  击杀 "@) + kills + tail);
        assert(line[line.len() - 1] == deaths[1]);
        assert(line[line.len() - 9] == kills[1]);
    }
}

/// The buy key flips the overlay outside the pause menu and death: an open
/// menu closes, a closed one opens when buying is allowed and otherwise stays
/// closed with a refusal; pressing it twice (with no digit) restores the
/// state. The pause menu and spectating close the menu and leave the wallet.
pub proof fn law_buy_key_toggles_the_menu(state: BuyState, input: BuyInput)
    ensures
        !input.menu_open && !input.spectating && input.toggle && state.open ==> !buy_step(state, input).0.open
            && buy_step(state, input).1 == BuyOutcome::Idle,
        !input.menu_open && !input.spectating && input.toggle && !state.open && input.buying_allowed
            ==> buy_step(state, input).0.open || buy_step(state, input).1 is Purchased,
        !input.menu_open && !input.spectating && input.toggle && !state.open && !input.buying_allowed
            ==> !buy_step(state, input).0.open && buy_step(state, input).1 == BuyOutcome::RefusedOutsideBuyTime,
        !input.menu_open && !input.spectating && input.toggle && input.buying_allowed && input.digits@
            == seq![false, false, false, false, false] ==> buy_step(buy_step(state, input).0, input).0 == state,
        input.menu_open || input.spectating ==> !buy_step(state, input).0.open && buy_step(state, input).0.money
            == state.money && buy_step(state, input).1 == BuyOutcome::Idle,
{
    if !input.menu_open && !input.spectating && input.toggle && input.buying_allowed && input.digits@ == seq![
        false,
        false,
        false,
        false,
        false,
    ] {
        assert(!exists|i: int| 0 <= i < input.digits@.len() && input.digits@[i]);
    }
}

/// The trigger fires only when the fire button is held, the cooldown has run
/// out, a round is chambered and no reload is running or requested; and then
/// it always fires, spending exactly one round. Before the cooldown ends no
/// shot leaves the barrel and no round is spent.
pub proof fn law_trigger_respects_cooldown(m: Magazine, input: TriggerInput)
    requires
        m.current <= m.max,
    ensures
        spec_trigger(m, input).1 == TriggerAction::Fired ==> input.fire_held && input.cooldown_ready && m.current > 0
            && !m.reloading && !input.reload_pressed,
        !m.reloading && !input.reload_pressed && input.fire_held && input.cooldown_ready && m.current > 0
            ==> spec_trigger(m, input).1 == TriggerAction::Fired && spec_trigger(m, input).0.current + 1
            == m.current,
        !input.cooldown_ready ==> spec_trigger(m, input).1 != TriggerAction::Fired && spec_trigger(m, input).0.current
            >= m.current,
{
}

/// The little-endian value of four bytes.
pub open spec fn bytes_le32(b: Seq<u8>, at: int) -> int {
    b[at] + 256 * b[at + 1] + 65536 * b[at + 2] + 16777216 * b[at + 3]
}

proof fn lemma_le32_round_trip(x: u32)
    ensures
        bytes_le32(crate::audio::wav::le32(x as int), 0) == x,
{
    let b = crate::audio::wav::le32(x as int);
    assert(b[0] == x % 256 && b[1] == (x / 256) % 256 && b[2] == (x / 65536) % 256 && b[3] == (x / 16777216) % 256);
    assert((x % 256) + 256 * ((x / 256) % 256) + 65536 * ((x / 65536) % 256) + 16777216 * ((x / 16777216) % 256) == x)
        by (nonlinear_arith);
}

/// A WAV file of n samples declares mono 16-bit PCM at the sample rate: the
/// bytes 20..36 are format 1 (PCM), 1 channel, 44100 samples per second,
/// 88200 bytes per second, 2 bytes per frame and 16 bits per sample; the
/// RIFF size field holds 36 + 2n and the data size field holds 2n.
pub proof fn law_wav_header_is_mono_pcm16(samples: Seq<i16>)
    requires
        36 + 2 * samples.len() <= u32::MAX,
    ensures
        wav_file(samples).subrange(20, 36) == seq![1u8, 0, 1, 0, 0x44, 0xAC, 0, 0, 0x88, 0x58, 0x01, 0, 2, 0, 16, 0],
        bytes_le32(wav_file(samples), 4) == 36 + 2 * samples.len(),
        bytes_le32(wav_file(samples), 40) == 2 * samples.len(),
        SAMPLE_RATE == 44100,
{
    let w = wav_file(samples);
    assert(w.subrange(20, 36) =~= seq![1u8, 0, 1, 0, 0x44, 0xAC, 0, 0, 0x88, 0x58, 0x01, 0, 2, 0, 16, 0]);
    let size = (36 + 2 * samples.len()) as u32;
    let data = (2 * samples.len()) as u32;
    lemma_le32_round_trip(size);
    lemma_le32_round_trip(data);
    assert(w.subrange(4, 8) =~= crate::audio::wav::le32(size as int));
    assert(w.subrange(40, 44) =~= crate::audio::wav::le32(data as int));
    assert(w[4] == w.subrange(4, 8)[0] && w[5] == w.subrange(4, 8)[1] && w[6] == w.subrange(4, 8)[2] && w[7] == w.subrange(4, 8)[3]);
    assert(w[40] == w.subrange(40, 44)[0] && w[41] == w.subrange(40, 44)[1] && w[42] == w.subrange(40, 44)[2] && w[43] == w.subrange(40, 44)[3]);
}

} // verus!
