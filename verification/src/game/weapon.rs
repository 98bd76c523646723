use vstd::prelude::*;

verus! {

/// One purchasable weapon archetype. Stats that the engine applies as
/// fractional values are kept here in exact integer units.
#[derive(Debug, Clone, Copy)]
pub struct WeaponSpec {
    pub name: &'static str,
    /// Damage per pellet, in hit points.
    pub damage: u32,
    /// Shots per second, in tenths.
    pub fire_rate_tenths: u32,
    pub magazine: u32,
    /// Reload time, in tenths of a second.
    pub reload_tenths: u32,
    /// Recoil kick (horizontal, vertical), in thousandths.
    pub recoil_milli: (u32, u32),
    pub price: u32,
    /// Pellets per trigger pull (more than one for a shotgun spread).
    pub pellets: u32,
}

pub const WEAPON_CATALOG_LEN: usize = 5;
/// Index of the free fallback weapon (round-start default in match mode).
pub const DEFAULT_WEAPON_INDEX: usize = 0;
/// Index of the rifle used by non-match scenes.
pub const SANDBOX_WEAPON_INDEX: usize = 2;

/// Catalog entry `index` (pistol, SMG, rifle, marksman rifle, shotgun).
pub open spec fn catalog_entry(index: int) -> WeaponSpec {
    if index == 0 {
        WeaponSpec { name: "GX-9 手枪", damage: 18, fire_rate_tenths: 45, magazine: 12, reload_tenths: 13, recoil_milli: (12, 30), price: 0, pellets: 1 }
    } else if index == 1 {
        WeaponSpec { name: "GX-45 冲锋枪", damage: 14, fire_rate_tenths: 130, magazine: 32, reload_tenths: 19, recoil_milli: (20, 38), price: 1200, pellets: 1 }
    } else if index == 2 {
        WeaponSpec { name: "GX-7 步枪", damage: 25, fire_rate_tenths: 100, magazine: 30, reload_tenths: 20, recoil_milli: (20, 50), price: 2700, pellets: 1 }
    } else if index == 3 {
        WeaponSpec { name: "GX-50 射手步枪", damage: 70, fire_rate_tenths: 11, magazine: 8, reload_tenths: 26, recoil_milli: (30, 100), price: 4200, pellets: 1 }
    } else {
        WeaponSpec { name: "GX-12 霰弹枪", damage: 9, fire_rate_tenths: 14, magazine: 7, reload_tenths: 28, recoil_milli: (35, 90), price: 1800, pellets: 6 }
    }
}

/// Catalog entry `index`.
pub fn weapon_spec(index: usize) -> (s: WeaponSpec)
    requires
        index < WEAPON_CATALOG_LEN,
    ensures
        s == catalog_entry(index as int),
{
    if index == 0 {
        WeaponSpec { name: "GX-9 手枪", damage: 18, fire_rate_tenths: 45, magazine: 12, reload_tenths: 13, recoil_milli: (12, 30), price: 0, pellets: 1 }
    } else if index == 1 {
        WeaponSpec { name: "GX-45 冲锋枪", damage: 14, fire_rate_tenths: 130, magazine: 32, reload_tenths: 19, recoil_milli: (20, 38), price: 1200, pellets: 1 }
    } else if index == 2 {
        WeaponSpec { name: "GX-7 步枪", damage: 25, fire_rate_tenths: 100, magazine: 30, reload_tenths: 20, recoil_milli: (20, 50), price: 2700, pellets: 1 }
    } else if index == 3 {
        WeaponSpec { name: "GX-50 射手步枪", damage: 70, fire_rate_tenths: 11, magazine: 8, reload_tenths: 26, recoil_milli: (30, 100), price: 4200, pellets: 1 }
    } else {
        WeaponSpec { name: "GX-12 霰弹枪", damage: 9, fire_rate_tenths: 14, magazine: 7, reload_tenths: 28, recoil_milli: (35, 90), price: 1800, pellets: 6 }
    }
}

/// The whole buyable arsenal, indexed by the buy menu's 1..=5 keys.
pub fn weapon_catalog() -> (c: Vec<WeaponSpec>)
    ensures
        c@.len() == WEAPON_CATALOG_LEN,
        forall|i: int| 0 <= i < WEAPON_CATALOG_LEN ==> #[trigger] c@[i] == catalog_entry(i),
{
    let mut c: Vec<WeaponSpec> = Vec::new();
    let mut i: usize = 0;
    while i < WEAPON_CATALOG_LEN
        invariant
            i <= WEAPON_CATALOG_LEN,
            c@.len() == i,
            forall|k: int| 0 <= k < i ==> #[trigger] c@[k] == catalog_entry(k),
        decreases WEAPON_CATALOG_LEN - i,
    {
        c.push(weapon_spec(i));
        i = i + 1;
    }
    c
}

/// The catalog slot a weapon built for `index` reports: the entry it was
/// built from, so out-of-range indices report the default weapon's slot.
pub open spec fn spec_catalog_slot(index: int) -> int {
    if index < WEAPON_CATALOG_LEN { index } else { DEFAULT_WEAPON_INDEX as int }
}

/// The spec a weapon for catalog `index` is built from (the default weapon's
/// when `index` is out of range) and the slot it reports.
pub fn spec_for_index(index: usize) -> (r: (WeaponSpec, usize))
    ensures
        r.0 == catalog_entry(if index < WEAPON_CATALOG_LEN { index as int } else { DEFAULT_WEAPON_INDEX as int }),
        r.1 == spec_catalog_slot(index as int),
{
    if index < WEAPON_CATALOG_LEN {
        (weapon_spec(index), index)
    } else {
        (weapon_spec(DEFAULT_WEAPON_INDEX), DEFAULT_WEAPON_INDEX)
    }
}

/// The ammunition state of the held weapon. The cooldown and reload timers
/// are kept by the caller, which reports them as events.
#[derive(Debug, Clone, Copy, PartialEq, Eq, Structural)]
pub struct Magazine {
    pub current: u32,
    pub max: u32,
    pub reloading: bool,
}

/// What the caller observed this frame.
#[derive(Debug, Clone, Copy)]
pub struct TriggerInput {
    /// The running reload timer has run out.
    pub reload_elapsed: bool,
    /// The reload key went down this frame.
    pub reload_pressed: bool,
    /// The fire button is held.
    pub fire_held: bool,
    /// The fire cooldown has run out.
    pub cooldown_ready: bool,
}

/// What the caller must do after a step.
#[derive(Debug, Clone, Copy, PartialEq, Eq, Structural)]
pub enum TriggerAction {
    Nothing,
    /// A shot left the barrel: restart the fire cooldown.
    Fired,
    /// A reload began: start the reload timer.
    ReloadStarted,
    /// The running reload completed.
    Reloaded,
}

/// The magazine after a reload request: it starts only when not already
/// reloading and the magazine is not full.
pub open spec fn spec_start_reload(m: Magazine) -> Magazine {
    if !m.reloading && m.current < m.max {
        Magazine { reloading: true, ..m }
    } else {
        m
    }
}

/// One frame of the trigger logic: a running reload blocks everything until
/// it completes; the reload key starts a reload; a held trigger fires when the
/// cooldown allows and a round is chambered; an empty magazine reloads itself.
pub open spec fn spec_trigger(m: Magazine, input: TriggerInput) -> (Magazine, TriggerAction) {
    if m.reloading {
        if input.reload_elapsed {
            (Magazine { current: m.max, reloading: false, ..m }, TriggerAction::Reloaded)
        } else {
            (m, TriggerAction::Nothing)
        }
    } else if input.reload_pressed {
        let n = spec_start_reload(m);
        (n, if n.reloading { TriggerAction::ReloadStarted } else { TriggerAction::Nothing })
    } else if input.fire_held && input.cooldown_ready && m.current > 0 {
        (Magazine { current: (m.current - 1) as u32, ..m }, TriggerAction::Fired)
    } else if m.current == 0 {
        let n = spec_start_reload(m);
        (n, if n.reloading { TriggerAction::ReloadStarted } else { TriggerAction::Nothing })
    } else {
        (m, TriggerAction::Nothing)
    }
}

impl Magazine {
    /// A full magazine holding `max` rounds.
    pub fn full(max: u32) -> (m: Magazine)
        ensures
            m == (Magazine { current: max, max, reloading: false }),
    {
        Magazine { current: max, max, reloading: false }
    }

    /// Request a reload; returns whether one started.
    pub fn start_reload(&mut self) -> (started: bool)
        ensures
            *final(self) == spec_start_reload(*old(self)),
            started == (final(self).reloading && !old(self).reloading),
    {
        if !self.reloading && self.current < self.max {
            self.reloading = true;
            true
        } else {
            false
        }
    }

    /// Advance the trigger logic by one frame.
    pub fn step(&mut self, input: TriggerInput) -> (action: TriggerAction)
        ensures
            (*final(self), action) == spec_trigger(*old(self), input),
    {
        if self.reloading {
            if input.reload_elapsed {
                self.current = self.max;
                self.reloading = false;
                TriggerAction::Reloaded
            } else {
                TriggerAction::Nothing
            }
        } else if input.reload_pressed {
            if self.start_reload() {
                TriggerAction::ReloadStarted
            } else {
                TriggerAction::Nothing
            }
        } else if input.fire_held && input.cooldown_ready && self.current > 0 {
            self.current = self.current - 1;
            TriggerAction::Fired
        } else if self.current == 0 {
            if self.start_reload() {
                TriggerAction::ReloadStarted
            } else {
                TriggerAction::Nothing
            }
        } else {
            TriggerAction::Nothing
        }
    }
}

/// The magazine a weapon for catalog `index` starts with (the default
/// weapon's when `index` is out of range), and its pellets per shot (at
/// least one).
pub fn loadout_for_index(index: usize) -> (r: (Magazine, u32))
    ensures
        ({
            let spec = catalog_entry(if index < WEAPON_CATALOG_LEN { index as int } else { DEFAULT_WEAPON_INDEX as int });
            &&& r.0 == (Magazine { current: spec.magazine, max: spec.magazine, reloading: false })
            &&& r.1 == if spec.pellets >= 1 { spec.pellets } else { 1 }
        }),
{
    let (spec, _) = spec_for_index(index);
    let pellets = if spec.pellets >= 1 { spec.pellets } else { 1 };
    (Magazine::full(spec.magazine), pellets)
}

} // verus!
