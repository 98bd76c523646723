//! Buy menu and match economy.

use crate::asset::Handle;
use crate::game::systems::state::WeaponMeshes;
use crate::game::weapon::{
    catalog_entry, loadout_for_index, spec_catalog_slot, weapon_spec, Magazine, WeaponSpec,
    DEFAULT_WEAPON_INDEX, WEAPON_CATALOG_LEN,
};
use crate::text::{decimal, digit_char, push_decimal};
use vstd::prelude::*;
use vstd::string::StringExecFns;

verus! {

pub const KILL_REWARD: u32 = 300;
pub const ROUND_WIN_REWARD: u32 = 1400;
pub const ROUND_LOSS_REWARD: u32 = 900;
pub const STARTING_MONEY: u32 = 800;
pub const MAX_MONEY: u32 = 16000;

/// Player wallet and buy-menu state. Purchases are free outside match mode.
#[derive(Debug, Clone, Copy, PartialEq, Eq, Structural)]
pub struct BuyState {
    pub open: bool,
    pub money: u32,
    /// Purchases are free outside match mode.
    pub economy_enabled: bool,
}

/// Keys and game state the buy menu reads in one frame.
#[derive(Debug, Clone, Copy)]
pub struct BuyInput {
    /// The pause menu is open.
    pub menu_open: bool,
    /// The player is dead and spectating.
    pub spectating: bool,
    /// The buy key was pressed this frame.
    pub toggle: bool,
    /// The match phase allows buying (always true outside match mode).
    pub buying_allowed: bool,
    /// Which of the five digit keys were pressed this frame.
    pub digits: [bool; 5],
}

/// What one frame of the buy menu decided.
#[derive(Debug, Clone, Copy, PartialEq, Eq, Structural)]
pub enum BuyOutcome {
    Idle,
    /// The menu may not open in this phase; tell the player.
    RefusedOutsideBuyTime,
    /// The chosen weapon costs more than the wallet holds.
    InsufficientFunds(usize),
    /// The chosen weapon was paid for: equip it.
    Purchased(usize),
}

/// Index of the first pressed digit key.
pub open spec fn first_pressed(digits: Seq<bool>) -> Option<usize> {
    if exists|i: int| 0 <= i < digits.len() && digits[i] {
        let i = choose|i: int| 0 <= i < digits.len() && digits[i] && forall|j: int| 0 <= j < i ==> !digits[j];
        Some(i as usize)
    } else {
        None
    }
}

/// The wallet after an award: the sum, capped at [`MAX_MONEY`].
pub open spec fn awarded_money(money: u32, amount: u32) -> int {
    if money + amount > MAX_MONEY { MAX_MONEY as int } else { money + amount }
}

/// Price actually charged for catalog entry `index`.
pub open spec fn charged_price(state: BuyState, index: int) -> int {
    if state.economy_enabled { catalog_entry(index).price as int } else { 0 }
}

/// One frame of the buy menu: the state afterwards and what happened.
pub open spec fn buy_step(state: BuyState, input: BuyInput) -> (BuyState, BuyOutcome) {
    if input.menu_open || input.spectating {
        (BuyState { open: false, ..state }, BuyOutcome::Idle)
    } else {
        let refused = input.toggle && !state.open && !input.buying_allowed;
        let open = if input.toggle { !state.open && input.buying_allowed } else { state.open };
        let after_toggle = BuyState { open, ..state };
        if !open {
            (after_toggle, if refused { BuyOutcome::RefusedOutsideBuyTime } else { BuyOutcome::Idle })
        } else {
            match first_pressed(input.digits@) {
                None => (after_toggle, BuyOutcome::Idle),
                Some(i) => {
                    let price = charged_price(state, i as int);
                    if state.money < price {
                        (after_toggle, BuyOutcome::InsufficientFunds(i))
                    } else {
                        (BuyState { open: false, money: (state.money - price) as u32, ..state }, BuyOutcome::Purchased(i))
                    }
                },
            }
        }
    }
}

fn first_pressed_digit(digits: &[bool; 5]) -> (r: Option<usize>)
    ensures
        r == first_pressed(digits@),
{
    let mut i: usize = 0;
    while i < 5
        invariant
            i <= 5,
            digits@.len() == 5,
            forall|j: int| 0 <= j < i ==> !digits@[j],
        decreases 5 - i,
    {
        if digits[i] {
            let ghost w = choose|k: int| 0 <= k < digits@.len() && digits@[k] && forall|j: int| 0 <= j < k ==> !digits@[j];
            assert(0 <= i < digits@.len() && digits@[i as int] && forall|j: int| 0 <= j < i ==> !digits@[j]);
            proof {
                if w < i {
                } else if w > i {
                    assert(!digits@[i as int]);
                }
            }
            return Some(i);
        }
        i = i + 1;
    }
    None
}

impl BuyState {
    pub fn new(economy_enabled: bool) -> (b: Self)
        ensures
            b == (BuyState { open: false, money: STARTING_MONEY, economy_enabled }),
    {
        BuyState { open: false, money: STARTING_MONEY, economy_enabled }
    }

    /// Add `amount` to the wallet, capped at [`MAX_MONEY`].
    pub fn award(&mut self, amount: u32)
        requires
            old(self).money + amount <= u32::MAX,
        ensures
            final(self).money == awarded_money(old(self).money, amount),
            final(self).open == old(self).open,
            final(self).economy_enabled == old(self).economy_enabled,
    {
        let total = self.money + amount;
        self.money = if total > MAX_MONEY { MAX_MONEY } else { total };
    }

    /// Run one frame of the buy menu: the buy key toggles the menu (opening
    /// only when buying is allowed), a digit key buys that catalog slot if
    /// the wallet covers it, and the pause menu or spectating closes it.
    pub fn step(&mut self, input: BuyInput) -> (o: BuyOutcome)
        ensures
            (*final(self), o) == buy_step(*old(self), input),
    {
        if input.menu_open || input.spectating {
            self.open = false;
            return BuyOutcome::Idle;
        }
        let mut refused = false;
        if input.toggle {
            if self.open {
                self.open = false;
            } else if input.buying_allowed {
                self.open = true;
            } else {
                refused = true;
            }
        }
        if !self.open {
            return if refused { BuyOutcome::RefusedOutsideBuyTime } else { BuyOutcome::Idle };
        }
        match first_pressed_digit(&input.digits) {
            None => BuyOutcome::Idle,
            Some(choice) => {
                let spec = weapon_spec(choice);
                let price = if self.economy_enabled { spec.price } else { 0 };
                if self.money < price {
                    BuyOutcome::InsufficientFunds(choice)
                } else {
                    self.money = self.money - price;
                    self.open = false;
                    BuyOutcome::Purchased(choice)
                }
            },
        }
    }
}

/// One overlay line: current-weapon marker, slot number, name, price (or
/// "free"), damage, fire rate with one decimal, magazine size.
pub open spec fn menu_line(index: int, spec: WeaponSpec, current: bool, economy: bool) -> Seq<char> {
    (if current { "●"@ } else { " "@ }) + " "@ + decimal((index + 1) as nat) + "  "@ + spec.name@ + "   "@
        + (if economy { "$"@ + decimal(spec.price as nat) } else { "免费"@ })
        + "   伤害"@ + decimal(spec.damage as nat)
        + "  射速"@ + decimal((spec.fire_rate_tenths / 10) as nat) + "."@ + seq![digit_char((spec.fire_rate_tenths % 10) as int)]
        + "  弹匣"@ + decimal(spec.magazine as nat)
}

fn push_tenths(out: &mut String, tenths: u32)
    ensures
        final(out)@ == old(out)@ + decimal((tenths / 10) as nat) + "."@ + seq![digit_char((tenths % 10) as int)],
{
    push_decimal(out, (tenths / 10) as u64);
    out.append(".");
    let mut frac = String::new();
    push_decimal(&mut frac, (tenths % 10) as u64);
    out.append(frac.as_str());
    assert(decimal((tenths % 10) as nat) == seq![digit_char((tenths % 10) as int)]);
}

/// Lines shown by the buy overlay, one per catalog slot.
pub fn menu_lines(buy: &BuyState, current_index: usize) -> (lines: Vec<String>)
    ensures
        lines@.len() == WEAPON_CATALOG_LEN,
        forall|i: int| 0 <= i < WEAPON_CATALOG_LEN ==>
            #[trigger] lines@[i]@ == menu_line(i, catalog_entry(i), i == current_index, buy.economy_enabled),
{
    let mut lines: Vec<String> = Vec::new();
    let mut i: usize = 0;
    while i < WEAPON_CATALOG_LEN
        invariant
            i <= WEAPON_CATALOG_LEN,
            lines@.len() == i,
            forall|k: int| 0 <= k < i ==>
                #[trigger] lines@[k]@ == menu_line(k, catalog_entry(k), k == current_index, buy.economy_enabled),
        decreases WEAPON_CATALOG_LEN - i,
    {
        let spec = weapon_spec(i);
        let mut line = String::new();
        line.append(if i == current_index { "●" } else { " " });
        line.append(" ");
        push_decimal(&mut line, (i + 1) as u64);
        line.append("  ");
        line.append(spec.name);
        line.append("   ");
        if buy.economy_enabled {
            line.append("$");
            push_decimal(&mut line, spec.price as u64);
        } else {
            line.append("免费");
        }
        line.append("   伤害");
        push_decimal(&mut line, spec.damage as u64);
        line.append("  射速");
        push_tenths(&mut line, spec.fire_rate_tenths);
        line.append("  弹匣");
        push_decimal(&mut line, spec.magazine as u64);
        assert(line@ =~= menu_line(i as int, spec, i == current_index, buy.economy_enabled));
        lines.push(line);
        i = i + 1;
    }
    lines
}

/// The weapon the player holds after equipping a catalog entry: a full
/// magazine, pellets per shot, the catalog slot and the first-person mesh.
#[derive(Debug, Clone, Copy)]
pub struct Loadout<M> {
    pub magazine: Magazine,
    pub pellets: u32,
    pub slot: usize,
    pub mesh: Handle<M>,
}

/// Swap to catalog entry `index`: ammo refills (the old weapon is discarded)
/// and the matching first-person mesh replaces `current_mesh` when one is
/// registered for that slot.
pub fn equip_weapon<M>(meshes: Option<&WeaponMeshes<M>>, current_mesh: Handle<M>, index: usize) -> (l: Loadout<M>)
    ensures
        ({
            let spec = catalog_entry(if index < WEAPON_CATALOG_LEN { index as int } else { DEFAULT_WEAPON_INDEX as int });
            &&& l.magazine == (Magazine { current: spec.magazine, max: spec.magazine, reloading: false })
            &&& l.pellets == if spec.pellets >= 1 { spec.pellets } else { 1 }
        }),
        l.slot == spec_catalog_slot(index as int),
        l.mesh.id == match meshes {
            Some(m) => if index < m.0@.len() { m.0@[index as int].id } else { current_mesh.id },
            None => current_mesh.id,
        },
{
    let (magazine, pellets) = loadout_for_index(index);
    let slot = if index < WEAPON_CATALOG_LEN { index } else { DEFAULT_WEAPON_INDEX };
    let mesh = match meshes {
        Some(m) => if index < m.0.len() { m.0[index] } else { current_mesh },
        None => current_mesh,
    };
    Loadout { magazine, pellets, slot, mesh }
}

/// Round-start reset in match mode: back to the default pistol.
pub fn reset_to_default_weapon<M>(meshes: Option<&WeaponMeshes<M>>, current_mesh: Handle<M>) -> (l: Loadout<M>)
    ensures
        ({
            let spec = catalog_entry(DEFAULT_WEAPON_INDEX as int);
            &&& l.magazine == (Magazine { current: spec.magazine, max: spec.magazine, reloading: false })
            &&& l.pellets == spec.pellets
        }),
        l.slot == DEFAULT_WEAPON_INDEX,
        l.mesh.id == match meshes {
            Some(m) => if DEFAULT_WEAPON_INDEX < m.0@.len() { m.0@[DEFAULT_WEAPON_INDEX as int].id } else { current_mesh.id },
            None => current_mesh.id,
        },
{
    equip_weapon(meshes, current_mesh, DEFAULT_WEAPON_INDEX)
}

} // verus!
