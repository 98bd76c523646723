use std::collections::HashMap;
use vstd::prelude::*;
use vstd::std_specs::iter::IteratorSpec;

verus! {

broadcast use vstd::std_specs::hash::group_hash_axioms;

/// State of one key or mouse button within the current frame.
#[derive(Debug, Clone, Copy, PartialEq, Eq, Structural)]
pub enum ButtonState {
    /// Went down this frame.
    Pressed,
    /// Went up this frame.
    Released,
    /// Down since an earlier frame.
    Held,
}

impl ButtonState {
    pub fn is_pressed(&self) -> (b: bool)
        ensures
            b == (*self == ButtonState::Pressed),
    {
        match self {
            ButtonState::Pressed => true,
            _ => false,
        }
    }

    pub fn is_released(&self) -> (b: bool)
        ensures
            b == (*self == ButtonState::Released),
    {
        match self {
            ButtonState::Released => true,
            _ => false,
        }
    }

    pub fn is_held(&self) -> (b: bool)
        ensures
            b == (*self == ButtonState::Held),
    {
        match self {
            ButtonState::Held => true,
            _ => false,
        }
    }
}

/// The state a button carries into the next frame: a press becomes a hold.
pub open spec fn aged(s: ButtonState) -> ButtonState {
    if s == ButtonState::Pressed { ButtonState::Held } else { s }
}

/// Whether a button with this recorded state (if any) is down.
pub open spec fn is_down(s: Option<ButtonState>) -> bool {
    s == Some(ButtonState::Pressed) || s == Some(ButtonState::Held)
}

/// Whether a button with this recorded state (if any) went down this frame.
pub open spec fn went_down(s: Option<ButtonState>) -> bool {
    s == Some(ButtonState::Pressed)
}

/// The recorded state of `code` in `m`, if any.
pub open spec fn state_of(m: Map<u32, ButtonState>, code: u32) -> Option<ButtonState> {
    if m.contains_key(code) { Some(m[code]) } else { None }
}

/// The state an input event records: down becomes Pressed, up Released.
pub open spec fn event_state(pressed: bool) -> ButtonState {
    if pressed { ButtonState::Pressed } else { ButtonState::Released }
}

/// Keyboard and mouse button states of the current frame, keyed by code
/// (see [`crate::input::Key::code`] and [`crate::input::MouseButtonCode`]).
#[derive(Debug, Clone)]
pub struct InputState {
    pub keys: HashMap<u32, ButtonState>,
    pub mouse_buttons: HashMap<u32, ButtonState>,
    pub window_focused: bool,
}

fn age_all(m: &mut HashMap<u32, ButtonState>)
    ensures
        final(m)@.dom() == old(m)@.dom(),
        forall|k: u32| #[trigger] final(m)@.contains_key(k) ==> final(m)@[k] == aged(old(m)@[k]),
{
    let ghost original = m@;
    let mut codes: Vec<u32> = Vec::new();
    let ghost v = vstd::std_specs::hash::spec_keys_iter(&*m).remaining();
    for code in it: m.keys()
        invariant
            it.seq() == v,
            codes@.len() == it.index(),
            forall|i: int| 0 <= i < it.index() ==> #[trigger] codes@[i] == *v[i],
    {
        codes.push(*code);
    }
    assert forall|k: u32| #[trigger] original.contains_key(k) implies codes@.contains(k) by {
        assert(v.unref().to_set().contains(k));
        let i = choose|i: int| 0 <= i < v.unref().len() && v.unref()[i] == k;
        assert(codes@[i] == k);
    }
    assert forall|j: int| 0 <= j < codes@.len() implies original.contains_key(#[trigger] codes@[j]) by {
        assert(v.unref()[j] == codes@[j]);
        assert(v.unref().to_set().contains(v.unref()[j]));
    }
    let mut i: usize = 0;
    while i < codes.len()
        invariant
            i <= codes@.len(),
            m@.dom() == original.dom(),
            forall|j: int| 0 <= j < codes@.len() ==> original.contains_key(#[trigger] codes@[j]),
            forall|k: u32| #[trigger] m@.contains_key(k) ==>
                m@[k] == original[k] || m@[k] == aged(original[k]),
            forall|j: int| 0 <= j < i ==> m@[#[trigger] codes@[j]] == aged(original[codes@[j]]),
        decreases codes@.len() - i,
    {
        let code = codes[i];
        let current = match m.get(&code) {
            Some(s) => *s,
            None => ButtonState::Released,
        };
        if current == ButtonState::Pressed {
            m.insert(code, ButtonState::Held);
        }
        i = i + 1;
    }
    assert forall|k: u32| #[trigger] m@.contains_key(k) implies m@[k] == aged(original[k]) by {
        assert(codes@.contains(k));
        let j = choose|j: int| 0 <= j < codes@.len() && codes@[j] == k;
        assert(m@[codes@[j]] == aged(original[codes@[j]]));
    }
}

impl InputState {
    pub fn new() -> (s: Self)
        ensures
            s.keys@ == Map::<u32, ButtonState>::empty(),
            s.mouse_buttons@ == Map::<u32, ButtonState>::empty(),
            s.window_focused,
    {
        InputState { keys: HashMap::new(), mouse_buttons: HashMap::new(), window_focused: true }
    }

    /// The key is down (pressed this frame or held).
    pub fn is_key_pressed(&self, code: u32) -> (b: bool)
        ensures
            b == is_down(state_of(self.keys@, code)),
    {
        match self.keys.get(&code) {
            Some(s) => s.is_pressed() || s.is_held(),
            None => false,
        }
    }

    /// The key went down this frame.
    pub fn is_key_just_pressed(&self, code: u32) -> (b: bool)
        ensures
            b == went_down(state_of(self.keys@, code)),
    {
        match self.keys.get(&code) {
            Some(s) => s.is_pressed(),
            None => false,
        }
    }

    pub fn is_mouse_pressed(&self, code: u32) -> (b: bool)
        ensures
            b == is_down(state_of(self.mouse_buttons@, code)),
    {
        match self.mouse_buttons.get(&code) {
            Some(s) => s.is_pressed() || s.is_held(),
            None => false,
        }
    }

    pub fn is_mouse_just_pressed(&self, code: u32) -> (b: bool)
        ensures
            b == went_down(state_of(self.mouse_buttons@, code)),
    {
        match self.mouse_buttons.get(&code) {
            Some(s) => s.is_pressed(),
            None => false,
        }
    }

    /// End of frame: every press becomes a hold.
    pub fn update(&mut self)
        ensures
            final(self).keys@.dom() == old(self).keys@.dom(),
            final(self).mouse_buttons@.dom() == old(self).mouse_buttons@.dom(),
            forall|k: u32| #[trigger] final(self).keys@.contains_key(k) ==> final(self).keys@[k] == aged(old(self).keys@[k]),
            forall|k: u32| #[trigger] final(self).mouse_buttons@.contains_key(k) ==> final(self).mouse_buttons@[k] == aged(old(self).mouse_buttons@[k]),
            final(self).window_focused == old(self).window_focused,
    {
        age_all(&mut self.keys);
        age_all(&mut self.mouse_buttons);
    }

    pub fn process_key(&mut self, code: u32, pressed: bool)
        ensures
            final(self).keys@ == old(self).keys@.insert(code, event_state(pressed)),
            final(self).mouse_buttons@ == old(self).mouse_buttons@,
            final(self).window_focused == old(self).window_focused,
    {
        self.keys.insert(code, if pressed { ButtonState::Pressed } else { ButtonState::Released });
    }

    pub fn process_mouse_button(&mut self, code: u32, pressed: bool)
        ensures
            final(self).mouse_buttons@ == old(self).mouse_buttons@.insert(code, event_state(pressed)),
            final(self).keys@ == old(self).keys@,
            final(self).window_focused == old(self).window_focused,
    {
        self.mouse_buttons.insert(code, if pressed { ButtonState::Pressed } else { ButtonState::Released });
    }
}

} // verus!
