//! Quit-key bindings: a configurable set of key combinations, any of which,
//! when all its keys are held at once, asks the host to exit. Keys are the
//! host's numeric key codes; the host shell maps its own key type onto them.

use vstd::prelude::*;

verus! {

/// Numeric code of the left control key in the default quit binding.
pub const KEY_CODE_CONTROL_LEFT: u32 = 17;

/// Numeric code of the letter-Q key in the default quit binding.
pub const KEY_CODE_Q: u32 = 81;

/// A key binding: a single key, or several keys pressed at the same time.
#[derive(Clone, Debug)]
pub enum KeyBinding {
    Single(u32),
    Multi(Vec<u32>),
}

/// A binding is satisfied by the currently pressed keys: the single key is
/// among them, or every key of the chord is. An empty chord is satisfied by
/// anything.
pub open spec fn binding_satisfied(pressed: Seq<u32>, binding: KeyBinding) -> bool {
    match binding {
        KeyBinding::Single(key) => pressed.contains(key),
        KeyBinding::Multi(keys) => forall|i: int|
            0 <= i < keys@.len() ==> pressed.contains(#[trigger] keys@[i]),
    }
}

impl From<u32> for KeyBinding {
    /// A single-key binding.
    fn from(value: u32) -> (r: KeyBinding) {
        KeyBinding::Single(value)
    }
}

impl vstd::std_specs::convert::FromSpecImpl<u32> for KeyBinding {
    open spec fn obeys_from_spec() -> bool {
        true
    }

    open spec fn from_spec(v: u32) -> KeyBinding {
        KeyBinding::Single(v)
    }
}

impl From<(u32, u32)> for KeyBinding {
    /// A modifier-plus-key chord.
    fn from(value: (u32, u32)) -> (r: KeyBinding)
        ensures
            r matches KeyBinding::Multi(keys) && keys@ == seq![value.0, value.1],
    {
        let r = KeyBinding::Multi(vec![value.0, value.1]);
        proof {
            assert(r matches KeyBinding::Multi(keys) && keys@ =~= seq![value.0, value.1]);
        }
        r
    }
}

impl vstd::std_specs::convert::FromSpecImpl<(u32, u32)> for KeyBinding {
    /// A chord binding holds a `Vec`, whose exact value no specification can
    /// name, so nothing is promised through the `From` spec hook; the
    /// `ensures` on `from` itself pins the view down.
    open spec fn obeys_from_spec() -> bool {
        false
    }

    open spec fn from_spec(v: (u32, u32)) -> KeyBinding {
        KeyBinding::Single(0)
    }
}

impl From<(u32, u32, u32)> for KeyBinding {
    /// A two-modifier-plus-key chord.
    fn from(value: (u32, u32, u32)) -> (r: KeyBinding)
        ensures
            r matches KeyBinding::Multi(keys) && keys@ == seq![value.0, value.1, value.2],
    {
        let r = KeyBinding::Multi(vec![value.0, value.1, value.2]);
        proof {
            assert(r matches KeyBinding::Multi(keys) && keys@ =~= seq![
                value.0,
                value.1,
                value.2,
            ]);
        }
        r
    }
}

impl vstd::std_specs::convert::FromSpecImpl<(u32, u32, u32)> for KeyBinding {
    /// As for the two-key chord: the `ensures` on `from` carries the contract.
    open spec fn obeys_from_spec() -> bool {
        false
    }

    open spec fn from_spec(v: (u32, u32, u32)) -> KeyBinding {
        KeyBinding::Single(0)
    }
}

impl From<Vec<u32>> for KeyBinding {
    /// A chord of any number of simultaneous keys.
    fn from(value: Vec<u32>) -> (r: KeyBinding)
        ensures
            r matches KeyBinding::Multi(keys) && keys@ == value@,
    {
        KeyBinding::Multi(value)
    }
}

impl vstd::std_specs::convert::FromSpecImpl<Vec<u32>> for KeyBinding {
    /// As for the chords: the `ensures` on `from` carries the contract.
    open spec fn obeys_from_spec() -> bool {
        false
    }

    open spec fn from_spec(v: Vec<u32>) -> KeyBinding {
        KeyBinding::Multi(v)
    }
}

/// The set of quit bindings the host checks every frame.
pub struct QuitPlugin {
    pub bindings: Vec<KeyBinding>,
}

impl QuitPlugin {
    fn new() -> (r: QuitPlugin)
        ensures
            r.bindings@ == Seq::<KeyBinding>::empty(),
    {
        QuitPlugin { bindings: Vec::new() }
    }

    fn with_binding(self, binding: KeyBinding) -> (r: QuitPlugin)
        ensures
            r.bindings@ == self.bindings@.push(binding),
    {
        let mut bindings = self.bindings;
        bindings.push(binding);
        QuitPlugin { bindings }
    }

    /// Adds one more way to quit.
    pub fn add_key_binding<K: Into<KeyBinding>>(self, keybinding: K) -> (r: QuitPlugin)
        ensures
            r.bindings@.len() == self.bindings@.len() + 1,
            forall|i: int| 0 <= i < self.bindings@.len() ==> r.bindings@[i] == self.bindings@[i],
            <K as vstd::std_specs::convert::IntoSpec<KeyBinding>>::obeys_into_spec()
                ==> r.bindings@ == self.bindings@.push(
                <K as vstd::std_specs::convert::IntoSpec<KeyBinding>>::into_spec(keybinding),
            ),
    {
        self.with_binding(keybinding.into())
    }

    /// Whether any configured binding is satisfied by the pressed keys, in
    /// which case the host should exit.
    pub fn should_quit(&self, pressed: &Vec<u32>) -> (r: bool)
        ensures
            r == exists|i: int|
                0 <= i < self.bindings@.len() && binding_satisfied(
                    pressed@,
                    #[trigger] self.bindings@[i],
                ),
    {
        let mut i: usize = 0;
        while i < self.bindings.len()
            invariant
                0 <= i <= self.bindings@.len(),
                forall|j: int| 0 <= j < i ==> !binding_satisfied(pressed@, #[trigger] self.bindings@[j]),
            decreases self.bindings@.len() - i,
        {
            let satisfied = match &self.bindings[i] {
                KeyBinding::Single(key) => key_pressed(pressed, *key),
                KeyBinding::Multi(keys) => all_pressed(pressed, keys),
            };
            if satisfied {
                assert(binding_satisfied(pressed@, self.bindings@[i as int]));
                return true;
            }
            i += 1;
        }
        false
    }
}

impl Default for QuitPlugin {
    /// The default quit binding is the left-control-plus-Q chord.
    fn default() -> (r: QuitPlugin)
        ensures
            r.bindings@.len() == 1,
            r.bindings@[0] matches KeyBinding::Multi(keys) && keys@ == seq![
                KEY_CODE_CONTROL_LEFT,
                KEY_CODE_Q,
            ],
    {
        QuitPlugin::new().with_binding(KeyBinding::from((KEY_CODE_CONTROL_LEFT, KEY_CODE_Q)))
    }
}

fn key_pressed(pressed: &Vec<u32>, key: u32) -> (r: bool)
    ensures
        r == pressed@.contains(key),
{
    let mut i: usize = 0;
    while i < pressed.len()
        invariant
            0 <= i <= pressed@.len(),
            forall|j: int| 0 <= j < i ==> pressed@[j] != key,
        decreases pressed@.len() - i,
    {
        if pressed[i] == key {
            assert(pressed@[i as int] == key);
            return true;
        }
        i += 1;
    }
    false
}

fn all_pressed(pressed: &Vec<u32>, keys: &Vec<u32>) -> (r: bool)
    ensures
        r == forall|i: int| 0 <= i < keys@.len() ==> pressed@.contains(#[trigger] keys@[i]),
{
    let mut i: usize = 0;
    while i < keys.len()
        invariant
            0 <= i <= keys@.len(),
            forall|j: int| 0 <= j < i ==> pressed@.contains(#[trigger] keys@[j]),
        decreases keys@.len() - i,
    {
        if !key_pressed(pressed, keys[i]) {
            return false;
        }
        i += 1;
    }
    true
}

} // verus!
