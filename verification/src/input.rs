//! From keys to what they do: twelve joypad buttons and four session
//! actions, each bound to a key name by the configuration.

use crate::config::{default_entries, lemma_defaults_are_always_set, Config};
use crate::text::{ascii_lower, char_to_ascii_lowercase, chars_of, string_of};
use vstd::prelude::*;

verus! {

/// The input slot of the lower face button.
pub const DEVICE_ID_JOYPAD_B: usize = 0;

/// The input slot of the left face button.
pub const DEVICE_ID_JOYPAD_Y: usize = 1;

/// The input slot of select.
pub const DEVICE_ID_JOYPAD_SELECT: usize = 2;

/// The input slot of start.
pub const DEVICE_ID_JOYPAD_START: usize = 3;

/// The input slot of up on the directional pad.
pub const DEVICE_ID_JOYPAD_UP: usize = 4;

/// The input slot of down on the directional pad.
pub const DEVICE_ID_JOYPAD_DOWN: usize = 5;

/// The input slot of left on the directional pad.
pub const DEVICE_ID_JOYPAD_LEFT: usize = 6;

/// The input slot of right on the directional pad.
pub const DEVICE_ID_JOYPAD_RIGHT: usize = 7;

/// The input slot of the right face button.
pub const DEVICE_ID_JOYPAD_A: usize = 8;

/// The input slot of the upper face button.
pub const DEVICE_ID_JOYPAD_X: usize = 9;

/// The input slot of the left shoulder button.
pub const DEVICE_ID_JOYPAD_L: usize = 10;

/// The input slot of the right shoulder button.
pub const DEVICE_ID_JOYPAD_R: usize = 11;

/// The number of joypad buttons that a key can be bound to.
pub const BOUND_BUTTONS: usize = 12;

/// What a key does.
#[derive(Clone, Copy, Debug, PartialEq, Eq, Structural)]
pub enum KeyAction {
    /// Holds down the button in this input slot.
    Press(usize),
    /// Saves the machine's state to the current slot.
    SaveState,
    /// Restores the machine's state from the current slot.
    LoadState,
    /// Moves to the next save slot.
    IncreaseSlot,
    /// Moves to the previous save slot.
    DecreaseSlot,
    /// Nothing: the key is bound to nothing.
    Unhandled,
}

/// The key names that the configuration binds.
#[derive(Clone, Debug, PartialEq, Eq)]
pub struct KeyBindings {
    /// Key name and input slot of each button, in the order of `button_at`.
    pub buttons: Vec<(String, usize)>,
    /// The key that saves.
    pub save_state: String,
    /// The key that restores.
    pub load_state: String,
    /// The key that moves to the next slot.
    pub slot_increase: String,
    /// The key that moves to the previous slot.
    pub slot_decrease: String,
}

/// The configuration name and the input slot of the bound buttons, in the
/// order in which they are bound.
pub open spec fn button_table() -> Seq<(Seq<char>, usize)> {
    seq![
        ("input_player1_a"@, DEVICE_ID_JOYPAD_A),
        ("input_player1_b"@, DEVICE_ID_JOYPAD_B),
        ("input_player1_x"@, DEVICE_ID_JOYPAD_X),
        ("input_player1_y"@, DEVICE_ID_JOYPAD_Y),
        ("input_player1_l"@, DEVICE_ID_JOYPAD_L),
        ("input_player1_r"@, DEVICE_ID_JOYPAD_R),
        ("input_player1_down"@, DEVICE_ID_JOYPAD_DOWN),
        ("input_player1_up"@, DEVICE_ID_JOYPAD_UP),
        ("input_player1_right"@, DEVICE_ID_JOYPAD_RIGHT),
        ("input_player1_left"@, DEVICE_ID_JOYPAD_LEFT),
        ("input_player1_start"@, DEVICE_ID_JOYPAD_START),
        ("input_player1_select"@, DEVICE_ID_JOYPAD_SELECT),
    ]
}

/// The slot of the last button in `buttons` that is bound to `key`.
pub open spec fn button_for(buttons: Seq<(Seq<char>, usize)>, key: Seq<char>) -> Option<usize>
    decreases buttons.len(),
{
    if buttons.len() == 0 {
        None
    } else if buttons.last().0 == key {
        Some(buttons.last().1)
    } else {
        button_for(buttons.drop_last(), key)
    }
}

/// What a key does under the given bindings. A key bound to a button presses
/// it, whatever else the key is bound to; after the buttons come saving,
/// restoring, the next slot and the previous slot, in that order.
pub open spec fn spec_key_action(
    buttons: Seq<(Seq<char>, usize)>,
    save_state: Seq<char>,
    load_state: Seq<char>,
    slot_increase: Seq<char>,
    slot_decrease: Seq<char>,
    key: Seq<char>,
) -> KeyAction {
    match button_for(buttons, key) {
        Some(slot) => KeyAction::Press(slot),
        None => if key == save_state {
            KeyAction::SaveState
        } else if key == load_state {
            KeyAction::LoadState
        } else if key == slot_increase {
            KeyAction::IncreaseSlot
        } else if key == slot_decrease {
            KeyAction::DecreaseSlot
        } else {
            KeyAction::Unhandled
        },
    }
}

/// Whether the configuration names a key for every button and action.
pub open spec fn binds_every_key(config: Config) -> bool {
    &&& forall|i: int|
        0 <= i < button_table().len() ==> config.spec_get(#[trigger] button_table()[i].0) is Some
    &&& config.spec_get("input_save_state"@) is Some
    &&& config.spec_get("input_load_state"@) is Some
    &&& config.spec_get("input_state_slot_increase"@) is Some
    &&& config.spec_get("input_state_slot_decrease"@) is Some
}

/// The configuration name and the input slot of one bound button, or
/// nothing from position 12 on.
pub fn button_at(index: usize) -> (entry: Option<(&'static str, usize)>)
    ensures
        entry is Some <==> index < BOUND_BUTTONS,
        entry matches Some(e) ==> (e.0@, e.1) == button_table()[index as int],
{
    if index == 0 {
        Some(("input_player1_a", DEVICE_ID_JOYPAD_A))
    } else if index == 1 {
        Some(("input_player1_b", DEVICE_ID_JOYPAD_B))
    } else if index == 2 {
        Some(("input_player1_x", DEVICE_ID_JOYPAD_X))
    } else if index == 3 {
        Some(("input_player1_y", DEVICE_ID_JOYPAD_Y))
    } else if index == 4 {
        Some(("input_player1_l", DEVICE_ID_JOYPAD_L))
    } else if index == 5 {
        Some(("input_player1_r", DEVICE_ID_JOYPAD_R))
    } else if index == 6 {
        Some(("input_player1_down", DEVICE_ID_JOYPAD_DOWN))
    } else if index == 7 {
        Some(("input_player1_up", DEVICE_ID_JOYPAD_UP))
    } else if index == 8 {
        Some(("input_player1_right", DEVICE_ID_JOYPAD_RIGHT))
    } else if index == 9 {
        Some(("input_player1_left", DEVICE_ID_JOYPAD_LEFT))
    } else if index == 10 {
        Some(("input_player1_start", DEVICE_ID_JOYPAD_START))
    } else if index == 11 {
        Some(("input_player1_select", DEVICE_ID_JOYPAD_SELECT))
    } else {
        None
    }
}

impl KeyBindings {
    /// Key name and input slot of each button.
    pub open spec fn button_model(&self) -> Seq<(Seq<char>, usize)> {
        Seq::new(self.buttons@.len(), |i: int| (self.buttons@[i].0@, self.buttons@[i].1))
    }

    /// What `key` does under these bindings.
    pub open spec fn spec_action(&self, key: Seq<char>) -> KeyAction {
        spec_key_action(
            self.button_model(),
            self.save_state@,
            self.load_state@,
            self.slot_increase@,
            self.slot_decrease@,
            key,
        )
    }

    /// Whether these are the bindings that `config` names.
    pub open spec fn reads(&self, config: Config) -> bool {
        &&& self.button_model().len() == button_table().len()
        &&& forall|i: int|
            0 <= i < button_table().len() ==> #[trigger] self.button_model()[i] == (
                config.spec_get(button_table()[i].0)->0,
                button_table()[i].1,
            )
        &&& Some(self.save_state@) == config.spec_get("input_save_state"@)
        &&& Some(self.load_state@) == config.spec_get("input_load_state"@)
        &&& Some(self.slot_increase@) == config.spec_get("input_state_slot_increase"@)
        &&& Some(self.slot_decrease@) == config.spec_get("input_state_slot_decrease"@)
    }

    /// Reads the bindings from a configuration. They are there exactly when
    /// the configuration names a key for every button and action.
    pub fn from_config(config: &Config) -> (bindings: Option<KeyBindings>)
        ensures
            bindings is Some <==> binds_every_key(*config),
            bindings matches Some(b) ==> b.reads(*config),
    {
        let mut buttons: Vec<(String, usize)> = Vec::new();
        let mut i: usize = 0;
        while i < BOUND_BUTTONS
            invariant
                i <= BOUND_BUTTONS,
                buttons@.len() == i,
                forall|k: int|
                    0 <= k < i ==> config.spec_get(#[trigger] button_table()[k].0) == Some(
                        buttons@[k].0@,
                    ) && buttons@[k].1 == button_table()[k].1,
            decreases BOUND_BUTTONS - i,
        {
            let entry: (&'static str, usize) = match button_at(i) {
                Some(entry) => entry,
                None => {
                    return None;
                },
            };
            match config.get(entry.0) {
                Some(key) => {
                    buttons.push((key, entry.1));
                },
                None => {
                    assert(config.spec_get(button_table()[i as int].0) is None);
                    return None;
                },
            }
            i = i + 1;
        }
        let save_state: String = match config.get("input_save_state") {
            Some(key) => key,
            None => {
                return None;
            },
        };
        let load_state: String = match config.get("input_load_state") {
            Some(key) => key,
            None => {
                return None;
            },
        };
        let slot_increase: String = match config.get("input_state_slot_increase") {
            Some(key) => key,
            None => {
                return None;
            },
        };
        let slot_decrease: String = match config.get("input_state_slot_decrease") {
            Some(key) => key,
            None => {
                return None;
            },
        };
        Some(KeyBindings { buttons, save_state, load_state, slot_increase, slot_decrease })
    }

    /// What a key does.
    pub fn action(&self, key: &str) -> (action: KeyAction)
        ensures
            action == self.spec_action(key@),
    {
        let pressed: String = key.to_owned();
        let mut i: usize = self.buttons.len();
        assert(self.button_model().take(i as int) =~= self.button_model());
        while i > 0
            invariant
                i <= self.buttons@.len(),
                pressed@ == key@,
                button_for(self.button_model(), key@) == button_for(
                    self.button_model().take(i as int),
                    key@,
                ),
            decreases i,
        {
            let ghost prefix = self.button_model().take(i as int);
            assert(prefix.drop_last() =~= self.button_model().take(i - 1));
            assert(prefix.last() == self.button_model()[i - 1]);
            if self.buttons[i - 1].0 == pressed {
                return KeyAction::Press(self.buttons[i - 1].1);
            }
            i = i - 1;
        }
        if pressed == self.save_state {
            KeyAction::SaveState
        } else if pressed == self.load_state {
            KeyAction::LoadState
        } else if pressed == self.slot_increase {
            KeyAction::IncreaseSlot
        } else if pressed == self.slot_decrease {
            KeyAction::DecreaseSlot
        } else {
            KeyAction::Unhandled
        }
    }
}

/// A key's name as the configuration writes it: in lower case.
pub open spec fn spec_key_name(name: Seq<char>) -> Seq<char> {
    Seq::new(name.len(), |i: int| ascii_lower(name[i]))
}

/// Turns the name under which the window reports a key into the name under
/// which the configuration binds it.
pub fn key_name(name: &str) -> (lower: String)
    ensures
        lower@ == spec_key_name(name@),
{
    let chars: Vec<char> = chars_of(name);
    let mut out: Vec<char> = Vec::new();
    let mut i: usize = 0;
    while i < chars.len()
        invariant
            i <= chars@.len(),
            out@.len() == i,
            forall|k: int| 0 <= k < i ==> out@[k] == ascii_lower(chars@[k]),
        decreases chars@.len() - i,
    {
        out.push(char_to_ascii_lowercase(chars[i]));
        i = i + 1;
    }
    assert(out@ =~= spec_key_name(name@));
    string_of(out.as_slice())
}

/// A configuration built on the defaults names a key for every button and
/// action, whatever the configuration files hold, so its bindings can always
/// be read.
pub proof fn lemma_defaults_bind_every_key(
    config: Config,
    shared: Seq<(Seq<char>, Seq<char>)>,
    own: Seq<(Seq<char>, Seq<char>)>,
)
    requires
        config.model() == default_entries() + shared + own,
    ensures
        binds_every_key(config),
{
    assert forall|i: int| 0 <= i < button_table().len() implies config.spec_get(
        #[trigger] button_table()[i].0,
    ) is Some by {
        let at: int = if i == 8 {
            9
        } else if i == 9 {
            8
        } else if i == 10 {
            11
        } else if i == 11 {
            10
        } else {
            i
        };
        assert(button_table()[i].0 == default_entries()[at].0);
        lemma_defaults_are_always_set(shared, own, at);
    }
    assert(default_entries()[13].0 == "input_save_state"@);
    lemma_defaults_are_always_set(shared, own, 13);
    assert(default_entries()[14].0 == "input_load_state"@);
    lemma_defaults_are_always_set(shared, own, 14);
    assert(default_entries()[18].0 == "input_state_slot_increase"@);
    lemma_defaults_are_always_set(shared, own, 18);
    assert(default_entries()[17].0 == "input_state_slot_decrease"@);
    lemma_defaults_are_always_set(shared, own, 17);
}

/// Every slot that a key can press is one of the sixteen input slots.
pub proof fn lemma_bound_slots_are_input_slots(i: int)
    requires
        0 <= i < button_table().len(),
    ensures
        button_table()[i].1 < crate::session::BUTTON_COUNT,
{
}

} // verus!
