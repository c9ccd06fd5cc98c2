//! The adapter between the capture and the state machine. It reads three
//! settings that the engine does not own: whether the engine is enabled,
//! which key with which modifiers toggles the mode, and whether the focused
//! application is on the ignore list.

use vstd::prelude::*;

use crate::keycode::{KeyCode, KeyEvent};
use crate::settings::VimKeyModifiers;
use crate::state::{Machine, ProcessResult, VimState};

verus! {

/// What the adapter reads from the settings for one key event.
#[derive(Debug, Clone, Copy, PartialEq, Eq, Structural)]
pub struct Gate {
    /// Whether the engine is enabled at all.
    pub enabled: bool,
    /// The designated toggle key, if the settings name a known key.
    pub toggle_key: Option<KeyCode>,
    /// The modifiers that have to be held with the toggle key, no more and
    /// no fewer.
    pub toggle_modifiers: VimKeyModifiers,
    /// Whether the focused application is on the ignore list.
    pub app_ignored: bool,
}

impl Gate {
    /// Whether `event` is the toggle key going down with exactly the
    /// required modifiers. Caps lock does not count as a modifier here.
    pub open spec fn toggles(self, event: KeyEvent) -> bool {
        &&& event.is_key_down
        &&& self.toggle_key is Some
        &&& event.key() == self.toggle_key
        &&& event.modifiers.shift == self.toggle_modifiers.shift
        &&& event.modifiers.control == self.toggle_modifiers.control
        &&& event.modifiers.option == self.toggle_modifiers.option
        &&& event.modifiers.command == self.toggle_modifiers.command
    }

    /// Whether `event` reaches the state machine: the engine is enabled, the
    /// event is not the toggle key, and the focused application is not
    /// ignored.
    pub open spec fn admits(self, event: KeyEvent) -> bool {
        self.enabled && !self.toggles(event) && !self.app_ignored
    }

    /// Whether this event is the toggle key going down with exactly the
    /// required modifiers.
    pub fn is_toggle_key(&self, event: &KeyEvent) -> (toggles: bool)
        ensures
            toggles == self.toggles(*event),
    {
        if !event.is_key_down {
            return false;
        }
        match (self.toggle_key, event.keycode()) {
            (Some(toggle), Some(key)) => key == toggle && event.modifiers.shift
                == self.toggle_modifiers.shift && event.modifiers.control
                == self.toggle_modifiers.control && event.modifiers.option
                == self.toggle_modifiers.option && event.modifiers.command
                == self.toggle_modifiers.command,
            _ => false,
        }
    }
}

impl Machine {
    /// The next state and the verdict for one key event behind the adapter.
    /// With the engine disabled every event passes and nothing changes. The
    /// toggle key is intercepted before the state machine sees it and
    /// toggles the mode. In an ignored application every other event passes.
    /// All else is the state machine's.
    pub open spec fn gated(self, gate: Gate, event: KeyEvent) -> (Machine, ProcessResult) {
        if !gate.enabled {
            self.pass()
        } else if gate.toggles(event) {
            (self.toggled(), ProcessResult::ModeChanged(self.toggle_target(), None))
        } else if gate.app_ignored {
            self.pass()
        } else {
            self.on_key(event)
        }
    }
}

/// Decides on one key event behind the adapter.
pub fn classify_key(state: &mut VimState, gate: &Gate, event: KeyEvent) -> (result: ProcessResult)
    requires
        gate.admits(event) ==> old(state)@.accepts(event),
    ensures
        (final(state)@, result) == old(state)@.gated(*gate, event),
{
    if !gate.enabled {
        return ProcessResult::PassThrough;
    }
    if gate.is_toggle_key(&event) {
        return state.handle_vim_key();
    }
    if gate.app_ignored {
        return ProcessResult::PassThrough;
    }
    state.process_key(event)
}

/// Whether `classify_key` can be called for this event: a digit that the
/// event would append to the count must leave the count within `u32`.
pub fn can_classify(state: &VimState, gate: &Gate, event: KeyEvent) -> (can: bool)
    ensures
        can == (gate.admits(event) ==> state@.accepts(event)),
{
    if !gate.enabled || gate.is_toggle_key(&event) || gate.app_ignored {
        true
    } else {
        state.accepts_key(event)
    }
}

/// Pressing the toggle key twice in insert mode leads back to insert mode
/// with nothing pending; both presses are suppressed, and exactly two
/// changes of mode are announced: to normal, then to insert.
pub proof fn lemma_toggle_key_round_trip(m: Machine, gate: Gate, event: KeyEvent)
    requires
        m.mode == crate::modes::VimMode::Insert,
        gate.enabled,
        gate.toggles(event),
    ensures
        m.gated(gate, event).1.suppresses(),
        m.gated(gate, event).0.gated(gate, event).1.suppresses(),
        m.gated(gate, event).0.gated(gate, event).0.mode == crate::modes::VimMode::Insert,
        m.gated(gate, event).0.gated(gate, event).0.idle(),
        m.gated(gate, event).0.gated(gate, event).0.announced == m.announced + seq![
            crate::modes::VimMode::Normal,
            crate::modes::VimMode::Insert,
        ],
{
    crate::state::laws::lemma_toggle_round_trip(m);
}

/// With the engine disabled, and in an ignored application for every key but
/// the toggle key, the state machine is left alone and the event passes.
pub proof fn lemma_gate_shields_the_machine(m: Machine, gate: Gate, event: KeyEvent)
    requires
        !gate.enabled || (gate.app_ignored && !gate.toggles(event)),
    ensures
        m.gated(gate, event) == (m, ProcessResult::PassThrough),
{
}

} // verus!
