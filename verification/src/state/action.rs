//! Deferred actions: what the state machine asks to be carried out once a
//! key has been suppressed.

use vstd::prelude::*;

use crate::commands::{repeat_keys, Operator, VimCommand};
use crate::inject::{
    copy, cut, delete_char, plain, press, repeated, shortcut, type_char, InjectedKey,
};
use crate::keycode::{KeyCode, Modifiers};

verus! {

/// A deferred side effect. An action is plain data until it is executed;
/// executing it is the only place where synthetic keys are produced.
#[derive(Debug, Clone, Copy, PartialEq, Eq, Structural)]
pub enum VimAction {
    /// Carry out a catalog command.
    Command { command: VimCommand, count: u32, select: bool },
    /// Apply an operator over a motion.
    OperatorMotion { operator: Operator, motion: VimCommand, count: u32 },
    /// Apply an operator over a text object.
    TextObject { operator: Operator, text_object: VimCommand, count: u32 },
    /// Replace the character at the cursor by the character of a key.
    ReplaceChar { keycode: KeyCode, shift: bool, count: u32 },
    /// Cut the selection.
    Cut,
    /// Copy the selection.
    Copy,
}

impl VimAction {
    /// The action that carries out `command`, `count` times, without
    /// selection.
    pub open spec fn plain(command: VimCommand, count: u32) -> VimAction {
        VimAction::Command { command, count, select: false }
    }

    /// The action that carries out `command`, `count` times, extending the
    /// selection.
    pub open spec fn selecting(command: VimCommand, count: u32) -> VimAction {
        VimAction::Command { command, count, select: true }
    }

    /// How often the action repeats: its count, and once for the bare
    /// clipboard actions.
    pub open spec fn repeats(self) -> u32 {
        match self {
            VimAction::Command { count, .. } => count,
            VimAction::OperatorMotion { count, .. } => count,
            VimAction::TextObject { count, .. } => count,
            VimAction::ReplaceChar { count, .. } => count,
            VimAction::Cut | VimAction::Copy => 1,
        }
    }

    /// The keys that carry the action out, in order.
    pub open spec fn keys(self) -> Seq<InjectedKey> {
        match self {
            VimAction::Command { command, count, select } => command.keys(count, select),
            VimAction::OperatorMotion { operator, motion, count } => operator.keys_with_motion(
                motion,
                count,
            ),
            VimAction::TextObject { operator, text_object, count } => repeated(
                text_object.keys(1, false),
                count as nat,
            ) + operator.effect_keys(),
            VimAction::ReplaceChar { keycode, shift, count } => repeated(
                press(KeyCode::ForwardDelete, Modifiers::none()) + press(keycode, plain(shift)),
                count as nat,
            ),
            VimAction::Cut => press(KeyCode::X, shortcut()),
            VimAction::Copy => press(KeyCode::C, shortcut()),
        }
    }

    /// Whether insert mode is to be entered once the action has run: only
    /// after a change operator.
    pub open spec fn enters_insert(self) -> bool {
        match self {
            VimAction::OperatorMotion { operator, .. } => operator.enters_insert(),
            VimAction::TextObject { operator, .. } => operator.enters_insert(),
            _ => false,
        }
    }

    /// Computes the keys that carry the action out, and whether insert mode
    /// is to be entered afterwards.
    pub fn execute(&self) -> (done: (Vec<InjectedKey>, bool))
        ensures
            done.0@ == self.keys(),
            done.1 == self.enters_insert(),
    {
        match self {
            VimAction::Command { command, count, select } => {
                (command.execute(*count, *select), false)
            },
            VimAction::OperatorMotion { operator, motion, count } => {
                operator.execute_with_motion(*motion, *count)
            },
            VimAction::TextObject { operator, text_object, count } => {
                let selection = text_object.execute(1, false);
                let mut keys = repeat_keys(&selection, *count);
                let (mut effect, enter_insert) = operator.apply();
                keys.append(&mut effect);
                (keys, enter_insert)
            },
            VimAction::ReplaceChar { keycode, shift, count } => {
                let mut replace = delete_char();
                let mut typed = type_char(*keycode, *shift);
                replace.append(&mut typed);
                (repeat_keys(&replace, *count), false)
            },
            VimAction::Cut => (cut(), false),
            VimAction::Copy => (copy(), false),
        }
    }
}

} // verus!
