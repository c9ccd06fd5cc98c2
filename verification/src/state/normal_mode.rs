//! Key processing in normal mode.

use vstd::prelude::*;

use super::action::VimAction;
use super::model::{line_command, operator_motion, Machine};
use super::{IndentDirection, ProcessResult, TextObjectModifier, VimState};
use crate::commands::{Operator, VimCommand};
use crate::keycode::{KeyCode, Modifiers};
use crate::modes::VimMode;

verus! {

impl VimState {
    /// A key-down in normal mode.
    pub(super) fn process_normal_mode(&mut self, keycode: KeyCode, modifiers: &Modifiers) -> (result:
        ProcessResult)
        requires
            keycode != KeyCode::Escape && !old(self)@.pending_r && !old(self)@.pending_g && old(
                self,
            )@.pending_text_object is None && old(self)@.pending_indent is None ==> (match old(
                self,
            )@.digit_read(keycode, *modifiers) {
                Some(digit) => old(self)@.grown_count(digit) <= u32::MAX,
                None => true,
            }),
        ensures
            (final(self)@, result) == old(self)@.normal_key(keycode, *modifiers),
    {
        if keycode == KeyCode::Escape {
            self.set_mode(VimMode::Insert);
            return ProcessResult::ModeChanged(VimMode::Insert, None);
        }
        if self.pending_r {
            self.pending_r = false;
            return self.handle_replace_char(keycode, modifiers);
        }
        if self.pending_g {
            self.pending_g = false;
            return self.handle_g_combo(keycode, modifiers);
        }
        if self.pending_text_object.is_some() {
            return self.handle_text_object(keycode);
        }
        if let Some(direction) = self.pending_indent {
            self.pending_indent = None;
            return self.handle_indent_combo(keycode, direction);
        }
        if !modifiers.shift {
            if let Some(digit) = keycode.to_digit() {
                if digit != 0 || self.pending_count.is_some() {
                    self.push_digit(digit);
                    return ProcessResult::Suppress;
                }
            }
        }
        if let Some(operator) = self.pending_operator {
            return self.handle_operator_motion(operator, keycode, modifiers);
        }
        if modifiers.control {
            return self.handle_control_combo(keycode);
        }
        self.handle_normal_command(keycode, modifiers)
    }

    /// Completes a command that repeats: uses the count up and asks for
    /// `command`, that many times.
    pub(super) fn run(&mut self, command: VimCommand, select: bool) -> (result: ProcessResult)
        ensures
            (final(self)@, result) == old(self)@.counted().emit(
                VimAction::Command { command, count: old(self)@.count(), select },
            ),
    {
        let count = self.take_count();
        ProcessResult::SuppressWithAction(VimAction::Command { command, count, select })
    }

    /// Completes a command that does not repeat: uses the count up and asks
    /// for `command` once.
    pub(super) fn run_once(&mut self, command: VimCommand, select: bool) -> (result: ProcessResult)
        ensures
            (final(self)@, result) == old(self)@.counted().emit(
                VimAction::Command { command, count: 1, select },
            ),
    {
        self.pending_count = None;
        ProcessResult::SuppressWithAction(VimAction::Command { command, count: 1, select })
    }

    /// Cancels what the count began and lets the key pass.
    pub(super) fn give_up(&mut self) -> (result: ProcessResult)
        ensures
            (final(self)@, result) == old(self)@.counted().pass(),
    {
        self.pending_count = None;
        ProcessResult::PassThrough
    }

    /// Completes a command that leads to `mode`: uses the count up, enters
    /// the mode and asks for `command`.
    fn run_entering(&mut self, mode: VimMode, command: VimCommand, repeats: bool) -> (result:
        ProcessResult)
        ensures
            (final(self)@, result) == old(self)@.counted().switch(
                mode,
                Some(
                    VimAction::plain(
                        command,
                        if repeats {
                            old(self)@.count()
                        } else {
                            1
                        },
                    ),
                ),
            ),
    {
        let typed = self.take_count();
        let count = if repeats {
            typed
        } else {
            1
        };
        self.set_mode(mode);
        ProcessResult::ModeChanged(
            mode,
            Some(VimAction::Command { command, count, select: false }),
        )
    }

    /// The flat table of normal-mode commands.
    fn handle_normal_command(&mut self, keycode: KeyCode, modifiers: &Modifiers) -> (result:
        ProcessResult)
        ensures
            (final(self)@, result) == old(self)@.normal_command(keycode, *modifiers),
    {
        match keycode {
            // Motions
            KeyCode::H => self.run(VimCommand::MoveLeft, false),
            KeyCode::J => self.handle_j_key(modifiers),
            KeyCode::K => self.run(VimCommand::MoveUp, false),
            KeyCode::L => self.run(VimCommand::MoveRight, false),
            KeyCode::W => self.run(VimCommand::WordForward, false),
            KeyCode::E => self.run(VimCommand::WordEnd, false),
            KeyCode::B => self.run(VimCommand::WordBackward, false),
            KeyCode::Num0 => self.run_once(VimCommand::LineStart, false),
            KeyCode::Num4 if modifiers.shift => self.run_once(VimCommand::LineEnd, false),
            KeyCode::Num6 if modifiers.shift => self.run_once(VimCommand::LineStart, false),
            KeyCode::Minus if modifiers.shift => self.run_once(VimCommand::LineStart, false),
            KeyCode::LeftBracket if modifiers.shift => self.run(VimCommand::ParagraphUp, false),
            KeyCode::RightBracket if modifiers.shift => self.run(
                VimCommand::ParagraphDown,
                false,
            ),
            KeyCode::G => self.handle_g_key(modifiers),
            // Operators
            KeyCode::D => self.handle_delete_operator(modifiers),
            KeyCode::Y => self.handle_yank_operator(modifiers),
            KeyCode::C => self.handle_change_operator(modifiers),
            // Single-key edits
            KeyCode::X => self.handle_x_key(modifiers),
            KeyCode::S => self.handle_s_key(modifiers),
            KeyCode::R => self.handle_r_key(modifiers),
            // Entries to insert mode
            KeyCode::I => self.handle_insert_key(modifiers),
            KeyCode::A => self.handle_append_key(modifiers),
            KeyCode::O => self.handle_open_line_key(modifiers),
            // Visual mode
            KeyCode::V => {
                self.pending_count = None;
                self.set_mode(VimMode::Visual);
                ProcessResult::ModeChanged(VimMode::Visual, None)
            },
            // Clipboard and undo
            KeyCode::P => {
                let command = if modifiers.shift {
                    VimCommand::PasteBefore
                } else {
                    VimCommand::Paste
                };
                self.run(command, false)
            },
            KeyCode::U => self.run(VimCommand::Undo, false),
            // Indent
            KeyCode::Period if modifiers.shift => {
                self.pending_indent = Some(IndentDirection::Indent);
                ProcessResult::Suppress
            },
            KeyCode::Comma if modifiers.shift => {
                self.pending_indent = Some(IndentDirection::Outdent);
                ProcessResult::Suppress
            },
            _ => self.give_up(),
        }
    }

    /// `j` moves down, `J` joins lines.
    fn handle_j_key(&mut self, modifiers: &Modifiers) -> (result: ProcessResult)
        ensures
            (final(self)@, result) == old(self)@.normal_command(KeyCode::J, *modifiers),
    {
        if modifiers.shift {
            self.run(VimCommand::JoinLines, false)
        } else {
            self.run(VimCommand::MoveDown, false)
        }
    }

    /// `G` goes to the end of the document, `g` awaits its second key.
    fn handle_g_key(&mut self, modifiers: &Modifiers) -> (result: ProcessResult)
        ensures
            (final(self)@, result) == old(self)@.normal_command(KeyCode::G, *modifiers),
    {
        if modifiers.shift {
            self.run_once(VimCommand::DocumentEnd, false)
        } else {
            self.pending_g = true;
            ProcessResult::Suppress
        }
    }

    /// `x` deletes the character under the cursor, `X` the one before it.
    fn handle_x_key(&mut self, modifiers: &Modifiers) -> (result: ProcessResult)
        ensures
            (final(self)@, result) == old(self)@.normal_command(KeyCode::X, *modifiers),
    {
        let command = if modifiers.shift {
            VimCommand::DeleteCharBefore
        } else {
            VimCommand::DeleteChar
        };
        self.run(command, false)
    }

    /// `s` substitutes characters, `S` the line; both lead to insert mode.
    fn handle_s_key(&mut self, modifiers: &Modifiers) -> (result: ProcessResult)
        ensures
            (final(self)@, result) == old(self)@.normal_command(KeyCode::S, *modifiers),
    {
        let command = if modifiers.shift {
            VimCommand::SubstituteLine
        } else {
            VimCommand::SubstituteChar
        };
        self.run_entering(VimMode::Insert, command, true)
    }

    /// `r` awaits the replacement character; `R` is not interpreted.
    fn handle_r_key(&mut self, modifiers: &Modifiers) -> (result: ProcessResult)
        ensures
            (final(self)@, result) == old(self)@.normal_command(KeyCode::R, *modifiers),
    {
        if !modifiers.shift {
            self.pending_r = true;
            ProcessResult::Suppress
        } else {
            self.give_up()
        }
    }

    /// A key with control held.
    fn handle_control_combo(&mut self, keycode: KeyCode) -> (result: ProcessResult)
        ensures
            (final(self)@, result) == old(self)@.control_combo(keycode),
    {
        let command = match keycode {
            KeyCode::F => VimCommand::PageDown,
            KeyCode::B => VimCommand::PageUp,
            KeyCode::D => VimCommand::HalfPageDown,
            KeyCode::U => VimCommand::HalfPageUp,
            KeyCode::R => VimCommand::Redo,
            _ => {
                return self.give_up();
            },
        };
        self.run(command, false)
    }

    /// The key after `>` or `<`.
    fn handle_indent_combo(&mut self, keycode: KeyCode, direction: IndentDirection) -> (result:
        ProcessResult)
        ensures
            (final(self)@, result) == old(self)@.indent_combo(keycode, direction),
    {
        let expected_key = match direction {
            IndentDirection::Indent => KeyCode::Period,
            IndentDirection::Outdent => KeyCode::Comma,
        };
        if keycode == expected_key {
            let command = match direction {
                IndentDirection::Indent => VimCommand::IndentLine,
                IndentDirection::Outdent => VimCommand::OutdentLine,
            };
            self.run(command, false)
        } else {
            self.give_up()
        }
    }

    /// `d` starts the delete operator, `D` deletes to the end of the line.
    fn handle_delete_operator(&mut self, modifiers: &Modifiers) -> (result: ProcessResult)
        ensures
            (final(self)@, result) == old(self)@.normal_command(KeyCode::D, *modifiers),
    {
        if modifiers.shift {
            self.run(VimCommand::DeleteToLineEnd, false)
        } else {
            self.pending_operator = Some(Operator::Delete);
            ProcessResult::Suppress
        }
    }

    /// `y` starts the yank operator, `Y` yanks the line.
    fn handle_yank_operator(&mut self, modifiers: &Modifiers) -> (result: ProcessResult)
        ensures
            (final(self)@, result) == old(self)@.normal_command(KeyCode::Y, *modifiers),
    {
        if modifiers.shift {
            self.run(VimCommand::YankLine, false)
        } else {
            self.pending_operator = Some(Operator::Yank);
            ProcessResult::Suppress
        }
    }

    /// `c` starts the change operator, `C` changes to the end of the line.
    fn handle_change_operator(&mut self, modifiers: &Modifiers) -> (result: ProcessResult)
        ensures
            (final(self)@, result) == old(self)@.normal_command(KeyCode::C, *modifiers),
    {
        if modifiers.shift {
            self.run_entering(VimMode::Insert, VimCommand::ChangeToLineEnd, true)
        } else {
            self.pending_operator = Some(Operator::Change);
            ProcessResult::Suppress
        }
    }

    /// `i` enters insert mode at the cursor, `I` at the start of the line.
    fn handle_insert_key(&mut self, modifiers: &Modifiers) -> (result: ProcessResult)
        ensures
            (final(self)@, result) == old(self)@.normal_command(KeyCode::I, *modifiers),
    {
        if modifiers.shift {
            self.run_entering(VimMode::Insert, VimCommand::InsertAtLineStart, false)
        } else {
            self.pending_count = None;
            self.set_mode(VimMode::Insert);
            ProcessResult::ModeChanged(VimMode::Insert, None)
        }
    }

    /// `a` enters insert mode after the cursor, `A` at the end of the line.
    fn handle_append_key(&mut self, modifiers: &Modifiers) -> (result: ProcessResult)
        ensures
            (final(self)@, result) == old(self)@.normal_command(KeyCode::A, *modifiers),
    {
        let command = if modifiers.shift {
            VimCommand::AppendAtLineEnd
        } else {
            VimCommand::AppendAfterCursor
        };
        self.run_entering(VimMode::Insert, command, false)
    }

    /// `o` opens a line below, `O` a line above; both lead to insert mode.
    fn handle_open_line_key(&mut self, modifiers: &Modifiers) -> (result: ProcessResult)
        ensures
            (final(self)@, result) == old(self)@.normal_command(KeyCode::O, *modifiers),
    {
        let command = if modifiers.shift {
            VimCommand::OpenLineAbove
        } else {
            VimCommand::OpenLineBelow
        };
        self.run_entering(VimMode::Insert, command, false)
    }

    /// The outcome of a completed operator: a change leads to insert mode,
    /// delete and yank stay in normal mode.
    fn finish_operator(&mut self, operator: Operator, action: VimAction) -> (result: ProcessResult)
        ensures
            (final(self)@, result) == old(self)@.operate(operator, action),
    {
        if operator == Operator::Change {
            self.set_mode(VimMode::Insert);
            ProcessResult::ModeChanged(VimMode::Insert, Some(action))
        } else {
            ProcessResult::SuppressWithAction(action)
        }
    }

    /// The key after an operator.
    fn handle_operator_motion(
        &mut self,
        operator: Operator,
        keycode: KeyCode,
        modifiers: &Modifiers,
    ) -> (result: ProcessResult)
        requires
            old(self)@.pending_operator == Some(operator),
        ensures
            (final(self)@, result) == old(self)@.operator_key(operator, keycode, *modifiers),
    {
        let doubled = !modifiers.shift && match (operator, keycode) {
            (Operator::Delete, KeyCode::D) => true,
            (Operator::Yank, KeyCode::Y) => true,
            (Operator::Change, KeyCode::C) => true,
            _ => false,
        };
        if doubled {
            return self.handle_doubled_operator(operator);
        }
        if keycode == KeyCode::I && !modifiers.shift {
            self.pending_text_object = Some(TextObjectModifier::Inner);
            return ProcessResult::Suppress;
        }
        if keycode == KeyCode::A && !modifiers.shift {
            self.pending_text_object = Some(TextObjectModifier::Around);
            return ProcessResult::Suppress;
        }
        if keycode == KeyCode::G && !modifiers.shift {
            self.pending_g = true;
            return ProcessResult::Suppress;
        }
        self.handle_operator_with_motion(operator, keycode, modifiers)
    }

    /// A doubled operator key: the whole-line command of the operator.
    fn handle_doubled_operator(&mut self, operator: Operator) -> (result: ProcessResult)
        ensures
            (final(self)@, result) == (Machine {
                pending_operator: None,
                pending_count: None,
                ..old(self)@
            }).operate(operator, VimAction::plain(line_command(operator), old(self)@.count())),
    {
        self.pending_operator = None;
        let count = self.take_count();
        let command = match operator {
            Operator::Delete => VimCommand::DeleteLine,
            Operator::Yank => VimCommand::YankLine,
            Operator::Change => VimCommand::ChangeLine,
        };
        self.finish_operator(operator, VimAction::Command { command, count, select: false })
    }

    /// A motion key after an operator completes the operator over the
    /// motion; any other key cancels the operator.
    fn handle_operator_with_motion(
        &mut self,
        operator: Operator,
        keycode: KeyCode,
        modifiers: &Modifiers,
    ) -> (result: ProcessResult)
        ensures
            (final(self)@, result) == (match operator_motion(keycode, modifiers.shift) {
                Some(motion) => (Machine {
                    pending_operator: None,
                    pending_count: None,
                    ..old(self)@
                }).operate(
                    operator,
                    VimAction::OperatorMotion { operator, motion, count: old(self)@.count() },
                ),
                None => old(self)@.cleared().absorb(),
            }),
    {
        let motion = match keycode {
            KeyCode::H => Some(VimCommand::MoveLeft),
            KeyCode::J => Some(VimCommand::MoveDown),
            KeyCode::K => Some(VimCommand::MoveUp),
            KeyCode::L => Some(VimCommand::MoveRight),
            KeyCode::W => Some(VimCommand::WordForward),
            KeyCode::E => Some(VimCommand::WordEnd),
            KeyCode::B => Some(VimCommand::WordBackward),
            KeyCode::Num0 => Some(VimCommand::LineStart),
            KeyCode::Num4 if modifiers.shift => Some(VimCommand::LineEnd),
            KeyCode::Num6 if modifiers.shift => Some(VimCommand::LineStart),
            KeyCode::Minus if modifiers.shift => Some(VimCommand::LineStart),
            KeyCode::LeftBracket if modifiers.shift => Some(VimCommand::ParagraphUp),
            KeyCode::RightBracket if modifiers.shift => Some(VimCommand::ParagraphDown),
            KeyCode::G if modifiers.shift => Some(VimCommand::DocumentEnd),
            _ => None,
        };
        if let Some(motion) = motion {
            self.pending_operator = None;
            let count = self.take_count();
            self.finish_operator(operator, VimAction::OperatorMotion { operator, motion, count })
        } else {
            self.reset_pending();
            ProcessResult::Suppress
        }
    }

    /// The key after `g`.
    fn handle_g_combo(&mut self, keycode: KeyCode, modifiers: &Modifiers) -> (result:
        ProcessResult)
        ensures
            (final(self)@, result) == old(self)@.g_combo(keycode, *modifiers),
    {
        let (motion, repeats) = match keycode {
            KeyCode::G => (VimCommand::DocumentStart, false),
            KeyCode::E => (VimCommand::WordEndBackward, true),
            KeyCode::J => (VimCommand::MoveDown, true),
            KeyCode::K => (VimCommand::MoveUp, true),
            KeyCode::Num0 => (VimCommand::LineStart, false),
            KeyCode::Num4 if modifiers.shift => (VimCommand::LineEnd, false),
            _ => {
                self.reset_pending();
                return ProcessResult::PassThrough;
            },
        };
        match self.pending_operator {
            Some(operator) => self.handle_operator_gg(operator, motion),
            None => {
                if repeats {
                    self.run(motion, false)
                } else {
                    self.run_once(motion, false)
                }
            },
        }
    }

    /// A motion named after `g` completes the pending operator.
    fn handle_operator_gg(&mut self, operator: Operator, motion: VimCommand) -> (result:
        ProcessResult)
        ensures
            (final(self)@, result) == (Machine {
                pending_operator: None,
                pending_count: None,
                ..old(self)@
            }).operate(
                operator,
                VimAction::OperatorMotion { operator, motion, count: old(self)@.count() },
            ),
    {
        self.pending_operator = None;
        let count = self.take_count();
        self.finish_operator(operator, VimAction::OperatorMotion { operator, motion, count })
    }

    /// The key after `r`.
    fn handle_replace_char(&mut self, keycode: KeyCode, modifiers: &Modifiers) -> (result:
        ProcessResult)
        ensures
            (final(self)@, result) == old(self)@.replace_char(keycode, *modifiers),
    {
        let count = self.take_count();
        if keycode.to_char().is_some() {
            ProcessResult::SuppressWithAction(
                VimAction::ReplaceChar { keycode, shift: modifiers.shift, count },
            )
        } else {
            ProcessResult::Suppress
        }
    }

    /// The key after an operator and `i` or `a`.
    fn handle_text_object(&mut self, keycode: KeyCode) -> (result: ProcessResult)
        ensures
            (final(self)@, result) == old(self)@.text_object(keycode),
    {
        let modifier = match self.pending_text_object {
            Some(modifier) => modifier,
            None => {
                return ProcessResult::PassThrough;
            },
        };
        let operator = match self.pending_operator {
            Some(operator) => operator,
            None => {
                self.pending_text_object = None;
                return ProcessResult::PassThrough;
            },
        };
        if keycode == KeyCode::W {
            let text_object = match modifier {
                TextObjectModifier::Inner => VimCommand::InnerWord,
                TextObjectModifier::Around => VimCommand::AroundWord,
            };
            self.pending_text_object = None;
            self.pending_operator = None;
            let count = self.take_count();
            self.finish_operator(operator, VimAction::TextObject { operator, text_object, count })
        } else {
            self.reset_pending();
            ProcessResult::Suppress
        }
    }
}

} // verus!
