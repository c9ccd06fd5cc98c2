//! Key processing in visual mode.

use vstd::prelude::*;

use super::action::VimAction;
use super::{ProcessResult, TextObjectModifier, VimState};
use crate::commands::VimCommand;
use crate::keycode::{KeyCode, Modifiers};
use crate::modes::VimMode;

verus! {

impl VimState {
    /// A key-down in visual mode.
    pub(super) fn process_visual_mode_with_modifiers(
        &mut self,
        keycode: KeyCode,
        modifiers: &Modifiers,
    ) -> (result: ProcessResult)
        requires
            keycode != KeyCode::Escape && keycode != KeyCode::V && !old(self)@.pending_g && old(
                self,
            )@.pending_text_object is None ==> (match old(self)@.digit_read(keycode, *modifiers) {
                Some(digit) => old(self)@.grown_count(digit) <= u32::MAX,
                None => true,
            }),
        ensures
            (final(self)@, result) == old(self)@.visual_key(keycode, *modifiers),
    {
        if keycode == KeyCode::Escape || keycode == KeyCode::V {
            self.set_mode(VimMode::Normal);
            return ProcessResult::ModeChanged(VimMode::Normal, None);
        }
        if self.pending_g {
            self.pending_g = false;
            return self.handle_visual_g_combo(keycode);
        }
        if let Some(modifier) = self.pending_text_object {
            self.pending_text_object = None;
            return self.handle_visual_text_object(keycode, modifier);
        }
        if !modifiers.shift {
            if let Some(digit) = keycode.to_digit() {
                if digit != 0 || self.pending_count.is_some() {
                    self.push_digit(digit);
                    return ProcessResult::Suppress;
                }
            }
        }
        self.handle_visual_command(keycode, modifiers)
    }

    /// Completes an operator on the selection: uses the count up, enters
    /// `mode` and asks for `action`.
    fn act_on_selection(&mut self, mode: VimMode, action: VimAction) -> (result: ProcessResult)
        ensures
            (final(self)@, result) == old(self)@.counted().switch(mode, Some(action)),
    {
        self.pending_count = None;
        self.set_mode(mode);
        ProcessResult::ModeChanged(mode, Some(action))
    }

    /// The table of visual-mode commands.
    fn handle_visual_command(&mut self, keycode: KeyCode, modifiers: &Modifiers) -> (result:
        ProcessResult)
        ensures
            (final(self)@, result) == old(self)@.visual_command(keycode, *modifiers),
    {
        match keycode {
            // Motions, with selection
            KeyCode::H => self.run(VimCommand::MoveLeft, true),
            KeyCode::J => self.run(VimCommand::MoveDown, true),
            KeyCode::K => self.run(VimCommand::MoveUp, true),
            KeyCode::L => self.run(VimCommand::MoveRight, true),
            KeyCode::W | KeyCode::E => self.run(VimCommand::WordForward, true),
            KeyCode::B => self.run(VimCommand::WordBackward, true),
            KeyCode::Num0 => self.run_once(VimCommand::LineStart, true),
            KeyCode::Num4 if modifiers.shift => self.run_once(VimCommand::LineEnd, true),
            KeyCode::Num6 if modifiers.shift => self.run_once(VimCommand::LineStart, true),
            KeyCode::LeftBracket if modifiers.shift => self.run(VimCommand::ParagraphUp, true),
            KeyCode::RightBracket if modifiers.shift => self.run(VimCommand::ParagraphDown, true),
            KeyCode::G => {
                if modifiers.shift {
                    self.run_once(VimCommand::DocumentEnd, true)
                } else {
                    self.pending_g = true;
                    ProcessResult::Suppress
                }
            },
            // Text objects
            KeyCode::I if !modifiers.shift => {
                self.pending_text_object = Some(TextObjectModifier::Inner);
                ProcessResult::Suppress
            },
            KeyCode::A if !modifiers.shift => {
                self.pending_text_object = Some(TextObjectModifier::Around);
                ProcessResult::Suppress
            },
            // Operators on the selection
            KeyCode::D | KeyCode::X => self.act_on_selection(VimMode::Normal, VimAction::Cut),
            KeyCode::Y => self.act_on_selection(VimMode::Normal, VimAction::Copy),
            KeyCode::C => self.act_on_selection(VimMode::Insert, VimAction::Cut),
            _ => self.give_up(),
        }
    }

    /// The key after `g` in visual mode.
    fn handle_visual_g_combo(&mut self, keycode: KeyCode) -> (result: ProcessResult)
        ensures
            (final(self)@, result) == old(self)@.visual_g_combo(keycode),
    {
        match keycode {
            KeyCode::G => self.run_once(VimCommand::DocumentStart, true),
            KeyCode::E => self.run(VimCommand::WordEndBackward, true),
            _ => self.give_up(),
        }
    }

    /// The key after `i` or `a` in visual mode.
    fn handle_visual_text_object(&mut self, keycode: KeyCode, modifier: TextObjectModifier) -> (result:
        ProcessResult)
        ensures
            (final(self)@, result) == old(self)@.visual_text_object(keycode, modifier),
    {
        if keycode == KeyCode::W {
            let text_object = match modifier {
                TextObjectModifier::Inner => VimCommand::InnerWord,
                TextObjectModifier::Around => VimCommand::AroundWord,
            };
            self.run_once(text_object, false)
        } else {
            self.give_up()
        }
    }
}

} // verus!
