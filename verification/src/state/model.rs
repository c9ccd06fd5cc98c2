//! The state machine as mathematics: the state, and the function from a
//! state and a key event to the next state and the verdict on the event.
//!
//! A key-down event in normal or visual mode is dispatched by the first rule
//! that applies: Escape; a pending replace; a pending `g`; a pending text
//! object; a pending indent; a count digit; a pending operator; a control
//! combination; the flat command table. A key that starts a multi-key
//! command leaves the count typed so far in place; the key that completes or
//! cancels the command uses it up.

use vstd::prelude::*;

use super::action::VimAction;
use super::{IndentDirection, ProcessResult, TextObjectModifier};
use crate::commands::{Operator, VimCommand};
use crate::keycode::{KeyCode, KeyEvent, Modifiers};
use crate::modes::VimMode;

verus! {

/// The state of the machine: the mode, the parts of a command typed so far,
/// and the modes announced to listeners since the machine was made.
pub struct Machine {
    pub mode: VimMode,
    /// Repeat count typed so far.
    pub pending_count: Option<u32>,
    /// Operator that awaits its motion or text object.
    pub pending_operator: Option<Operator>,
    /// A `g` awaits the second key of its combination.
    pub pending_g: bool,
    /// An `r` awaits the replacement character.
    pub pending_r: bool,
    /// An `i` or `a` awaits the object key.
    pub pending_text_object: Option<TextObjectModifier>,
    /// A `>` or `<` awaits its repetition.
    pub pending_indent: Option<IndentDirection>,
    /// Every mode announced so far, oldest first.
    pub announced: Seq<VimMode>,
}

/// What reaches the machine: a key event, the designated toggle key, or a
/// directive from outside.
pub enum Input {
    /// A key transition, as captured.
    Key(KeyEvent),
    /// The designated toggle key went down.
    VimKey,
    /// An outside request to toggle between insert and normal mode.
    Toggle,
    /// An outside request for a given mode.
    SetMode(VimMode),
}

/// Whether releasing `key` is hidden from the focused application in normal
/// and visual mode: so for the keys that the machine interprets.
pub open spec fn key_up_is_suppressed(key: KeyCode) -> bool {
    match key {
        KeyCode::H
        | KeyCode::J
        | KeyCode::K
        | KeyCode::L
        | KeyCode::W
        | KeyCode::E
        | KeyCode::B
        | KeyCode::Num0
        | KeyCode::Num1
        | KeyCode::Num2
        | KeyCode::Num3
        | KeyCode::Num4
        | KeyCode::Num5
        | KeyCode::Num6
        | KeyCode::Num7
        | KeyCode::Num8
        | KeyCode::Num9
        | KeyCode::G
        | KeyCode::R
        | KeyCode::D
        | KeyCode::Y
        | KeyCode::C
        | KeyCode::X
        | KeyCode::I
        | KeyCode::A
        | KeyCode::O
        | KeyCode::S
        | KeyCode::V
        | KeyCode::P
        | KeyCode::U
        | KeyCode::LeftBracket
        | KeyCode::RightBracket
        | KeyCode::Period
        | KeyCode::Comma => true,
        _ => false,
    }
}

/// The operator that a key starts.
pub open spec fn operator_of_key(key: KeyCode) -> Option<Operator> {
    match key {
        KeyCode::D => Some(Operator::Delete),
        KeyCode::Y => Some(Operator::Yank),
        KeyCode::C => Some(Operator::Change),
        _ => None,
    }
}

/// The whole-line command of an operator, given when its key is doubled.
pub open spec fn line_command(operator: Operator) -> VimCommand {
    match operator {
        Operator::Delete => VimCommand::DeleteLine,
        Operator::Yank => VimCommand::YankLine,
        Operator::Change => VimCommand::ChangeLine,
    }
}

/// The motion that a key names after an operator, if it names one.
pub open spec fn operator_motion(key: KeyCode, shift: bool) -> Option<VimCommand> {
    match key {
        KeyCode::H => Some(VimCommand::MoveLeft),
        KeyCode::J => Some(VimCommand::MoveDown),
        KeyCode::K => Some(VimCommand::MoveUp),
        KeyCode::L => Some(VimCommand::MoveRight),
        KeyCode::W => Some(VimCommand::WordForward),
        KeyCode::E => Some(VimCommand::WordEnd),
        KeyCode::B => Some(VimCommand::WordBackward),
        KeyCode::Num0 => Some(VimCommand::LineStart),
        KeyCode::Num4 if shift => Some(VimCommand::LineEnd),
        KeyCode::Num6 if shift => Some(VimCommand::LineStart),
        KeyCode::Minus if shift => Some(VimCommand::LineStart),
        KeyCode::LeftBracket if shift => Some(VimCommand::ParagraphUp),
        KeyCode::RightBracket if shift => Some(VimCommand::ParagraphDown),
        KeyCode::G if shift => Some(VimCommand::DocumentEnd),
        _ => None,
    }
}

/// The motion that a key names after `g`, if it names one, and whether the
/// motion repeats with the count.
pub open spec fn g_motion(key: KeyCode, shift: bool) -> Option<(VimCommand, bool)> {
    match key {
        KeyCode::G => Some((VimCommand::DocumentStart, false)),
        KeyCode::E => Some((VimCommand::WordEndBackward, true)),
        KeyCode::J => Some((VimCommand::MoveDown, true)),
        KeyCode::K => Some((VimCommand::MoveUp, true)),
        KeyCode::Num0 => Some((VimCommand::LineStart, false)),
        KeyCode::Num4 if shift => Some((VimCommand::LineEnd, false)),
        _ => None,
    }
}

/// The command of a control combination, if the key has one.
pub open spec fn control_command(key: KeyCode) -> Option<VimCommand> {
    match key {
        KeyCode::F => Some(VimCommand::PageDown),
        KeyCode::B => Some(VimCommand::PageUp),
        KeyCode::D => Some(VimCommand::HalfPageDown),
        KeyCode::U => Some(VimCommand::HalfPageUp),
        KeyCode::R => Some(VimCommand::Redo),
        _ => None,
    }
}

impl TextObjectModifier {
    /// The selection command of a word text object.
    pub open spec fn word(self) -> VimCommand {
        match self {
            TextObjectModifier::Inner => VimCommand::InnerWord,
            TextObjectModifier::Around => VimCommand::AroundWord,
        }
    }
}

impl IndentDirection {
    /// The key whose repetition completes the indent.
    pub open spec fn key(self) -> KeyCode {
        match self {
            IndentDirection::Indent => KeyCode::Period,
            IndentDirection::Outdent => KeyCode::Comma,
        }
    }

    /// The line command of the direction.
    pub open spec fn command(self) -> VimCommand {
        match self {
            IndentDirection::Indent => VimCommand::IndentLine,
            IndentDirection::Outdent => VimCommand::OutdentLine,
        }
    }
}

impl Machine {
    /// The state in which a machine starts: insert mode, nothing pending,
    /// nothing announced.
    pub open spec fn initial() -> Machine {
        Machine {
            mode: VimMode::Insert,
            pending_count: None,
            pending_operator: None,
            pending_g: false,
            pending_r: false,
            pending_text_object: None,
            pending_indent: None,
            announced: Seq::empty(),
        }
    }

    /// The repeat count in force: the pending count, or 1.
    pub open spec fn count(self) -> u32 {
        match self.pending_count {
            Some(count) => count,
            None => 1,
        }
    }

    /// The same state with nothing pending.
    pub open spec fn cleared(self) -> Machine {
        Machine {
            pending_count: None,
            pending_operator: None,
            pending_g: false,
            pending_r: false,
            pending_text_object: None,
            pending_indent: None,
            ..self
        }
    }

    /// Whether nothing is pending.
    pub open spec fn idle(self) -> bool {
        &&& self.pending_count is None
        &&& self.pending_operator is None
        &&& !self.pending_g
        &&& !self.pending_r
        &&& self.pending_text_object is None
        &&& self.pending_indent is None
    }

    /// The same state with the pending count used up.
    pub open spec fn counted(self) -> Machine {
        Machine { pending_count: None, ..self }
    }

    /// The state after a request for `mode`. A change of mode drops all
    /// pending state and is announced once; a request for the mode already
    /// active changes and announces nothing.
    pub open spec fn entered(self, mode: VimMode) -> Machine {
        if self.mode == mode {
            self
        } else {
            Machine { mode, announced: self.announced.push(mode), ..self.cleared() }
        }
    }

    /// The mode that a toggle leads to: normal from insert, insert from
    /// normal and visual.
    pub open spec fn toggle_target(self) -> VimMode {
        match self.mode {
            VimMode::Insert => VimMode::Normal,
            VimMode::Normal | VimMode::Visual => VimMode::Insert,
        }
    }

    /// The state after a toggle.
    pub open spec fn toggled(self) -> Machine {
        self.entered(self.toggle_target())
    }

    /// The pending state is consistent: at most one of the pending `g`,
    /// replace, text object and indent is set and governs the next key; a
    /// pending operator stands beside a `g` or a text object only; insert
    /// mode has nothing pending, and visual mode no operator, replace or
    /// indent.
    pub open spec fn wf(self) -> bool {
        &&& self.mode == VimMode::Insert ==> self.idle()
        &&& self.mode == VimMode::Visual ==> self.pending_operator is None && !self.pending_r
            && self.pending_indent is None
        &&& self.pending_g ==> !self.pending_r && self.pending_text_object is None
            && self.pending_indent is None
        &&& self.pending_r ==> self.pending_text_object is None && self.pending_indent is None
            && self.pending_operator is None
        &&& self.pending_text_object is Some ==> self.pending_indent is None
        &&& self.pending_indent is Some ==> self.pending_operator is None
        &&& self.mode == VimMode::Normal && self.pending_text_object is Some
            ==> self.pending_operator is Some
    }

    /// Whether a multi-key command awaits its next key: a pending replace,
    /// `g`, text object or indent governs how that key is read.
    pub open spec fn governed(self) -> bool {
        self.pending_r || self.pending_g || self.pending_text_object is Some
            || self.pending_indent is Some
    }

    /// Whether a pending count, if there is one, is at least 1.
    pub open spec fn counts_from_one(self) -> bool {
        match self.pending_count {
            Some(count) => count >= 1,
            None => true,
        }
    }

    /// The announcements tell the truth: the mode is the one announced last
    /// (insert if none was), and no announcement repeats the mode that was
    /// active before it.
    pub open spec fn truthful(self) -> bool {
        &&& self.mode == (if self.announced.len() == 0 {
            VimMode::Insert
        } else {
            self.announced.last()
        })
        &&& self.announced.len() > 0 ==> self.announced[0] != VimMode::Insert
        &&& forall|i: int|
            0 < i < self.announced.len() ==> #[trigger] self.announced[i] != self.announced[i - 1]
    }

    /// The verdict "suppress, and carry out `action`", in this state.
    pub open spec fn emit(self, action: VimAction) -> (Machine, ProcessResult) {
        (self, ProcessResult::SuppressWithAction(action))
    }

    /// The verdict "suppress", in this state.
    pub open spec fn absorb(self) -> (Machine, ProcessResult) {
        (self, ProcessResult::Suppress)
    }

    /// The verdict "pass through", in this state.
    pub open spec fn pass(self) -> (Machine, ProcessResult) {
        (self, ProcessResult::PassThrough)
    }

    /// A change to `mode`, with an action to carry out if one is given.
    pub open spec fn switch(self, mode: VimMode, action: Option<VimAction>) -> (
        Machine,
        ProcessResult,
    ) {
        (self.entered(mode), ProcessResult::ModeChanged(mode, action))
    }

    /// The outcome of a completed operator: a change leads to insert mode,
    /// delete and yank stay.
    pub open spec fn operate(self, operator: Operator, action: VimAction) -> (
        Machine,
        ProcessResult,
    ) {
        if operator == Operator::Change {
            self.switch(VimMode::Insert, Some(action))
        } else {
            self.emit(action)
        }
    }

    /// The digit that `key` adds to the count, if it is read as one: a digit
    /// key without shift, and a zero only after other digits.
    pub open spec fn digit_read(self, key: KeyCode, modifiers: Modifiers) -> Option<u32> {
        match key.digit() {
            Some(digit) => if !modifiers.shift && (digit != 0 || self.pending_count is Some) {
                Some(digit)
            } else {
                None
            },
            None => None,
        }
    }

    /// The count after `digit` has been appended to it.
    pub open spec fn grown_count(self, digit: u32) -> int {
        10 * (match self.pending_count {
            Some(count) => count as int,
            None => 0,
        }) + digit
    }

    /// The state after `digit` has been appended to the count.
    pub open spec fn grown(self, digit: u32) -> Machine {
        Machine { pending_count: Some(self.grown_count(digit) as u32), ..self }
    }

    /// The digit that `event` appends to the count in this state, if the
    /// event is read as a count digit.
    pub open spec fn appended_digit(self, event: KeyEvent) -> Option<u32> {
        if !event.is_key_down {
            None
        } else {
            match (event.key(), self.mode) {
                (Some(key), VimMode::Normal) => if key == KeyCode::Escape || self.pending_r
                    || self.pending_g || self.pending_text_object is Some
                    || self.pending_indent is Some {
                    None
                } else {
                    self.digit_read(key, event.modifiers)
                },
                (Some(key), VimMode::Visual) => if key == KeyCode::Escape || key == KeyCode::V
                    || self.pending_g || self.pending_text_object is Some {
                    None
                } else {
                    self.digit_read(key, event.modifiers)
                },
                _ => None,
            }
        }
    }

    /// Whether `event` can be processed in this state: a digit that it
    /// appends to the count must leave the count within `u32`.
    pub open spec fn accepts(self, event: KeyEvent) -> bool {
        match self.appended_digit(event) {
            Some(digit) => self.grown_count(digit) <= u32::MAX,
            None => true,
        }
    }

    /// The next state and the verdict for one key event.
    ///
    /// Key-up events change nothing: in insert mode they pass, in the other
    /// modes they are suppressed for the keys that the machine interprets.
    /// Key-down events of unknown keys pass; in insert mode every key-down
    /// passes.
    pub open spec fn on_key(self, event: KeyEvent) -> (Machine, ProcessResult) {
        match event.key() {
            Some(key) => if !event.is_key_down {
                if self.mode != VimMode::Insert && key_up_is_suppressed(key) {
                    self.absorb()
                } else {
                    self.pass()
                }
            } else {
                match self.mode {
                    VimMode::Insert => self.pass(),
                    VimMode::Normal => self.normal_key(key, event.modifiers),
                    VimMode::Visual => self.visual_key(key, event.modifiers),
                }
            },
            None => self.pass(),
        }
    }

    /// A key-down in normal mode: the first rule that applies decides.
    pub open spec fn normal_key(self, key: KeyCode, modifiers: Modifiers) -> (
        Machine,
        ProcessResult,
    ) {
        if key == KeyCode::Escape {
            self.switch(VimMode::Insert, None)
        } else if self.pending_r {
            Machine { pending_r: false, ..self }.replace_char(key, modifiers)
        } else if self.pending_g {
            Machine { pending_g: false, ..self }.g_combo(key, modifiers)
        } else if self.pending_text_object is Some {
            self.text_object(key)
        } else if let Some(direction) = self.pending_indent {
            Machine { pending_indent: None, ..self }.indent_combo(key, direction)
        } else if let Some(digit) = self.digit_read(key, modifiers) {
            self.grown(digit).absorb()
        } else if let Some(operator) = self.pending_operator {
            self.operator_key(operator, key, modifiers)
        } else if modifiers.control {
            self.control_combo(key)
        } else {
            self.normal_command(key, modifiers)
        }
    }

    /// The key after `r`: a letter, digit or space replaces the character at
    /// the cursor; any other key cancels the replace and is suppressed.
    pub open spec fn replace_char(self, key: KeyCode, modifiers: Modifiers) -> (
        Machine,
        ProcessResult,
    ) {
        if key.character() is Some {
            self.counted().emit(
                VimAction::ReplaceChar { keycode: key, shift: modifiers.shift, count: self.count() },
            )
        } else {
            self.counted().absorb()
        }
    }

    /// The key after `g` in normal mode: `gg`, `ge`, `gj`, `gk`, `g0` and
    /// `g$` name a motion. Where an operator is pending the motion completes
    /// the operator; else the cursor moves. Any other key cancels what is
    /// pending and passes through.
    pub open spec fn g_combo(self, key: KeyCode, modifiers: Modifiers) -> (
        Machine,
        ProcessResult,
    ) {
        match g_motion(key, modifiers.shift) {
            Some((motion, repeats)) => match self.pending_operator {
                Some(operator) => Machine {
                    pending_operator: None,
                    pending_count: None,
                    ..self
                }.operate(
                    operator,
                    VimAction::OperatorMotion { operator, motion, count: self.count() },
                ),
                None => self.counted().emit(
                    VimAction::plain(
                        motion,
                        if repeats {
                            self.count()
                        } else {
                            1
                        },
                    ),
                ),
            },
            None => self.cleared().pass(),
        }
    }

    /// The key after an operator and `i` or `a`: `w` completes the operator
    /// over the word; any other key drops all pending state and is
    /// suppressed.
    pub open spec fn text_object(self, key: KeyCode) -> (Machine, ProcessResult) {
        match (self.pending_text_object, self.pending_operator) {
            (Some(modifier), Some(operator)) => if key == KeyCode::W {
                Machine {
                    pending_text_object: None,
                    pending_operator: None,
                    pending_count: None,
                    ..self
                }.operate(
                    operator,
                    VimAction::TextObject {
                        operator,
                        text_object: modifier.word(),
                        count: self.count(),
                    },
                )
            } else {
                self.cleared().absorb()
            },
            _ => Machine { pending_text_object: None, ..self }.pass(),
        }
    }

    /// The key after `>` or `<`: the same key again completes the indent;
    /// any other key cancels it and passes through.
    pub open spec fn indent_combo(self, key: KeyCode, direction: IndentDirection) -> (
        Machine,
        ProcessResult,
    ) {
        if key == direction.key() {
            self.counted().emit(VimAction::plain(direction.command(), self.count()))
        } else {
            self.counted().pass()
        }
    }

    /// The key after an operator: the operator's own key gives the
    /// whole-line command; `i` and `a` await a text object; `g` awaits its
    /// second key; a motion key completes the operator over the motion; any
    /// other key cancels the operator and is suppressed.
    pub open spec fn operator_key(self, operator: Operator, key: KeyCode, modifiers: Modifiers) -> (
        Machine,
        ProcessResult,
    ) {
        let count = self.count();
        let done = Machine { pending_operator: None, pending_count: None, ..self };
        if !modifiers.shift && operator_of_key(key) == Some(operator) {
            done.operate(operator, VimAction::plain(line_command(operator), count))
        } else if key == KeyCode::I && !modifiers.shift {
            Machine { pending_text_object: Some(TextObjectModifier::Inner), ..self }.absorb()
        } else if key == KeyCode::A && !modifiers.shift {
            Machine { pending_text_object: Some(TextObjectModifier::Around), ..self }.absorb()
        } else if key == KeyCode::G && !modifiers.shift {
            Machine { pending_g: true, ..self }.absorb()
        } else {
            match operator_motion(key, modifiers.shift) {
                Some(motion) => done.operate(
                    operator,
                    VimAction::OperatorMotion { operator, motion, count },
                ),
                None => self.cleared().absorb(),
            }
        }
    }

    /// A key with control held: page motions and redo; any other key passes
    /// through.
    pub open spec fn control_combo(self, key: KeyCode) -> (Machine, ProcessResult) {
        match control_command(key) {
            Some(command) => self.counted().emit(VimAction::plain(command, self.count())),
            None => self.counted().pass(),
        }
    }

    /// The flat table of normal-mode commands.
    pub open spec fn normal_command(self, key: KeyCode, modifiers: Modifiers) -> (
        Machine,
        ProcessResult,
    ) {
        let count = self.count();
        let done = self.counted();
        let shift = modifiers.shift;
        match key {
            // Motions
            KeyCode::H => done.emit(VimAction::plain(VimCommand::MoveLeft, count)),
            KeyCode::J => done.emit(
                VimAction::plain(
                    if shift {
                        VimCommand::JoinLines
                    } else {
                        VimCommand::MoveDown
                    },
                    count,
                ),
            ),
            KeyCode::K => done.emit(VimAction::plain(VimCommand::MoveUp, count)),
            KeyCode::L => done.emit(VimAction::plain(VimCommand::MoveRight, count)),
            KeyCode::W => done.emit(VimAction::plain(VimCommand::WordForward, count)),
            KeyCode::E => done.emit(VimAction::plain(VimCommand::WordEnd, count)),
            KeyCode::B => done.emit(VimAction::plain(VimCommand::WordBackward, count)),
            KeyCode::Num0 => done.emit(VimAction::plain(VimCommand::LineStart, 1)),
            KeyCode::Num4 if shift => done.emit(VimAction::plain(VimCommand::LineEnd, 1)),
            KeyCode::Num6 if shift => done.emit(VimAction::plain(VimCommand::LineStart, 1)),
            KeyCode::Minus if shift => done.emit(VimAction::plain(VimCommand::LineStart, 1)),
            KeyCode::LeftBracket if shift => done.emit(
                VimAction::plain(VimCommand::ParagraphUp, count),
            ),
            KeyCode::RightBracket if shift => done.emit(
                VimAction::plain(VimCommand::ParagraphDown, count),
            ),
            KeyCode::G => if shift {
                done.emit(VimAction::plain(VimCommand::DocumentEnd, 1))
            } else {
                Machine { pending_g: true, ..self }.absorb()
            },
            // Operators
            KeyCode::D => if shift {
                done.emit(VimAction::plain(VimCommand::DeleteToLineEnd, count))
            } else {
                Machine { pending_operator: Some(Operator::Delete), ..self }.absorb()
            },
            KeyCode::Y => if shift {
                done.emit(VimAction::plain(VimCommand::YankLine, count))
            } else {
                Machine { pending_operator: Some(Operator::Yank), ..self }.absorb()
            },
            KeyCode::C => if shift {
                done.switch(
                    VimMode::Insert,
                    Some(VimAction::plain(VimCommand::ChangeToLineEnd, count)),
                )
            } else {
                Machine { pending_operator: Some(Operator::Change), ..self }.absorb()
            },
            // Single-key edits
            KeyCode::X => done.emit(
                VimAction::plain(
                    if shift {
                        VimCommand::DeleteCharBefore
                    } else {
                        VimCommand::DeleteChar
                    },
                    count,
                ),
            ),
            KeyCode::S => done.switch(
                VimMode::Insert,
                Some(
                    VimAction::plain(
                        if shift {
                            VimCommand::SubstituteLine
                        } else {
                            VimCommand::SubstituteChar
                        },
                        count,
                    ),
                ),
            ),
            KeyCode::R => if shift {
                done.pass()
            } else {
                Machine { pending_r: true, ..self }.absorb()
            },
            // Entries to insert mode
            KeyCode::I => done.switch(
                VimMode::Insert,
                if shift {
                    Some(VimAction::plain(VimCommand::InsertAtLineStart, 1))
                } else {
                    None
                },
            ),
            KeyCode::A => done.switch(
                VimMode::Insert,
                Some(
                    VimAction::plain(
                        if shift {
                            VimCommand::AppendAtLineEnd
                        } else {
                            VimCommand::AppendAfterCursor
                        },
                        1,
                    ),
                ),
            ),
            KeyCode::O => done.switch(
                VimMode::Insert,
                Some(
                    VimAction::plain(
                        if shift {
                            VimCommand::OpenLineAbove
                        } else {
                            VimCommand::OpenLineBelow
                        },
                        1,
                    ),
                ),
            ),
            // Visual mode
            KeyCode::V => done.switch(VimMode::Visual, None),
            // Clipboard and undo
            KeyCode::P => done.emit(
                VimAction::plain(
                    if shift {
                        VimCommand::PasteBefore
                    } else {
                        VimCommand::Paste
                    },
                    count,
                ),
            ),
            KeyCode::U => done.emit(VimAction::plain(VimCommand::Undo, count)),
            // Indent
            KeyCode::Period if shift => Machine {
                pending_indent: Some(IndentDirection::Indent),
                ..self
            }.absorb(),
            KeyCode::Comma if shift => Machine {
                pending_indent: Some(IndentDirection::Outdent),
                ..self
            }.absorb(),
            _ => done.pass(),
        }
    }

    /// A key-down in visual mode: Escape and `v` lead back to normal mode;
    /// then a pending `g`, a pending text object, a count digit, and the
    /// table of visual commands.
    pub open spec fn visual_key(self, key: KeyCode, modifiers: Modifiers) -> (
        Machine,
        ProcessResult,
    ) {
        if key == KeyCode::Escape || key == KeyCode::V {
            self.switch(VimMode::Normal, None)
        } else if self.pending_g {
            Machine { pending_g: false, ..self }.visual_g_combo(key)
        } else if let Some(modifier) = self.pending_text_object {
            Machine { pending_text_object: None, ..self }.visual_text_object(key, modifier)
        } else if let Some(digit) = self.digit_read(key, modifiers) {
            self.grown(digit).absorb()
        } else {
            self.visual_command(key, modifiers)
        }
    }

    /// The key after `g` in visual mode: `gg` and `ge` extend the selection;
    /// any other key passes through.
    pub open spec fn visual_g_combo(self, key: KeyCode) -> (Machine, ProcessResult) {
        match key {
            KeyCode::G => self.counted().emit(
                VimAction::selecting(VimCommand::DocumentStart, 1),
            ),
            KeyCode::E => self.counted().emit(
                VimAction::selecting(VimCommand::WordEndBackward, self.count()),
            ),
            _ => self.counted().pass(),
        }
    }

    /// The key after `i` or `a` in visual mode: `w` selects the word; any
    /// other key passes through.
    pub open spec fn visual_text_object(self, key: KeyCode, modifier: TextObjectModifier) -> (
        Machine,
        ProcessResult,
    ) {
        if key == KeyCode::W {
            self.counted().emit(VimAction::plain(modifier.word(), 1))
        } else {
            self.counted().pass()
        }
    }

    /// The table of visual-mode commands: the motions of normal mode with
    /// selection on, and the operators that act on the selection at once.
    pub open spec fn visual_command(self, key: KeyCode, modifiers: Modifiers) -> (
        Machine,
        ProcessResult,
    ) {
        let count = self.count();
        let done = self.counted();
        let shift = modifiers.shift;
        match key {
            KeyCode::H => done.emit(VimAction::selecting(VimCommand::MoveLeft, count)),
            KeyCode::J => done.emit(VimAction::selecting(VimCommand::MoveDown, count)),
            KeyCode::K => done.emit(VimAction::selecting(VimCommand::MoveUp, count)),
            KeyCode::L => done.emit(VimAction::selecting(VimCommand::MoveRight, count)),
            KeyCode::W | KeyCode::E => done.emit(
                VimAction::selecting(VimCommand::WordForward, count),
            ),
            KeyCode::B => done.emit(VimAction::selecting(VimCommand::WordBackward, count)),
            KeyCode::Num0 => done.emit(VimAction::selecting(VimCommand::LineStart, 1)),
            KeyCode::Num4 if shift => done.emit(VimAction::selecting(VimCommand::LineEnd, 1)),
            KeyCode::Num6 if shift => done.emit(VimAction::selecting(VimCommand::LineStart, 1)),
            KeyCode::LeftBracket if shift => done.emit(
                VimAction::selecting(VimCommand::ParagraphUp, count),
            ),
            KeyCode::RightBracket if shift => done.emit(
                VimAction::selecting(VimCommand::ParagraphDown, count),
            ),
            KeyCode::G => if shift {
                done.emit(VimAction::selecting(VimCommand::DocumentEnd, 1))
            } else {
                Machine { pending_g: true, ..self }.absorb()
            },
            KeyCode::I if !shift => Machine {
                pending_text_object: Some(TextObjectModifier::Inner),
                ..self
            }.absorb(),
            KeyCode::A if !shift => Machine {
                pending_text_object: Some(TextObjectModifier::Around),
                ..self
            }.absorb(),
            KeyCode::D | KeyCode::X => done.switch(VimMode::Normal, Some(VimAction::Cut)),
            KeyCode::Y => done.switch(VimMode::Normal, Some(VimAction::Copy)),
            KeyCode::C => done.switch(VimMode::Insert, Some(VimAction::Cut)),
            _ => done.pass(),
        }
    }

    /// The state after one input.
    pub open spec fn after(self, input: Input) -> Machine {
        match input {
            Input::Key(event) => self.on_key(event).0,
            Input::VimKey | Input::Toggle => self.toggled(),
            Input::SetMode(mode) => self.entered(mode),
        }
    }

    /// The state after a sequence of inputs, taken in order.
    pub open spec fn after_all(self, inputs: Seq<Input>) -> Machine
        decreases inputs.len(),
    {
        if inputs.len() == 0 {
            self
        } else {
            self.after(inputs[0]).after_all(inputs.skip(1))
        }
    }
}

} // verus!
