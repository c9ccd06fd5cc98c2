//! The state machine: it holds the mode and the parts of a command typed so
//! far, consumes one key event at a time, and says for each what becomes of
//! it.

pub mod action;
pub mod laws;
pub mod model;
mod normal_mode;
mod visual_mode;

pub use action::VimAction;
pub use model::{Input, Machine};

use tokio::sync::broadcast::Receiver;
use vstd::prelude::*;
use vstd::string::StringExecFns;

use crate::commands::Operator;
use crate::keycode::{KeyCode, KeyEvent};
use crate::modes::VimMode;
use crate::notify::ModeBus;
use crate::text::{decimal, push_decimal};

verus! {

/// The verdict on one key event.
#[derive(Debug, Clone, Copy, PartialEq, Eq, Structural)]
pub enum ProcessResult {
    /// Drop the event; nothing more to do.
    Suppress,
    /// Drop the event, and carry out the action afterwards.
    SuppressWithAction(VimAction),
    /// Forward the event unchanged.
    PassThrough,
    /// Drop the event; the mode has changed to the given one, and the
    /// action, if any, is to be carried out.
    ModeChanged(VimMode, Option<VimAction>),
}

impl ProcessResult {
    /// Whether the event is kept from the focused application: so for every
    /// verdict but `PassThrough`.
    pub open spec fn suppresses(self) -> bool {
        !(self is PassThrough)
    }

    /// The action to carry out, if the verdict names one.
    pub open spec fn action(self) -> Option<VimAction> {
        match self {
            ProcessResult::SuppressWithAction(action) => Some(action),
            ProcessResult::ModeChanged(_, action) => action,
            _ => None,
        }
    }
}

/// Which text object follows an operator: `i` for inner, `a` for around.
#[derive(Debug, Clone, Copy, PartialEq, Eq, Structural)]
pub enum TextObjectModifier {
    Inner,
    Around,
}

/// Which way a line is shifted: `>` indents, `<` outdents.
#[derive(Debug, Clone, Copy, PartialEq, Eq, Structural)]
pub enum IndentDirection {
    Indent,
    Outdent,
}

impl Operator {
    /// The key that starts the operator, as a character.
    pub open spec fn letter(self) -> char {
        match self {
            Operator::Delete => 'd',
            Operator::Yank => 'y',
            Operator::Change => 'c',
        }
    }
}

impl TextObjectModifier {
    /// The key of the modifier, as a character.
    pub open spec fn letter(self) -> char {
        match self {
            TextObjectModifier::Inner => 'i',
            TextObjectModifier::Around => 'a',
        }
    }
}

impl IndentDirection {
    /// The key of the direction, as a character.
    pub open spec fn letter(self) -> char {
        match self {
            IndentDirection::Indent => '>',
            IndentDirection::Outdent => '<',
        }
    }
}

impl Machine {
    /// The keys of the command typed so far, for display: the count in
    /// decimal, then the letter of the operator, `g`, `r`, the text object
    /// modifier and the indent key, each if it is pending.
    pub open spec fn pending_keys(self) -> Seq<char> {
        (match self.pending_count {
            Some(count) => decimal(count as nat),
            None => Seq::empty(),
        }) + (match self.pending_operator {
            Some(operator) => seq![operator.letter()],
            None => Seq::empty(),
        }) + (if self.pending_g {
            seq!['g']
        } else {
            Seq::empty()
        }) + (if self.pending_r {
            seq!['r']
        } else {
            Seq::empty()
        }) + (match self.pending_text_object {
            Some(modifier) => seq![modifier.letter()],
            None => Seq::empty(),
        }) + (match self.pending_indent {
            Some(direction) => seq![direction.letter()],
            None => Seq::empty(),
        })
    }
}

/// The state machine.
pub struct VimState {
    mode: VimMode,
    pending_count: Option<u32>,
    pending_operator: Option<Operator>,
    pending_g: bool,
    pending_r: bool,
    pending_text_object: Option<TextObjectModifier>,
    pending_indent: Option<IndentDirection>,
    bus: ModeBus,
}

impl View for VimState {
    type V = Machine;

    closed spec fn view(&self) -> Machine {
        Machine {
            mode: self.mode,
            pending_count: self.pending_count,
            pending_operator: self.pending_operator,
            pending_g: self.pending_g,
            pending_r: self.pending_r,
            pending_text_object: self.pending_text_object,
            pending_indent: self.pending_indent,
            announced: self.bus.announced(),
        }
    }
}

impl VimState {
    /// A machine in its initial state, and the receiver on which its mode
    /// changes are heard.
    pub fn new() -> (made: (Self, Receiver<VimMode>))
        ensures
            made.0@ == Machine::initial(),
    {
        let (bus, rx) = ModeBus::open();
        (
            VimState {
                mode: VimMode::Insert,
                pending_count: None,
                pending_operator: None,
                pending_g: false,
                pending_r: false,
                pending_text_object: None,
                pending_indent: None,
                bus,
            },
            rx,
        )
    }

    /// The active mode.
    pub fn mode(&self) -> (mode: VimMode)
        ensures
            mode == self@.mode,
    {
        self.mode
    }

    /// The operator that awaits its motion, if one does.
    pub fn pending_operator(&self) -> (operator: Option<Operator>)
        ensures
            operator == self@.pending_operator,
    {
        self.pending_operator
    }

    /// The repeat count typed so far, if any.
    pub fn pending_count(&self) -> (count: Option<u32>)
        ensures
            count == self@.pending_count,
    {
        self.pending_count
    }

    /// Enters `mode`. A change drops all pending state and is announced
    /// once; entering the active mode does nothing.
    pub(super) fn set_mode(&mut self, mode: VimMode)
        ensures
            final(self)@ == old(self)@.entered(mode),
    {
        if self.mode != mode {
            self.mode = mode;
            self.reset_pending();
            self.bus.announce(mode);
        }
    }

    /// Enters `mode` at a request from outside the keyboard.
    pub fn set_mode_external(&mut self, mode: VimMode)
        ensures
            final(self)@ == old(self)@.entered(mode),
    {
        self.set_mode(mode);
    }

    /// Toggles between insert and normal mode at a request from outside the
    /// keyboard; visual mode toggles to insert. Returns the mode entered.
    pub fn toggle_mode(&mut self) -> (mode: VimMode)
        ensures
            final(self)@ == old(self)@.toggled(),
            mode == old(self)@.toggle_target(),
    {
        let new_mode = match self.mode {
            VimMode::Insert => VimMode::Normal,
            VimMode::Normal | VimMode::Visual => VimMode::Insert,
        };
        self.set_mode(new_mode);
        new_mode
    }

    /// Drops all pending state.
    pub(super) fn reset_pending(&mut self)
        ensures
            final(self)@ == old(self)@.cleared(),
    {
        self.pending_count = None;
        self.pending_operator = None;
        self.pending_g = false;
        self.pending_r = false;
        self.pending_text_object = None;
        self.pending_indent = None;
    }

    /// The repeat count in force: the pending count, or 1.
    pub(super) fn get_count(&self) -> (count: u32)
        ensures
            count == self@.count(),
    {
        match self.pending_count {
            Some(count) => count,
            None => 1,
        }
    }

    /// Uses the pending count up: returns the count in force and leaves
    /// none pending.
    pub(super) fn take_count(&mut self) -> (count: u32)
        ensures
            count == old(self)@.count(),
            final(self)@ == old(self)@.counted(),
    {
        let count = self.get_count();
        self.pending_count = None;
        count
    }

    /// The keys of the command typed so far, for display.
    pub fn get_pending_keys(&self) -> (keys: String)
        ensures
            keys@ == self@.pending_keys(),
    {
        let mut buf = String::new();
        if let Some(count) = self.pending_count {
            push_decimal(&mut buf, count as u64);
        }
        if let Some(operator) = self.pending_operator {
            proof {
                reveal_strlit("d");
                reveal_strlit("y");
                reveal_strlit("c");
            }
            let letter = match operator {
                Operator::Delete => "d",
                Operator::Yank => "y",
                Operator::Change => "c",
            };
            assert(letter@ =~= seq![operator.letter()]);
            buf.append(letter);
        }
        if self.pending_g {
            proof {
                reveal_strlit("g");
            }
            assert("g"@ =~= seq!['g']);
            buf.append("g");
        }
        if self.pending_r {
            proof {
                reveal_strlit("r");
            }
            assert("r"@ =~= seq!['r']);
            buf.append("r");
        }
        if let Some(modifier) = self.pending_text_object {
            proof {
                reveal_strlit("i");
                reveal_strlit("a");
            }
            let letter = match modifier {
                TextObjectModifier::Inner => "i",
                TextObjectModifier::Around => "a",
            };
            assert(letter@ =~= seq![modifier.letter()]);
            buf.append(letter);
        }
        if let Some(direction) = self.pending_indent {
            proof {
                reveal_strlit(">");
                reveal_strlit("<");
            }
            let letter = match direction {
                IndentDirection::Indent => ">",
                IndentDirection::Outdent => "<",
            };
            assert(letter@ =~= seq![direction.letter()]);
            buf.append(letter);
        }
        assert(buf@ =~= self@.pending_keys());
        buf
    }

    /// Whether `event` can be processed now: a digit that it would append to
    /// the count must leave the count within `u32`.
    pub fn accepts_key(&self, event: KeyEvent) -> (accepted: bool)
        ensures
            accepted == self@.accepts(event),
    {
        if !event.is_key_down {
            return true;
        }
        let keycode = match event.keycode() {
            Some(keycode) => keycode,
            None => {
                return true;
            },
        };
        let governed = match self.mode {
            VimMode::Insert => true,
            VimMode::Normal => keycode == KeyCode::Escape || self.pending_r || self.pending_g
                || self.pending_text_object.is_some() || self.pending_indent.is_some(),
            VimMode::Visual => keycode == KeyCode::Escape || keycode == KeyCode::V
                || self.pending_g || self.pending_text_object.is_some(),
        };
        if governed || event.modifiers.shift {
            return true;
        }
        match keycode.to_digit() {
            Some(digit) => match self.pending_count {
                Some(count) => count <= (u32::MAX - digit) / 10,
                None => true,
            },
            None => true,
        }
    }

    /// Processes one key event: returns the verdict on it and moves to the
    /// next state.
    pub fn process_key(&mut self, event: KeyEvent) -> (result: ProcessResult)
        requires
            old(self)@.accepts(event),
        ensures
            (final(self)@, result) == old(self)@.on_key(event),
    {
        if !event.is_key_down {
            return self.process_key_up(&event);
        }
        let keycode = match event.keycode() {
            Some(keycode) => keycode,
            None => {
                return ProcessResult::PassThrough;
            },
        };
        match self.mode {
            VimMode::Insert => ProcessResult::PassThrough,
            VimMode::Normal => self.process_normal_mode(keycode, &event.modifiers),
            VimMode::Visual => self.process_visual_mode_with_modifiers(keycode, &event.modifiers),
        }
    }

    /// The verdict on a key-up event.
    fn process_key_up(&self, event: &KeyEvent) -> (result: ProcessResult)
        requires
            !event.is_key_down,
        ensures
            (self@, result) == self@.on_key(*event),
    {
        if self.mode == VimMode::Insert {
            return ProcessResult::PassThrough;
        }
        let keycode = match event.keycode() {
            Some(keycode) => keycode,
            None => {
                return ProcessResult::PassThrough;
            },
        };
        let should_suppress = match keycode {
            KeyCode::H
            | KeyCode::J
            | KeyCode::K
            | KeyCode::L
            | KeyCode::W
            | KeyCode::E
            | KeyCode::B
            | KeyCode::Num0
            | KeyCode::Num1
            | KeyCode::Num2
            | KeyCode::Num3
            | KeyCode::Num4
            | KeyCode::Num5
            | KeyCode::Num6
            | KeyCode::Num7
            | KeyCode::Num8
            | KeyCode::Num9
            | KeyCode::G
            | KeyCode::R
            | KeyCode::D
            | KeyCode::Y
            | KeyCode::C
            | KeyCode::X
            | KeyCode::I
            | KeyCode::A
            | KeyCode::O
            | KeyCode::S
            | KeyCode::V
            | KeyCode::P
            | KeyCode::U
            | KeyCode::LeftBracket
            | KeyCode::RightBracket
            | KeyCode::Period
            | KeyCode::Comma => true,
            _ => false,
        };
        if should_suppress {
            ProcessResult::Suppress
        } else {
            ProcessResult::PassThrough
        }
    }

    /// The designated toggle key: normal mode from insert, insert mode from
    /// normal and visual.
    pub fn handle_vim_key(&mut self) -> (result: ProcessResult)
        ensures
            final(self)@ == old(self)@.toggled(),
            result == ProcessResult::ModeChanged(old(self)@.toggle_target(), None),
    {
        match self.mode {
            VimMode::Insert => {
                self.set_mode(VimMode::Normal);
                ProcessResult::ModeChanged(VimMode::Normal, None)
            },
            VimMode::Normal | VimMode::Visual => {
                self.set_mode(VimMode::Insert);
                ProcessResult::ModeChanged(VimMode::Insert, None)
            },
        }
    }

    /// Appends `digit` to the pending count.
    pub(super) fn push_digit(&mut self, digit: u32)
        requires
            digit < 10,
            old(self)@.grown_count(digit) <= u32::MAX,
        ensures
            final(self)@ == old(self)@.grown(digit),
    {
        let current = match self.pending_count {
            Some(count) => count,
            None => 0,
        };
        self.pending_count = Some(current * 10 + digit);
    }
}

impl Default for VimState {
    /// A machine in its initial state that nobody listens to.
    fn default() -> (state: Self)
        ensures
            state@ == Machine::initial(),
    {
        VimState::new().0
    }
}

} // verus!
