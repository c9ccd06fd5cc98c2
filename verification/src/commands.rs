//! The command catalog: the closed set of editing operations, and for each
//! the keys that carry it out in a generic text field. Operators combine
//! with a motion: the motion runs with selection on, then the operator acts
//! on what was selected.

use vstd::prelude::*;

use crate::inject::{
    backspace, by_word, copy, cursor_down, cursor_left, cursor_right, cursor_up, cut, delete_char,
    document_end, document_start, indent_line, indent_line_keys, join_lines, join_lines_keys,
    lemma_repeated_once, line_end, line_start, new_line_above, new_line_above_keys,
    new_line_below, new_line_below_keys, outdent_line, outdent_line_keys, page_down, page_up,
    paragraph_down, paragraph_up, paste, plain, press, redo, repeated, select_around_word,
    select_around_word_keys, select_inner_word, select_inner_word_keys, select_line_keys,
    shortcut, to_edge, undo, word_backward, word_forward, InjectedKey,
};
use crate::keycode::{KeyCode, Modifiers};

verus! {

/// The editing operations.
#[derive(Debug, Clone, Copy, PartialEq, Eq, Structural)]
pub enum VimCommand {
    // Basic motions
    MoveLeft,
    MoveRight,
    MoveUp,
    MoveDown,
    // Word motions
    WordForward,
    WordEnd,
    WordBackward,
    WordEndBackward,
    // Line motions
    LineStart,
    LineEnd,
    // Document motions
    DocumentStart,
    DocumentEnd,
    // Paragraph motions
    ParagraphUp,
    ParagraphDown,
    // Page motions
    PageUp,
    PageDown,
    HalfPageUp,
    HalfPageDown,
    // Insert mode transitions
    InsertAtCursor,
    InsertAtLineStart,
    AppendAfterCursor,
    AppendAtLineEnd,
    OpenLineBelow,
    OpenLineAbove,
    // Operations
    DeleteChar,
    DeleteCharBefore,
    DeleteLine,
    DeleteToLineEnd,
    YankLine,
    ChangeLine,
    ChangeToLineEnd,
    SubstituteChar,
    SubstituteLine,
    JoinLines,
    IndentLine,
    OutdentLine,
    // Text objects
    InnerWord,
    AroundWord,
    // Clipboard
    Paste,
    PasteBefore,
    // Undo and redo
    Undo,
    Redo,
    // Mode transitions
    EnterNormalMode,
    EnterInsertMode,
    EnterVisualMode,
    ExitToInsertMode,
}

impl VimCommand {
    /// The keys that carry the command out, in order. `count` repeats the
    /// commands that repeat; `select` extends the selection on motions.
    pub open spec fn keys(self, count: u32, select: bool) -> Seq<InjectedKey> {
        match self {
            VimCommand::MoveLeft => repeated(press(KeyCode::Left, plain(select)), count as nat),
            VimCommand::MoveRight => repeated(press(KeyCode::Right, plain(select)), count as nat),
            VimCommand::MoveUp => repeated(press(KeyCode::Up, plain(select)), count as nat),
            VimCommand::MoveDown => repeated(press(KeyCode::Down, plain(select)), count as nat),
            VimCommand::WordForward | VimCommand::WordEnd => repeated(
                press(KeyCode::Right, by_word(select)),
                count as nat,
            ),
            VimCommand::WordBackward | VimCommand::WordEndBackward => repeated(
                press(KeyCode::Left, by_word(select)),
                count as nat,
            ),
            VimCommand::LineStart => press(KeyCode::Left, to_edge(select)),
            VimCommand::LineEnd => press(KeyCode::Right, to_edge(select)),
            VimCommand::DocumentStart => press(KeyCode::Up, to_edge(select)),
            VimCommand::DocumentEnd => press(KeyCode::Down, to_edge(select)),
            VimCommand::ParagraphUp => repeated(press(KeyCode::Up, by_word(select)), count as nat),
            VimCommand::ParagraphDown => repeated(
                press(KeyCode::Down, by_word(select)),
                count as nat,
            ),
            VimCommand::PageUp | VimCommand::HalfPageUp => press(KeyCode::PageUp, plain(select)),
            VimCommand::PageDown | VimCommand::HalfPageDown => press(
                KeyCode::PageDown,
                plain(select),
            ),
            VimCommand::InsertAtCursor
            | VimCommand::EnterInsertMode
            | VimCommand::ExitToInsertMode
            | VimCommand::EnterNormalMode
            | VimCommand::EnterVisualMode => Seq::empty(),
            VimCommand::InsertAtLineStart => press(KeyCode::Left, to_edge(false)),
            VimCommand::AppendAfterCursor => press(KeyCode::Right, Modifiers::none()),
            VimCommand::AppendAtLineEnd => press(KeyCode::Right, to_edge(false)),
            VimCommand::OpenLineBelow => new_line_below_keys(),
            VimCommand::OpenLineAbove => new_line_above_keys(),
            VimCommand::DeleteChar | VimCommand::SubstituteChar => repeated(
                press(KeyCode::ForwardDelete, Modifiers::none()),
                count as nat,
            ),
            VimCommand::DeleteCharBefore => repeated(
                press(KeyCode::Delete, Modifiers::none()),
                count as nat,
            ),
            VimCommand::DeleteLine | VimCommand::ChangeLine | VimCommand::SubstituteLine =>
                select_line_keys() + press(KeyCode::X, shortcut()),
            VimCommand::DeleteToLineEnd | VimCommand::ChangeToLineEnd => press(
                KeyCode::Right,
                to_edge(true),
            ) + press(KeyCode::X, shortcut()),
            VimCommand::YankLine => select_line_keys() + press(KeyCode::C, shortcut()),
            VimCommand::JoinLines => repeated(join_lines_keys(), count as nat),
            VimCommand::IndentLine => repeated(indent_line_keys(), count as nat),
            VimCommand::OutdentLine => repeated(outdent_line_keys(), count as nat),
            VimCommand::InnerWord => select_inner_word_keys(),
            VimCommand::AroundWord => select_around_word_keys(),
            VimCommand::Paste | VimCommand::PasteBefore => press(KeyCode::V, shortcut()),
            VimCommand::Undo => press(KeyCode::Z, shortcut()),
            VimCommand::Redo => press(KeyCode::Z, to_edge(true)),
        }
    }

    /// Computes the keys that carry the command out.
    pub fn execute(&self, count: u32, select: bool) -> (keys: Vec<InjectedKey>)
        ensures
            keys@ == self.keys(count, select),
    {
        match self {
            VimCommand::MoveLeft => cursor_left(count, select),
            VimCommand::MoveRight => cursor_right(count, select),
            VimCommand::MoveUp => cursor_up(count, select),
            VimCommand::MoveDown => cursor_down(count, select),
            VimCommand::WordForward | VimCommand::WordEnd => word_forward(count, select),
            VimCommand::WordBackward | VimCommand::WordEndBackward => word_backward(count, select),
            VimCommand::LineStart => line_start(select),
            VimCommand::LineEnd => line_end(select),
            VimCommand::DocumentStart => document_start(select),
            VimCommand::DocumentEnd => document_end(select),
            VimCommand::ParagraphUp => paragraph_up(count, select),
            VimCommand::ParagraphDown => paragraph_down(count, select),
            VimCommand::PageUp | VimCommand::HalfPageUp => page_up(select),
            VimCommand::PageDown | VimCommand::HalfPageDown => page_down(select),
            VimCommand::InsertAtCursor
            | VimCommand::EnterInsertMode
            | VimCommand::ExitToInsertMode
            | VimCommand::EnterNormalMode
            | VimCommand::EnterVisualMode => Vec::new(),
            VimCommand::InsertAtLineStart => line_start(false),
            VimCommand::AppendAfterCursor => {
                proof {
                    lemma_repeated_once(press(KeyCode::Right, plain(false)));
                }
                cursor_right(1, false)
            },
            VimCommand::AppendAtLineEnd => line_end(false),
            VimCommand::OpenLineBelow => new_line_below(),
            VimCommand::OpenLineAbove => new_line_above(),
            VimCommand::DeleteChar | VimCommand::SubstituteChar => {
                let block = delete_char();
                repeat_keys(&block, count)
            },
            VimCommand::DeleteCharBefore => {
                let block = backspace();
                repeat_keys(&block, count)
            },
            VimCommand::DeleteLine | VimCommand::ChangeLine | VimCommand::SubstituteLine => {
                let mut keys = select_line();
                let mut tail = cut();
                keys.append(&mut tail);
                keys
            },
            VimCommand::DeleteToLineEnd | VimCommand::ChangeToLineEnd => {
                let mut keys = line_end(true);
                let mut tail = cut();
                keys.append(&mut tail);
                keys
            },
            VimCommand::YankLine => {
                let mut keys = select_line();
                let mut tail = copy();
                keys.append(&mut tail);
                keys
            },
            VimCommand::JoinLines => {
                let block = join_lines();
                repeat_keys(&block, count)
            },
            VimCommand::IndentLine => {
                let block = indent_line();
                repeat_keys(&block, count)
            },
            VimCommand::OutdentLine => {
                let block = outdent_line();
                repeat_keys(&block, count)
            },
            VimCommand::InnerWord => select_inner_word(),
            VimCommand::AroundWord => select_around_word(),
            VimCommand::Paste | VimCommand::PasteBefore => paste(),
            VimCommand::Undo => undo(),
            VimCommand::Redo => redo(),
        }
    }
}

/// An operator: it awaits a motion or a text object and acts on the text
/// that this covers.
#[derive(Debug, Clone, Copy, PartialEq, Eq, Structural)]
pub enum Operator {
    Delete,
    Yank,
    Change,
}

impl Operator {
    /// The keys by which the operator acts on the current selection: cut for
    /// delete and change; copy, then a step left that drops the selection,
    /// for yank.
    pub open spec fn effect_keys(self) -> Seq<InjectedKey> {
        match self {
            Operator::Delete | Operator::Change => press(KeyCode::X, shortcut()),
            Operator::Yank => press(KeyCode::C, shortcut()) + press(
                KeyCode::Left,
                Modifiers::none(),
            ),
        }
    }

    /// Whether insert mode is to be entered once the operator has acted:
    /// only after a change.
    pub open spec fn enters_insert(self) -> bool {
        self == Operator::Change
    }

    /// The keys of the operator applied over a motion: the motion with
    /// selection on, then the operator's effect.
    pub open spec fn keys_with_motion(self, motion: VimCommand, count: u32) -> Seq<InjectedKey> {
        motion.keys(count, true) + self.effect_keys()
    }

    /// Computes the keys by which the operator acts on the selection, and
    /// whether insert mode follows.
    pub fn apply(&self) -> (done: (Vec<InjectedKey>, bool))
        ensures
            done.0@ == self.effect_keys(),
            done.1 == self.enters_insert(),
    {
        match self {
            Operator::Delete => (cut(), false),
            Operator::Yank => {
                let mut keys = copy();
                let mut back = cursor_left(1, false);
                proof {
                    lemma_repeated_once(press(KeyCode::Left, plain(false)));
                }
                keys.append(&mut back);
                (keys, false)
            },
            Operator::Change => (cut(), true),
        }
    }

    /// Computes the keys of the operator applied over `motion`, and whether
    /// insert mode is to be entered afterwards.
    pub fn execute_with_motion(&self, motion: VimCommand, count: u32) -> (done: (
        Vec<InjectedKey>,
        bool,
    ))
        ensures
            done.0@ == self.keys_with_motion(motion, count),
            done.1 == self.enters_insert(),
    {
        let mut keys = motion.execute(count, true);
        let (mut effect, enter_insert) = self.apply();
        keys.append(&mut effect);
        (keys, enter_insert)
    }
}

/// The keys that select the current line.
fn select_line() -> (keys: Vec<InjectedKey>)
    ensures
        keys@ == select_line_keys(),
{
    let mut keys = line_start(false);
    let mut tail = line_end(true);
    keys.append(&mut tail);
    keys
}

/// `block`, `count` times in a row.
pub fn repeat_keys(block: &Vec<InjectedKey>, count: u32) -> (keys: Vec<InjectedKey>)
    ensures
        keys@ == repeated(block@, count as nat),
{
    let mut keys: Vec<InjectedKey> = Vec::new();
    let mut done: u32 = 0;
    while done < count
        invariant
            done <= count,
            keys@ == repeated(block@, done as nat),
        decreases count - done,
    {
        let mut at: usize = 0;
        while at < block.len()
            invariant
                at <= block.len(),
                keys@ == repeated(block@, done as nat) + block@.subrange(0, at as int),
            decreases block.len() - at,
        {
            keys.push(block[at]);
            assert(block@.subrange(0, at as int).push(block@[at as int]) =~= block@.subrange(
                0,
                at + 1,
            ));
            at += 1;
        }
        assert(block@.subrange(0, at as int) =~= block@);
        done += 1;
    }
    keys
}

} // verus!
