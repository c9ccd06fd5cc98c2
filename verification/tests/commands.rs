use ovim::commands::{repeat_keys, Operator, VimCommand};
use ovim::inject::InjectedKey;
use ovim::keycode::KeyCode;
use ovim::state::VimAction;

const SHIFT: u64 = 0x0002_0000;
const OPTION: u64 = 0x0008_0000;
const COMMAND: u64 = 0x0010_0000;

fn press(code: u16, flags: u64) -> Vec<InjectedKey> {
    vec![
        InjectedKey { code, key_down: true, flags, user_data: 0x5449_5649 },
        InjectedKey { code, key_down: false, flags, user_data: 0x5449_5649 },
    ]
}

fn repeat(block: Vec<InjectedKey>, n: usize) -> Vec<InjectedKey> {
    let mut out = Vec::new();
    for _ in 0..n {
        out.extend(block.iter().copied());
    }
    out
}

#[test]
fn basic_motions_execute_as_arrows() {
    assert_eq!(VimCommand::MoveLeft.execute(2, false), repeat(press(0x7B, 0), 2));
    assert_eq!(VimCommand::MoveRight.execute(1, true), press(0x7C, SHIFT));
    assert_eq!(VimCommand::MoveUp.execute(3, false), repeat(press(0x7E, 0), 3));
    assert_eq!(VimCommand::MoveDown.execute(12, false), repeat(press(0x7D, 0), 12));
}

#[test]
fn word_motions_execute_with_option() {
    assert_eq!(VimCommand::WordForward.execute(2, false), repeat(press(0x7C, OPTION), 2));
    assert_eq!(VimCommand::WordEnd.execute(2, false), repeat(press(0x7C, OPTION), 2));
    assert_eq!(VimCommand::WordBackward.execute(1, true), press(0x7B, OPTION | SHIFT));
    assert_eq!(VimCommand::WordEndBackward.execute(2, false), repeat(press(0x7B, OPTION), 2));
}

#[test]
fn line_document_and_page_motions_ignore_the_count() {
    assert_eq!(VimCommand::LineStart.execute(5, false), press(0x7B, COMMAND));
    assert_eq!(VimCommand::LineEnd.execute(5, true), press(0x7C, COMMAND | SHIFT));
    assert_eq!(VimCommand::DocumentStart.execute(5, false), press(0x7E, COMMAND));
    assert_eq!(VimCommand::DocumentEnd.execute(5, false), press(0x7D, COMMAND));
    assert_eq!(VimCommand::PageUp.execute(5, false), press(0x74, 0));
    assert_eq!(VimCommand::HalfPageUp.execute(5, false), press(0x74, 0));
    assert_eq!(VimCommand::PageDown.execute(5, true), press(0x79, SHIFT));
    assert_eq!(VimCommand::HalfPageDown.execute(5, false), press(0x79, 0));
}

#[test]
fn paragraph_motions_execute_with_option() {
    assert_eq!(VimCommand::ParagraphUp.execute(2, false), repeat(press(0x7E, OPTION), 2));
    assert_eq!(VimCommand::ParagraphDown.execute(1, true), press(0x7D, OPTION | SHIFT));
}

#[test]
fn mode_commands_produce_no_keys() {
    for command in [
        VimCommand::InsertAtCursor,
        VimCommand::EnterInsertMode,
        VimCommand::ExitToInsertMode,
        VimCommand::EnterNormalMode,
        VimCommand::EnterVisualMode,
    ] {
        assert!(command.execute(3, true).is_empty());
    }
}

#[test]
fn insert_entries_position_the_cursor() {
    assert_eq!(VimCommand::InsertAtLineStart.execute(1, false), press(0x7B, COMMAND));
    assert_eq!(VimCommand::AppendAfterCursor.execute(1, false), press(0x7C, 0));
    // Count and selection do not matter for these.
    assert_eq!(VimCommand::AppendAfterCursor.execute(7, true), press(0x7C, 0));
    assert_eq!(VimCommand::AppendAtLineEnd.execute(1, false), press(0x7C, COMMAND));
    assert_eq!(
        VimCommand::OpenLineBelow.execute(1, false),
        [press(0x7C, COMMAND), press(0x24, 0)].concat()
    );
    assert_eq!(
        VimCommand::OpenLineAbove.execute(1, false),
        [press(0x7B, COMMAND), press(0x24, 0), press(0x7E, 0)].concat()
    );
}

#[test]
fn character_deletions_repeat() {
    assert_eq!(VimCommand::DeleteChar.execute(3, false), repeat(press(0x75, 0), 3));
    assert_eq!(VimCommand::SubstituteChar.execute(2, false), repeat(press(0x75, 0), 2));
    assert_eq!(VimCommand::DeleteCharBefore.execute(2, false), repeat(press(0x33, 0), 2));
    assert!(VimCommand::DeleteChar.execute(0, false).is_empty());
}

#[test]
fn delete_line_is_start_select_to_end_cut() {
    let expected =
        [press(0x7B, COMMAND), press(0x7C, COMMAND | SHIFT), press(0x07, COMMAND)].concat();
    assert_eq!(VimCommand::DeleteLine.execute(1, false), expected);
    assert_eq!(VimCommand::ChangeLine.execute(1, false), expected);
    assert_eq!(VimCommand::SubstituteLine.execute(1, false), expected);
}

#[test]
fn to_line_end_commands() {
    let expected = [press(0x7C, COMMAND | SHIFT), press(0x07, COMMAND)].concat();
    assert_eq!(VimCommand::DeleteToLineEnd.execute(1, false), expected);
    assert_eq!(VimCommand::ChangeToLineEnd.execute(1, false), expected);
}

#[test]
fn yank_line_copies() {
    assert_eq!(
        VimCommand::YankLine.execute(1, false),
        [press(0x7B, COMMAND), press(0x7C, COMMAND | SHIFT), press(0x08, COMMAND)].concat()
    );
}

#[test]
fn line_edits_repeat() {
    let join = [press(0x7C, COMMAND), press(0x75, 0), press(0x31, 0)].concat();
    assert_eq!(VimCommand::JoinLines.execute(2, false), repeat(join, 2));
    let indent = [press(0x7B, COMMAND), press(0x30, 0)].concat();
    assert_eq!(VimCommand::IndentLine.execute(3, false), repeat(indent, 3));
    let outdent = [press(0x7B, COMMAND), press(0x30, SHIFT)].concat();
    assert_eq!(VimCommand::OutdentLine.execute(1, false), outdent);
}

#[test]
fn text_objects_select_the_word() {
    assert_eq!(
        VimCommand::InnerWord.execute(1, false),
        [press(0x7B, OPTION), press(0x7C, OPTION | SHIFT)].concat()
    );
    assert_eq!(
        VimCommand::AroundWord.execute(1, false),
        [press(0x7B, OPTION), press(0x7C, OPTION | SHIFT), press(0x7C, SHIFT)].concat()
    );
}

#[test]
fn clipboard_and_undo_commands() {
    assert_eq!(VimCommand::Paste.execute(1, false), press(0x09, COMMAND));
    assert_eq!(VimCommand::PasteBefore.execute(1, false), press(0x09, COMMAND));
    assert_eq!(VimCommand::Undo.execute(1, false), press(0x06, COMMAND));
    assert_eq!(VimCommand::Redo.execute(1, false), press(0x06, COMMAND | SHIFT));
}

#[test]
fn delete_with_motion_selects_then_cuts() {
    let (keys, enter_insert) = Operator::Delete.execute_with_motion(VimCommand::WordForward, 2);
    assert_eq!(
        keys,
        [repeat(press(0x7C, OPTION | SHIFT), 2), press(0x07, COMMAND)].concat()
    );
    assert!(!enter_insert);
}

#[test]
fn yank_with_motion_copies_and_steps_back() {
    let (keys, enter_insert) = Operator::Yank.execute_with_motion(VimCommand::LineEnd, 1);
    assert_eq!(
        keys,
        [press(0x7C, COMMAND | SHIFT), press(0x08, COMMAND), press(0x7B, 0)].concat()
    );
    assert!(!enter_insert);
}

#[test]
fn change_with_motion_cuts_and_asks_for_insert() {
    let (keys, enter_insert) = Operator::Change.execute_with_motion(VimCommand::WordForward, 1);
    assert_eq!(keys, [press(0x7C, OPTION | SHIFT), press(0x07, COMMAND)].concat());
    assert!(enter_insert);
}

#[test]
fn operator_effects() {
    assert_eq!(Operator::Delete.apply(), (press(0x07, COMMAND), false));
    assert_eq!(Operator::Change.apply(), (press(0x07, COMMAND), true));
    assert_eq!(
        Operator::Yank.apply(),
        ([press(0x08, COMMAND), press(0x7B, 0)].concat(), false)
    );
}

#[test]
fn repeat_keys_repeats_blocks() {
    let block = press(0x31, 0);
    assert!(repeat_keys(&block, 0).is_empty());
    assert_eq!(repeat_keys(&block, 1), block);
    assert_eq!(repeat_keys(&block, 4), repeat(block.clone(), 4));
    assert!(repeat_keys(&Vec::new(), 9).is_empty());
}

#[test]
fn command_action_executes_the_command() {
    let action = VimAction::Command { command: VimCommand::MoveDown, count: 12, select: false };
    assert_eq!(action.execute(), (repeat(press(0x7D, 0), 12), false));
}

#[test]
fn operator_motion_action() {
    let action = VimAction::OperatorMotion {
        operator: Operator::Change,
        motion: VimCommand::WordForward,
        count: 1,
    };
    assert_eq!(
        action.execute(),
        ([press(0x7C, OPTION | SHIFT), press(0x07, COMMAND)].concat(), true)
    );
}

#[test]
fn text_object_action_selects_then_applies() {
    let inner = [press(0x7B, OPTION), press(0x7C, OPTION | SHIFT)].concat();
    let delete = VimAction::TextObject {
        operator: Operator::Delete,
        text_object: VimCommand::InnerWord,
        count: 1,
    };
    assert_eq!(delete.execute(), ([inner.clone(), press(0x07, COMMAND)].concat(), false));
    let change = VimAction::TextObject {
        operator: Operator::Change,
        text_object: VimCommand::InnerWord,
        count: 2,
    };
    assert_eq!(
        change.execute(),
        ([repeat(inner.clone(), 2), press(0x07, COMMAND)].concat(), true)
    );
    let yank = VimAction::TextObject {
        operator: Operator::Yank,
        text_object: VimCommand::AroundWord,
        count: 1,
    };
    assert_eq!(
        yank.execute(),
        (
            [inner, press(0x7C, SHIFT), press(0x08, COMMAND), press(0x7B, 0)].concat(),
            false
        )
    );
}

#[test]
fn replace_char_deletes_then_types() {
    let action = VimAction::ReplaceChar { keycode: KeyCode::X, shift: true, count: 2 };
    assert_eq!(
        action.execute(),
        (repeat([press(0x75, 0), press(0x07, SHIFT)].concat(), 2), false)
    );
}

#[test]
fn cut_and_copy_actions() {
    assert_eq!(VimAction::Cut.execute(), (press(0x07, COMMAND), false));
    assert_eq!(VimAction::Copy.execute(), (press(0x08, COMMAND), false));
}
