use ovim::commands::{Operator, VimCommand};
use ovim::keycode::{KeyCode, KeyEvent, Modifiers};
use ovim::modes::VimMode;
use ovim::state::{ProcessResult, VimAction, VimState};
use tokio::sync::broadcast::error::TryRecvError;
use tokio::sync::broadcast::Receiver;

fn none() -> Modifiers {
    Modifiers::default()
}

fn shift() -> Modifiers {
    Modifiers { shift: true, ..Modifiers::default() }
}

fn control() -> Modifiers {
    Modifiers { control: true, ..Modifiers::default() }
}

fn down(key: KeyCode) -> KeyEvent {
    KeyEvent { code: key.as_raw(), modifiers: none(), is_key_down: true }
}

fn down_with(key: KeyCode, modifiers: Modifiers) -> KeyEvent {
    KeyEvent { code: key.as_raw(), modifiers, is_key_down: true }
}

fn up(key: KeyCode) -> KeyEvent {
    KeyEvent { code: key.as_raw(), modifiers: none(), is_key_down: false }
}

fn command(command: VimCommand, count: u32) -> ProcessResult {
    ProcessResult::SuppressWithAction(VimAction::Command { command, count, select: false })
}

fn selecting(command: VimCommand, count: u32) -> ProcessResult {
    ProcessResult::SuppressWithAction(VimAction::Command { command, count, select: true })
}

fn normal() -> (VimState, Receiver<VimMode>) {
    let (mut state, mut rx) = VimState::new();
    state.set_mode_external(VimMode::Normal);
    assert_eq!(rx.try_recv(), Ok(VimMode::Normal));
    (state, rx)
}

fn visual() -> (VimState, Receiver<VimMode>) {
    let (mut state, mut rx) = VimState::new();
    state.set_mode_external(VimMode::Visual);
    assert_eq!(rx.try_recv(), Ok(VimMode::Visual));
    (state, rx)
}

fn press_all(state: &mut VimState, keys: &[KeyCode]) -> Vec<ProcessResult> {
    keys.iter().map(|key| state.process_key(down(*key))).collect()
}

#[test]
fn starts_in_insert_mode_with_nothing_pending() {
    let (state, mut rx) = VimState::new();
    assert_eq!(state.mode(), VimMode::Insert);
    assert_eq!(state.pending_count(), None);
    assert_eq!(state.pending_operator(), None);
    assert_eq!(state.get_pending_keys(), "");
    assert_eq!(rx.try_recv(), Err(TryRecvError::Empty));
    assert_eq!(VimState::default().mode(), VimMode::Insert);
    assert_eq!(VimMode::default(), VimMode::Insert);
}

#[test]
fn mode_names() {
    assert_eq!(VimMode::Insert.as_str(), "insert");
    assert_eq!(VimMode::Normal.as_str(), "normal");
    assert_eq!(VimMode::Visual.as_str(), "visual");
}

#[test]
fn insert_mode_passes_every_key() {
    let (mut state, _rx) = VimState::new();
    for key in [KeyCode::H, KeyCode::D, KeyCode::Escape, KeyCode::Num5, KeyCode::V] {
        assert_eq!(state.process_key(down(key)), ProcessResult::PassThrough);
        assert_eq!(state.process_key(up(key)), ProcessResult::PassThrough);
    }
    assert_eq!(state.mode(), VimMode::Insert);
    assert_eq!(state.get_pending_keys(), "");
}

#[test]
fn unknown_key_codes_pass() {
    let (mut state, _rx) = normal();
    let event = KeyEvent { code: 0x0A, modifiers: none(), is_key_down: true };
    assert_eq!(state.process_key(event), ProcessResult::PassThrough);
    let release = KeyEvent { code: 0x0A, modifiers: none(), is_key_down: false };
    assert_eq!(state.process_key(release), ProcessResult::PassThrough);
}

#[test]
fn count_accumulation() {
    let (mut state, _rx) = normal();
    assert_eq!(state.process_key(down(KeyCode::Num1)), ProcessResult::Suppress);
    assert_eq!(state.process_key(down(KeyCode::Num2)), ProcessResult::Suppress);
    assert_eq!(state.pending_count(), Some(12));
    assert_eq!(state.get_pending_keys(), "12");
    assert_eq!(state.process_key(down(KeyCode::J)), command(VimCommand::MoveDown, 12));
    assert_eq!(state.pending_count(), None);
}

#[test]
fn leading_zero_is_line_start() {
    let (mut state, _rx) = normal();
    assert_eq!(state.process_key(down(KeyCode::Num0)), command(VimCommand::LineStart, 1));
    assert_eq!(state.pending_count(), None);
}

#[test]
fn zero_after_digits_is_a_digit() {
    let (mut state, _rx) = normal();
    let results = press_all(&mut state, &[KeyCode::Num1, KeyCode::Num0, KeyCode::Num0]);
    assert_eq!(results, vec![ProcessResult::Suppress; 3]);
    assert_eq!(state.pending_count(), Some(100));
    assert_eq!(state.process_key(down(KeyCode::L)), command(VimCommand::MoveRight, 100));
}

#[test]
fn shifted_digits_are_not_counted() {
    let (mut state, _rx) = normal();
    assert_eq!(
        state.process_key(down_with(KeyCode::Num4, shift())),
        command(VimCommand::LineEnd, 1)
    );
    assert_eq!(
        state.process_key(down_with(KeyCode::Num6, shift())),
        command(VimCommand::LineStart, 1)
    );
    assert_eq!(state.pending_count(), None);
}

#[test]
fn operator_cancellation_by_escape() {
    let (mut state, mut rx) = normal();
    assert_eq!(state.process_key(down(KeyCode::D)), ProcessResult::Suppress);
    assert_eq!(state.pending_operator(), Some(Operator::Delete));
    assert_eq!(
        state.process_key(down(KeyCode::Escape)),
        ProcessResult::ModeChanged(VimMode::Insert, None)
    );
    assert_eq!(state.pending_operator(), None);
    assert_eq!(state.mode(), VimMode::Insert);
    assert_eq!(rx.try_recv(), Ok(VimMode::Insert));
    assert_eq!(rx.try_recv(), Err(TryRecvError::Empty));
}

#[test]
fn operator_cancellation_by_unrelated_key() {
    let (mut state, _rx) = normal();
    press_all(&mut state, &[KeyCode::Num3, KeyCode::D]);
    assert_eq!(state.get_pending_keys(), "3d");
    assert_eq!(state.process_key(down(KeyCode::Q)), ProcessResult::Suppress);
    assert_eq!(state.pending_operator(), None);
    assert_eq!(state.pending_count(), None);
    assert_eq!(state.mode(), VimMode::Normal);
    assert_eq!(state.process_key(down(KeyCode::W)), command(VimCommand::WordForward, 1));
}

#[test]
fn doubled_operator() {
    let (mut state, _rx) = normal();
    assert_eq!(state.process_key(down(KeyCode::D)), ProcessResult::Suppress);
    assert_eq!(state.process_key(down(KeyCode::D)), command(VimCommand::DeleteLine, 1));
    assert_eq!(state.pending_operator(), None);
}

#[test]
fn doubled_operator_with_count() {
    let (mut state, _rx) = normal();
    let results = press_all(&mut state, &[KeyCode::Num3, KeyCode::D, KeyCode::D]);
    assert_eq!(
        results,
        vec![
            ProcessResult::Suppress,
            ProcessResult::Suppress,
            command(VimCommand::DeleteLine, 3)
        ]
    );
    assert_eq!(state.get_pending_keys(), "");
}

#[test]
fn doubled_yank_and_change() {
    let (mut state, mut rx) = normal();
    press_all(&mut state, &[KeyCode::Num2, KeyCode::Y]);
    assert_eq!(state.process_key(down(KeyCode::Y)), command(VimCommand::YankLine, 2));
    assert_eq!(state.mode(), VimMode::Normal);
    state.process_key(down(KeyCode::C));
    assert_eq!(
        state.process_key(down(KeyCode::C)),
        ProcessResult::ModeChanged(
            VimMode::Insert,
            Some(VimAction::Command { command: VimCommand::ChangeLine, count: 1, select: false })
        )
    );
    assert_eq!(state.mode(), VimMode::Insert);
    assert_eq!(rx.try_recv(), Ok(VimMode::Insert));
}

#[test]
fn mismatched_operator_key_cancels() {
    let (mut state, _rx) = normal();
    state.process_key(down(KeyCode::D));
    assert_eq!(state.process_key(down(KeyCode::Y)), ProcessResult::Suppress);
    assert_eq!(state.pending_operator(), None);
}

#[test]
fn change_then_insert() {
    let (mut state, mut rx) = normal();
    assert_eq!(state.process_key(down(KeyCode::C)), ProcessResult::Suppress);
    assert_eq!(state.pending_operator(), Some(Operator::Change));
    assert_eq!(
        state.process_key(down(KeyCode::W)),
        ProcessResult::ModeChanged(
            VimMode::Insert,
            Some(VimAction::OperatorMotion {
                operator: Operator::Change,
                motion: VimCommand::WordForward,
                count: 1
            })
        )
    );
    assert_eq!(state.mode(), VimMode::Insert);
    assert_eq!(state.pending_operator(), None);
    assert_eq!(rx.try_recv(), Ok(VimMode::Insert));
}

#[test]
fn operator_with_motions() {
    let cases = [
        (KeyCode::H, none(), VimCommand::MoveLeft),
        (KeyCode::J, none(), VimCommand::MoveDown),
        (KeyCode::K, none(), VimCommand::MoveUp),
        (KeyCode::L, none(), VimCommand::MoveRight),
        (KeyCode::W, none(), VimCommand::WordForward),
        (KeyCode::E, none(), VimCommand::WordEnd),
        (KeyCode::B, none(), VimCommand::WordBackward),
        (KeyCode::Num4, shift(), VimCommand::LineEnd),
        (KeyCode::Num6, shift(), VimCommand::LineStart),
        (KeyCode::Minus, shift(), VimCommand::LineStart),
        (KeyCode::LeftBracket, shift(), VimCommand::ParagraphUp),
        (KeyCode::RightBracket, shift(), VimCommand::ParagraphDown),
        (KeyCode::G, shift(), VimCommand::DocumentEnd),
    ];
    for (key, modifiers, motion) in cases {
        let (mut state, _rx) = normal();
        state.process_key(down(KeyCode::Num2));
        state.process_key(down(KeyCode::D));
        assert_eq!(
            state.process_key(down_with(key, modifiers)),
            ProcessResult::SuppressWithAction(VimAction::OperatorMotion {
                operator: Operator::Delete,
                motion,
                count: 2
            })
        );
        assert_eq!(state.get_pending_keys(), "");
        assert_eq!(state.mode(), VimMode::Normal);
    }
}

#[test]
fn operator_then_zero_is_line_start_motion() {
    let (mut state, _rx) = normal();
    state.process_key(down(KeyCode::Y));
    assert_eq!(
        state.process_key(down(KeyCode::Num0)),
        ProcessResult::SuppressWithAction(VimAction::OperatorMotion {
            operator: Operator::Yank,
            motion: VimCommand::LineStart,
            count: 1
        })
    );
}

#[test]
fn count_after_operator() {
    let (mut state, _rx) = normal();
    press_all(&mut state, &[KeyCode::D, KeyCode::Num3]);
    assert_eq!(state.get_pending_keys(), "3d");
    assert_eq!(
        state.process_key(down(KeyCode::W)),
        ProcessResult::SuppressWithAction(VimAction::OperatorMotion {
            operator: Operator::Delete,
            motion: VimCommand::WordForward,
            count: 3
        })
    );
}

#[test]
fn text_objects_after_operator() {
    let (mut state, _rx) = normal();
    press_all(&mut state, &[KeyCode::D, KeyCode::I]);
    assert_eq!(state.get_pending_keys(), "di");
    assert_eq!(
        state.process_key(down(KeyCode::W)),
        ProcessResult::SuppressWithAction(VimAction::TextObject {
            operator: Operator::Delete,
            text_object: VimCommand::InnerWord,
            count: 1
        })
    );
    assert_eq!(state.get_pending_keys(), "");

    press_all(&mut state, &[KeyCode::Num2, KeyCode::Y, KeyCode::A]);
    assert_eq!(state.get_pending_keys(), "2ya");
    assert_eq!(
        state.process_key(down(KeyCode::W)),
        ProcessResult::SuppressWithAction(VimAction::TextObject {
            operator: Operator::Yank,
            text_object: VimCommand::AroundWord,
            count: 2
        })
    );
}

#[test]
fn change_inner_word_enters_insert() {
    let (mut state, mut rx) = normal();
    press_all(&mut state, &[KeyCode::C, KeyCode::I]);
    assert_eq!(
        state.process_key(down(KeyCode::W)),
        ProcessResult::ModeChanged(
            VimMode::Insert,
            Some(VimAction::TextObject {
                operator: Operator::Change,
                text_object: VimCommand::InnerWord,
                count: 1
            })
        )
    );
    assert_eq!(state.mode(), VimMode::Insert);
    assert_eq!(rx.try_recv(), Ok(VimMode::Insert));
}

#[test]
fn invalid_text_object_resets_everything() {
    let (mut state, _rx) = normal();
    press_all(&mut state, &[KeyCode::Num4, KeyCode::D, KeyCode::I]);
    assert_eq!(state.process_key(down(KeyCode::X)), ProcessResult::Suppress);
    assert_eq!(state.get_pending_keys(), "");
    assert_eq!(state.pending_operator(), None);
    assert_eq!(state.pending_count(), None);
    assert_eq!(state.mode(), VimMode::Normal);
}

#[test]
fn g_combinations() {
    let cases = [
        (KeyCode::G, none(), command(VimCommand::DocumentStart, 1)),
        (KeyCode::E, none(), command(VimCommand::WordEndBackward, 3)),
        (KeyCode::J, none(), command(VimCommand::MoveDown, 3)),
        (KeyCode::K, none(), command(VimCommand::MoveUp, 3)),
        (KeyCode::Num0, none(), command(VimCommand::LineStart, 1)),
        (KeyCode::Num4, shift(), command(VimCommand::LineEnd, 1)),
        (KeyCode::X, none(), ProcessResult::PassThrough),
        (KeyCode::Num4, none(), ProcessResult::PassThrough),
    ];
    for (key, modifiers, expected) in cases {
        let (mut state, _rx) = normal();
        press_all(&mut state, &[KeyCode::Num3, KeyCode::G]);
        assert_eq!(state.get_pending_keys(), "3g");
        assert_eq!(state.process_key(down_with(key, modifiers)), expected);
        assert_eq!(state.get_pending_keys(), "");
    }
}

#[test]
fn shift_g_goes_to_document_end() {
    let (mut state, _rx) = normal();
    assert_eq!(
        state.process_key(down_with(KeyCode::G, shift())),
        command(VimCommand::DocumentEnd, 1)
    );
}

#[test]
fn g_combinations_complete_a_pending_operator() {
    let cases = [
        (KeyCode::G, none(), VimCommand::DocumentStart),
        (KeyCode::E, none(), VimCommand::WordEndBackward),
        (KeyCode::J, none(), VimCommand::MoveDown),
        (KeyCode::K, none(), VimCommand::MoveUp),
        (KeyCode::Num0, none(), VimCommand::LineStart),
        (KeyCode::Num4, shift(), VimCommand::LineEnd),
    ];
    for (key, modifiers, motion) in cases {
        let (mut state, _rx) = normal();
        press_all(&mut state, &[KeyCode::Num2, KeyCode::D, KeyCode::G]);
        assert_eq!(state.get_pending_keys(), "2dg");
        assert_eq!(
            state.process_key(down_with(key, modifiers)),
            ProcessResult::SuppressWithAction(VimAction::OperatorMotion {
                operator: Operator::Delete,
                motion,
                count: 2
            })
        );
        assert_eq!(state.get_pending_keys(), "");
        assert_eq!(state.pending_operator(), None);
    }
}

#[test]
fn change_to_document_start_enters_insert() {
    let (mut state, mut rx) = normal();
    press_all(&mut state, &[KeyCode::C, KeyCode::G]);
    assert_eq!(
        state.process_key(down(KeyCode::G)),
        ProcessResult::ModeChanged(
            VimMode::Insert,
            Some(VimAction::OperatorMotion {
                operator: Operator::Change,
                motion: VimCommand::DocumentStart,
                count: 1
            })
        )
    );
    assert_eq!(state.mode(), VimMode::Insert);
    assert_eq!(rx.try_recv(), Ok(VimMode::Insert));
}

#[test]
fn unresolved_key_after_operator_and_g_cancels_and_passes() {
    let (mut state, _rx) = normal();
    press_all(&mut state, &[KeyCode::Num2, KeyCode::D, KeyCode::G]);
    assert_eq!(state.process_key(down(KeyCode::X)), ProcessResult::PassThrough);
    assert_eq!(state.get_pending_keys(), "");
    assert_eq!(state.pending_operator(), None);
    assert_eq!(state.mode(), VimMode::Normal);
}

#[test]
fn replace_char() {
    let (mut state, _rx) = normal();
    assert_eq!(state.process_key(down(KeyCode::R)), ProcessResult::Suppress);
    assert_eq!(state.get_pending_keys(), "r");
    assert_eq!(
        state.process_key(down_with(KeyCode::X, shift())),
        ProcessResult::SuppressWithAction(VimAction::ReplaceChar {
            keycode: KeyCode::X,
            shift: true,
            count: 1
        })
    );
    assert_eq!(state.get_pending_keys(), "");
}

#[test]
fn replace_char_with_count_and_digit() {
    let (mut state, _rx) = normal();
    press_all(&mut state, &[KeyCode::Num2, KeyCode::R]);
    assert_eq!(state.get_pending_keys(), "2r");
    assert_eq!(
        state.process_key(down(KeyCode::Num7)),
        ProcessResult::SuppressWithAction(VimAction::ReplaceChar {
            keycode: KeyCode::Num7,
            shift: false,
            count: 2
        })
    );
}

#[test]
fn replace_char_cancelled_by_unprintable_key() {
    let (mut state, _rx) = normal();
    state.process_key(down(KeyCode::R));
    assert_eq!(state.process_key(down(KeyCode::Tab)), ProcessResult::Suppress);
    assert_eq!(state.get_pending_keys(), "");
    assert_eq!(state.process_key(down(KeyCode::H)), command(VimCommand::MoveLeft, 1));
}

#[test]
fn shift_r_passes_through() {
    let (mut state, _rx) = normal();
    assert_eq!(
        state.process_key(down_with(KeyCode::R, shift())),
        ProcessResult::PassThrough
    );
    assert_eq!(state.get_pending_keys(), "");
}

#[test]
fn indent_and_outdent() {
    let (mut state, _rx) = normal();
    assert_eq!(
        state.process_key(down_with(KeyCode::Period, shift())),
        ProcessResult::Suppress
    );
    assert_eq!(state.get_pending_keys(), ">");
    assert_eq!(
        state.process_key(down_with(KeyCode::Period, shift())),
        command(VimCommand::IndentLine, 1)
    );
    state.process_key(down(KeyCode::Num3));
    assert_eq!(
        state.process_key(down_with(KeyCode::Comma, shift())),
        ProcessResult::Suppress
    );
    assert_eq!(state.get_pending_keys(), "3<");
    assert_eq!(
        state.process_key(down_with(KeyCode::Comma, shift())),
        command(VimCommand::OutdentLine, 3)
    );
    assert_eq!(state.get_pending_keys(), "");
}

#[test]
fn indent_cancelled_by_other_key() {
    let (mut state, _rx) = normal();
    state.process_key(down_with(KeyCode::Period, shift()));
    assert_eq!(
        state.process_key(down_with(KeyCode::Comma, shift())),
        ProcessResult::PassThrough
    );
    assert_eq!(state.get_pending_keys(), "");
    state.process_key(down_with(KeyCode::Comma, shift()));
    assert_eq!(state.process_key(down(KeyCode::J)), ProcessResult::PassThrough);
    assert_eq!(state.get_pending_keys(), "");
}

#[test]
fn unshifted_period_and_comma_pass() {
    let (mut state, _rx) = normal();
    assert_eq!(state.process_key(down(KeyCode::Period)), ProcessResult::PassThrough);
    assert_eq!(state.process_key(down(KeyCode::Comma)), ProcessResult::PassThrough);
}

#[test]
fn control_combinations() {
    let cases = [
        (KeyCode::F, VimCommand::PageDown),
        (KeyCode::B, VimCommand::PageUp),
        (KeyCode::D, VimCommand::HalfPageDown),
        (KeyCode::U, VimCommand::HalfPageUp),
        (KeyCode::R, VimCommand::Redo),
    ];
    for (key, expected) in cases {
        let (mut state, _rx) = normal();
        state.process_key(down(KeyCode::Num2));
        assert_eq!(state.process_key(down_with(key, control())), command(expected, 2));
        assert_eq!(state.get_pending_keys(), "");
    }
    let (mut state, _rx) = normal();
    assert_eq!(
        state.process_key(down_with(KeyCode::H, control())),
        ProcessResult::PassThrough
    );
}

#[test]
fn normal_mode_motions() {
    let cases = [
        (KeyCode::H, none(), command(VimCommand::MoveLeft, 5)),
        (KeyCode::J, none(), command(VimCommand::MoveDown, 5)),
        (KeyCode::J, shift(), command(VimCommand::JoinLines, 5)),
        (KeyCode::K, none(), command(VimCommand::MoveUp, 5)),
        (KeyCode::L, none(), command(VimCommand::MoveRight, 5)),
        (KeyCode::W, none(), command(VimCommand::WordForward, 5)),
        (KeyCode::E, none(), command(VimCommand::WordEnd, 5)),
        (KeyCode::B, none(), command(VimCommand::WordBackward, 5)),
        (KeyCode::Minus, shift(), command(VimCommand::LineStart, 1)),
        (KeyCode::LeftBracket, shift(), command(VimCommand::ParagraphUp, 5)),
        (KeyCode::RightBracket, shift(), command(VimCommand::ParagraphDown, 5)),
        (KeyCode::X, none(), command(VimCommand::DeleteChar, 5)),
        (KeyCode::X, shift(), command(VimCommand::DeleteCharBefore, 5)),
        (KeyCode::P, none(), command(VimCommand::Paste, 5)),
        (KeyCode::P, shift(), command(VimCommand::PasteBefore, 5)),
        (KeyCode::U, none(), command(VimCommand::Undo, 5)),
        (KeyCode::D, shift(), command(VimCommand::DeleteToLineEnd, 5)),
        (KeyCode::Y, shift(), command(VimCommand::YankLine, 5)),
        (KeyCode::Minus, none(), ProcessResult::PassThrough),
        (KeyCode::LeftBracket, none(), ProcessResult::PassThrough),
        (KeyCode::Q, none(), ProcessResult::PassThrough),
        (KeyCode::Space, none(), ProcessResult::PassThrough),
        (KeyCode::Return, none(), ProcessResult::PassThrough),
    ];
    for (key, modifiers, expected) in cases {
        let (mut state, _rx) = normal();
        state.process_key(down(KeyCode::Num5));
        assert_eq!(state.process_key(down_with(key, modifiers)), expected);
        assert_eq!(state.pending_count(), None);
        assert_eq!(state.mode(), VimMode::Normal);
    }
}

#[test]
fn entries_to_insert_mode() {
    let cases = [
        (KeyCode::I, none(), None),
        (KeyCode::I, shift(), Some((VimCommand::InsertAtLineStart, 1))),
        (KeyCode::A, none(), Some((VimCommand::AppendAfterCursor, 1))),
        (KeyCode::A, shift(), Some((VimCommand::AppendAtLineEnd, 1))),
        (KeyCode::O, none(), Some((VimCommand::OpenLineBelow, 1))),
        (KeyCode::O, shift(), Some((VimCommand::OpenLineAbove, 1))),
        (KeyCode::S, none(), Some((VimCommand::SubstituteChar, 4))),
        (KeyCode::S, shift(), Some((VimCommand::SubstituteLine, 4))),
        (KeyCode::C, shift(), Some((VimCommand::ChangeToLineEnd, 4))),
    ];
    for (key, modifiers, expected) in cases {
        let (mut state, mut rx) = normal();
        state.process_key(down(KeyCode::Num4));
        let action = expected
            .map(|(command, count)| VimAction::Command { command, count, select: false });
        assert_eq!(
            state.process_key(down_with(key, modifiers)),
            ProcessResult::ModeChanged(VimMode::Insert, action)
        );
        assert_eq!(state.mode(), VimMode::Insert);
        assert_eq!(state.get_pending_keys(), "");
        assert_eq!(rx.try_recv(), Ok(VimMode::Insert));
        assert_eq!(rx.try_recv(), Err(TryRecvError::Empty));
    }
}

#[test]
fn escape_in_normal_mode_leads_to_insert() {
    let (mut state, mut rx) = normal();
    assert_eq!(
        state.process_key(down(KeyCode::Escape)),
        ProcessResult::ModeChanged(VimMode::Insert, None)
    );
    assert_eq!(state.mode(), VimMode::Insert);
    assert_eq!(rx.try_recv(), Ok(VimMode::Insert));
}

#[test]
fn v_enters_visual_mode() {
    let (mut state, mut rx) = normal();
    assert_eq!(
        state.process_key(down(KeyCode::V)),
        ProcessResult::ModeChanged(VimMode::Visual, None)
    );
    assert_eq!(state.mode(), VimMode::Visual);
    assert_eq!(rx.try_recv(), Ok(VimMode::Visual));
}

#[test]
fn visual_mode_leaves_to_normal_on_escape_and_v() {
    for key in [KeyCode::Escape, KeyCode::V] {
        let (mut state, mut rx) = visual();
        state.process_key(down(KeyCode::Num2));
        assert_eq!(
            state.process_key(down(key)),
            ProcessResult::ModeChanged(VimMode::Normal, None)
        );
        assert_eq!(state.mode(), VimMode::Normal);
        assert_eq!(state.pending_count(), None);
        assert_eq!(rx.try_recv(), Ok(VimMode::Normal));
    }
}

#[test]
fn visual_mode_motions_select() {
    let cases = [
        (KeyCode::H, none(), selecting(VimCommand::MoveLeft, 2)),
        (KeyCode::J, none(), selecting(VimCommand::MoveDown, 2)),
        (KeyCode::K, none(), selecting(VimCommand::MoveUp, 2)),
        (KeyCode::L, none(), selecting(VimCommand::MoveRight, 2)),
        (KeyCode::W, none(), selecting(VimCommand::WordForward, 2)),
        (KeyCode::E, none(), selecting(VimCommand::WordForward, 2)),
        (KeyCode::B, none(), selecting(VimCommand::WordBackward, 2)),
        (KeyCode::Num4, shift(), selecting(VimCommand::LineEnd, 1)),
        (KeyCode::Num6, shift(), selecting(VimCommand::LineStart, 1)),
        (KeyCode::LeftBracket, shift(), selecting(VimCommand::ParagraphUp, 2)),
        (KeyCode::RightBracket, shift(), selecting(VimCommand::ParagraphDown, 2)),
        (KeyCode::G, shift(), selecting(VimCommand::DocumentEnd, 1)),
        (KeyCode::Minus, shift(), ProcessResult::PassThrough),
        (KeyCode::I, shift(), ProcessResult::PassThrough),
        (KeyCode::P, none(), ProcessResult::PassThrough),
    ];
    for (key, modifiers, expected) in cases {
        let (mut state, _rx) = visual();
        state.process_key(down(KeyCode::Num2));
        assert_eq!(state.process_key(down_with(key, modifiers)), expected);
        assert_eq!(state.mode(), VimMode::Visual);
        assert_eq!(state.pending_count(), None);
    }
    let (mut state, _rx) = visual();
    assert_eq!(state.process_key(down(KeyCode::Num0)), selecting(VimCommand::LineStart, 1));
}

#[test]
fn visual_mode_operators_act_on_the_selection() {
    let cases = [
        (KeyCode::D, VimMode::Normal, VimAction::Cut),
        (KeyCode::X, VimMode::Normal, VimAction::Cut),
        (KeyCode::Y, VimMode::Normal, VimAction::Copy),
        (KeyCode::C, VimMode::Insert, VimAction::Cut),
    ];
    for (key, mode, action) in cases {
        let (mut state, mut rx) = visual();
        assert_eq!(
            state.process_key(down(key)),
            ProcessResult::ModeChanged(mode, Some(action))
        );
        assert_eq!(state.mode(), mode);
        assert_eq!(state.pending_operator(), None);
        assert_eq!(rx.try_recv(), Ok(mode));
    }
}

#[test]
fn visual_g_combinations() {
    let (mut state, _rx) = visual();
    press_all(&mut state, &[KeyCode::Num3, KeyCode::G]);
    assert_eq!(state.process_key(down(KeyCode::G)), selecting(VimCommand::DocumentStart, 1));
    press_all(&mut state, &[KeyCode::Num3, KeyCode::G]);
    assert_eq!(state.process_key(down(KeyCode::E)), selecting(VimCommand::WordEndBackward, 3));
    state.process_key(down(KeyCode::G));
    assert_eq!(state.process_key(down(KeyCode::J)), ProcessResult::PassThrough);
    assert_eq!(state.get_pending_keys(), "");
}

#[test]
fn visual_text_objects() {
    let (mut state, _rx) = visual();
    assert_eq!(state.process_key(down(KeyCode::I)), ProcessResult::Suppress);
    assert_eq!(state.get_pending_keys(), "i");
    assert_eq!(state.process_key(down(KeyCode::W)), command(VimCommand::InnerWord, 1));
    assert_eq!(state.process_key(down(KeyCode::A)), ProcessResult::Suppress);
    assert_eq!(state.process_key(down(KeyCode::W)), command(VimCommand::AroundWord, 1));
    state.process_key(down(KeyCode::A));
    assert_eq!(state.process_key(down(KeyCode::H)), ProcessResult::PassThrough);
    assert_eq!(state.get_pending_keys(), "");
    assert_eq!(state.mode(), VimMode::Visual);
}

#[test]
fn key_up_is_suppressed_for_interpreted_keys() {
    let suppressed = [
        KeyCode::H, KeyCode::J, KeyCode::K, KeyCode::L, KeyCode::W, KeyCode::E, KeyCode::B,
        KeyCode::Num0, KeyCode::Num1, KeyCode::Num2, KeyCode::Num3, KeyCode::Num4,
        KeyCode::Num5, KeyCode::Num6, KeyCode::Num7, KeyCode::Num8, KeyCode::Num9,
        KeyCode::G, KeyCode::R, KeyCode::D, KeyCode::Y, KeyCode::C, KeyCode::X, KeyCode::I,
        KeyCode::A, KeyCode::O, KeyCode::S, KeyCode::V, KeyCode::P, KeyCode::U,
        KeyCode::LeftBracket, KeyCode::RightBracket, KeyCode::Period, KeyCode::Comma,
    ];
    for (mut state, _rx) in [normal(), visual()] {
        let mut count = 0;
        for code in 0..=0x7Fu16 {
            let Some(key) = KeyCode::from_raw(code) else { continue };
            let expected = if suppressed.contains(&key) {
                count += 1;
                ProcessResult::Suppress
            } else {
                ProcessResult::PassThrough
            };
            assert_eq!(state.process_key(up(key)), expected);
        }
        assert_eq!(count, 34);
    }
}

#[test]
fn key_up_changes_no_state() {
    let (mut state, mut rx) = normal();
    press_all(&mut state, &[KeyCode::Num2, KeyCode::D]);
    for key in [KeyCode::D, KeyCode::Escape, KeyCode::W, KeyCode::Num2, KeyCode::V] {
        state.process_key(up(key));
    }
    assert_eq!(state.get_pending_keys(), "2d");
    assert_eq!(state.mode(), VimMode::Normal);
    assert_eq!(rx.try_recv(), Err(TryRecvError::Empty));
}

#[test]
fn toggle_round_trip() {
    let (mut state, mut rx) = VimState::new();
    assert_eq!(
        state.handle_vim_key(),
        ProcessResult::ModeChanged(VimMode::Normal, None)
    );
    assert_eq!(state.mode(), VimMode::Normal);
    assert_eq!(
        state.handle_vim_key(),
        ProcessResult::ModeChanged(VimMode::Insert, None)
    );
    assert_eq!(state.mode(), VimMode::Insert);
    assert_eq!(state.get_pending_keys(), "");
    assert_eq!(rx.try_recv(), Ok(VimMode::Normal));
    assert_eq!(rx.try_recv(), Ok(VimMode::Insert));
    assert_eq!(rx.try_recv(), Err(TryRecvError::Empty));
}

#[test]
fn toggle_from_visual_leads_to_insert() {
    let (mut state, mut rx) = visual();
    assert_eq!(
        state.handle_vim_key(),
        ProcessResult::ModeChanged(VimMode::Insert, None)
    );
    assert_eq!(rx.try_recv(), Ok(VimMode::Insert));
    let (mut state, _rx) = visual();
    assert_eq!(state.toggle_mode(), VimMode::Insert);
}

#[test]
fn toggle_mode_returns_the_new_mode() {
    let (mut state, mut rx) = VimState::new();
    assert_eq!(state.toggle_mode(), VimMode::Normal);
    assert_eq!(state.mode(), VimMode::Normal);
    assert_eq!(state.toggle_mode(), VimMode::Insert);
    assert_eq!(state.mode(), VimMode::Insert);
    assert_eq!(rx.try_recv(), Ok(VimMode::Normal));
    assert_eq!(rx.try_recv(), Ok(VimMode::Insert));
    assert_eq!(rx.try_recv(), Err(TryRecvError::Empty));
}

#[test]
fn mode_change_drops_pending_state() {
    let (mut state, _rx) = normal();
    press_all(&mut state, &[KeyCode::Num2, KeyCode::D, KeyCode::I]);
    assert_eq!(state.get_pending_keys(), "2di");
    state.set_mode_external(VimMode::Visual);
    assert_eq!(state.get_pending_keys(), "");
    assert_eq!(state.pending_operator(), None);
}

#[test]
fn same_mode_request_is_not_announced_and_keeps_pending_state() {
    let (mut state, mut rx) = normal();
    press_all(&mut state, &[KeyCode::Num2, KeyCode::D]);
    state.set_mode_external(VimMode::Normal);
    assert_eq!(state.get_pending_keys(), "2d");
    assert_eq!(rx.try_recv(), Err(TryRecvError::Empty));
    let (mut state, mut rx) = VimState::new();
    state.set_mode_external(VimMode::Insert);
    assert_eq!(rx.try_recv(), Err(TryRecvError::Empty));
}

#[test]
fn every_mode_change_is_announced_once_in_order() {
    let (mut state, mut rx) = VimState::new();
    state.set_mode_external(VimMode::Normal);
    state.process_key(down(KeyCode::V));
    state.process_key(down(KeyCode::Escape));
    state.process_key(down(KeyCode::I));
    state.set_mode_external(VimMode::Visual);
    state.process_key(down(KeyCode::C));
    let mut heard = Vec::new();
    while let Ok(mode) = rx.try_recv() {
        heard.push(mode);
    }
    assert_eq!(
        heard,
        vec![
            VimMode::Normal,
            VimMode::Visual,
            VimMode::Normal,
            VimMode::Insert,
            VimMode::Visual,
            VimMode::Insert
        ]
    );
    assert_eq!(state.mode(), VimMode::Insert);
}

#[test]
fn machine_works_without_listeners() {
    let mut state = VimState::default();
    assert_eq!(state.toggle_mode(), VimMode::Normal);
    assert_eq!(state.process_key(down(KeyCode::J)), command(VimCommand::MoveDown, 1));
}

#[test]
fn pending_keys_display() {
    let (mut state, _rx) = normal();
    press_all(&mut state, &[KeyCode::Num1, KeyCode::Num0, KeyCode::Num7]);
    assert_eq!(state.get_pending_keys(), "107");
    state.process_key(down(KeyCode::C));
    assert_eq!(state.get_pending_keys(), "107c");
    state.process_key(down(KeyCode::A));
    assert_eq!(state.get_pending_keys(), "107ca");
    let (mut state, _rx) = normal();
    press_all(&mut state, &[KeyCode::Y, KeyCode::G]);
    assert_eq!(state.get_pending_keys(), "yg");
}

#[test]
fn accepts_key_guards_the_count() {
    let (mut state, _rx) = normal();
    // 429496729 is the largest count to which any digit up to 5 can be appended.
    for key in [
        KeyCode::Num4, KeyCode::Num2, KeyCode::Num9, KeyCode::Num4, KeyCode::Num9,
        KeyCode::Num6, KeyCode::Num7, KeyCode::Num2, KeyCode::Num9,
    ] {
        assert!(state.accepts_key(down(key)));
        assert_eq!(state.process_key(down(key)), ProcessResult::Suppress);
    }
    assert_eq!(state.pending_count(), Some(429_496_729));
    assert!(state.accepts_key(down(KeyCode::Num5)));
    assert!(!state.accepts_key(down(KeyCode::Num6)));
    assert!(!state.accepts_key(down(KeyCode::Num9)));
    // Keys that are not read as digits are always accepted.
    assert!(state.accepts_key(down(KeyCode::J)));
    assert!(state.accepts_key(up(KeyCode::Num9)));
    assert!(state.accepts_key(down_with(KeyCode::Num9, shift())));
    assert!(state.accepts_key(down(KeyCode::Escape)));
    assert_eq!(state.process_key(down(KeyCode::Num5)), ProcessResult::Suppress);
    assert_eq!(state.pending_count(), Some(u32::MAX));
    assert!(!state.accepts_key(down(KeyCode::Num0)));
    assert_eq!(state.process_key(down(KeyCode::J)), command(VimCommand::MoveDown, u32::MAX));
}

#[test]
fn digit_after_r_is_accepted_whatever_the_count() {
    let (mut state, _rx) = normal();
    for key in [
        KeyCode::Num4, KeyCode::Num2, KeyCode::Num9, KeyCode::Num4, KeyCode::Num9,
        KeyCode::Num6, KeyCode::Num7, KeyCode::Num2, KeyCode::Num9, KeyCode::Num5,
    ] {
        state.process_key(down(key));
    }
    state.process_key(down(KeyCode::R));
    assert!(state.accepts_key(down(KeyCode::Num9)));
    assert_eq!(
        state.process_key(down(KeyCode::Num9)),
        ProcessResult::SuppressWithAction(VimAction::ReplaceChar {
            keycode: KeyCode::Num9,
            shift: false,
            count: u32::MAX
        })
    );
}
