//! What holds of the state machine in every state and after every sequence
//! of inputs.

use vstd::prelude::*;

use super::model::{Input, Machine};
use super::ProcessResult;
use crate::keycode::KeyEvent;
use crate::modes::VimMode;

verus! {

/// The initial state is consistent and truthful, with nothing pending.
pub proof fn lemma_initial_is_sound()
    ensures
        Machine::initial().wf(),
        Machine::initial().truthful(),
        Machine::initial().idle(),
{
}

/// A request for a mode leaves a consistent state consistent and a truthful
/// one truthful; after it the requested mode is active, and if the mode
/// changed nothing is pending and the change was announced exactly once.
pub proof fn lemma_entered_is_sound(m: Machine, mode: VimMode)
    ensures
        m.entered(mode).mode == mode,
        m.wf() ==> m.entered(mode).wf(),
        m.truthful() ==> m.entered(mode).truthful(),
        m.mode != mode ==> m.entered(mode).idle() && m.entered(mode).announced
            == m.announced.push(mode),
        m.mode == mode ==> m.entered(mode) == m,
{
    let n = m.entered(mode);
    if m.truthful() && m.mode != mode {
        assert forall|i: int| 0 < i < n.announced.len() implies #[trigger] n.announced[i]
            != n.announced[i - 1] by {
            if i < m.announced.len() {
                assert(m.announced[i] != m.announced[i - 1]);
            }
        }
    }
}

/// A key event leaves a consistent state consistent.
pub proof fn lemma_key_keeps_wf(m: Machine, event: KeyEvent)
    requires
        m.wf(),
    ensures
        m.on_key(event).0.wf(),
{
}

/// The verdict tells of every change of mode. When the verdict is
/// `ModeChanged`, the mode named in it differs from the old one and is now
/// active, nothing is pending, and the change was announced exactly once.
/// With any other verdict the mode stays and nothing is announced.
pub proof fn lemma_mode_changes_are_told(m: Machine, event: KeyEvent)
    ensures
        match m.on_key(event).1 {
            ProcessResult::ModeChanged(mode, _) => {
                &&& mode != m.mode
                &&& m.on_key(event).0.mode == mode
                &&& m.on_key(event).0.idle()
                &&& m.on_key(event).0.announced == m.announced.push(mode)
            },
            _ => {
                &&& m.on_key(event).0.mode == m.mode
                &&& m.on_key(event).0.announced == m.announced
            },
        },
{
}

/// A key event leaves a truthful state truthful.
pub proof fn lemma_key_keeps_truthful(m: Machine, event: KeyEvent)
    requires
        m.truthful(),
    ensures
        m.on_key(event).0.truthful(),
{
    lemma_mode_changes_are_told(m, event);
    match m.on_key(event).1 {
        ProcessResult::ModeChanged(mode, _) => {
            lemma_entered_is_sound(m, mode);
            assert(m.on_key(event).0.announced == m.entered(mode).announced);
        },
        _ => {},
    }
}

/// In insert mode every key event passes through and changes nothing.
pub proof fn lemma_insert_mode_passes_all(m: Machine, event: KeyEvent)
    requires
        m.mode == VimMode::Insert,
    ensures
        m.on_key(event) == (m, ProcessResult::PassThrough),
{
}

/// A key-up event never changes the state, whatever the mode.
pub proof fn lemma_key_up_changes_nothing(m: Machine, event: KeyEvent)
    requires
        !event.is_key_down,
    ensures
        m.on_key(event).0 == m,
        m.on_key(event).1 is Suppress || m.on_key(event).1 is PassThrough,
{
}

/// A pending replace, `g`, text object or indent governs exactly one key:
/// whatever key goes down next resolves or cancels the command, and nothing
/// is pending afterwards.
pub proof fn lemma_governed_key_settles(m: Machine, event: KeyEvent)
    requires
        m.wf(),
        m.governed(),
        event.is_key_down,
        event.key() is Some,
    ensures
        m.on_key(event).0.idle(),
{
}

/// Pending state outlives a key only where the key is absorbed into a
/// command that is still being typed: after a key-down that is passed
/// through, or that completes a command or changes the mode, nothing is
/// pending.
pub proof fn lemma_only_absorbed_keys_leave_pending_state(m: Machine, event: KeyEvent)
    requires
        m.wf(),
        event.is_key_down,
        event.key() is Some,
        !(m.on_key(event).1 is Suppress),
    ensures
        m.on_key(event).0.idle(),
{
}

/// Counts start at 1: where the pending count is at least 1 and the event
/// can be processed, the pending count is at least 1 afterwards, and so is
/// the count of the action that the verdict names.
pub proof fn lemma_counts_are_positive(m: Machine, event: KeyEvent)
    requires
        m.counts_from_one(),
        m.accepts(event),
    ensures
        m.on_key(event).0.counts_from_one(),
        match m.on_key(event).1.action() {
            Some(action) => action.repeats() >= 1,
            None => true,
        },
{
}

/// A key that is suppressed never reaches the focused application, and a
/// key that passes reaches it unchanged: the answer for an event is `None`
/// exactly when the verdict suppresses, and else the event itself.
pub proof fn lemma_reply_follows_verdict(m: Machine, event: KeyEvent)
    ensures
        m.on_key(event).1.reply_for(event) is None <==> m.on_key(event).1.suppresses(),
        m.on_key(event).1.reply_for(event) matches Some(passed) ==> passed == event,
{
}

/// Any single input leaves a consistent and truthful state so.
pub proof fn lemma_input_is_sound(m: Machine, input: Input)
    requires
        m.wf(),
        m.truthful(),
    ensures
        m.after(input).wf(),
        m.after(input).truthful(),
{
    match input {
        Input::Key(event) => {
            lemma_key_keeps_wf(m, event);
            lemma_key_keeps_truthful(m, event);
        },
        Input::VimKey | Input::Toggle => {
            lemma_entered_is_sound(m, m.toggle_target());
        },
        Input::SetMode(mode) => {
            lemma_entered_is_sound(m, mode);
        },
    }
}

/// After any sequence of key events and outside directives the state is
/// consistent, and the active mode is the one that was announced last
/// (insert mode if none was): a listener that replays the announcements
/// always knows the mode.
pub proof fn lemma_mode_follows_announcements(m: Machine, inputs: Seq<Input>)
    requires
        m.wf(),
        m.truthful(),
    ensures
        m.after_all(inputs).wf(),
        m.after_all(inputs).truthful(),
    decreases inputs.len(),
{
    if inputs.len() > 0 {
        lemma_input_is_sound(m, inputs[0]);
        lemma_mode_follows_announcements(m.after(inputs[0]), inputs.skip(1));
    }
}

/// The announcements only grow: what was announced before a sequence of
/// inputs is a prefix of what is announced after it.
pub proof fn lemma_announcements_only_grow(m: Machine, inputs: Seq<Input>)
    ensures
        m.announced.is_prefix_of(m.after_all(inputs).announced),
    decreases inputs.len(),
{
    if inputs.len() > 0 {
        let n = m.after(inputs[0]);
        match inputs[0] {
            Input::Key(event) => {
                lemma_mode_changes_are_told(m, event);
            },
            _ => {},
        }
        assert(m.announced.is_prefix_of(n.announced));
        lemma_announcements_only_grow(n, inputs.skip(1));
        let last = m.after_all(inputs).announced;
        assert(m.announced =~= last.subrange(0, m.announced.len() as int)) by {
            assert(n.announced =~= last.subrange(0, n.announced.len() as int));
        }
    }
}

/// Toggling twice from insert mode leads back to insert mode with nothing
/// pending, and announces exactly two changes: to normal, then to insert.
pub proof fn lemma_toggle_round_trip(m: Machine)
    requires
        m.mode == VimMode::Insert,
    ensures
        m.toggled().toggled().mode == VimMode::Insert,
        m.toggled().toggled().idle(),
        m.toggled().toggled().announced == m.announced + seq![VimMode::Normal, VimMode::Insert],
{
    assert(m.toggled().toggled().announced =~= m.announced + seq![
        VimMode::Normal,
        VimMode::Insert,
    ]);
}

} // verus!
