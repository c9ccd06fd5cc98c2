//! The decisions of the capture side: what becomes of each event that the
//! system-wide keyboard hook observes, and when the hook runs, stops and is
//! re-armed. Installing the hook and running its loop is the caller's part;
//! the caller reports each event here and acts on the answer.

use vstd::prelude::*;

use crate::commands::VimCommand;
use crate::inject::{
    all_marked, lemma_concat_is_marked, lemma_press_is_marked, lemma_repeated_is_marked,
    InjectedKey, INJECTED_EVENT_MARKER,
};
use crate::keycode::{KeyEvent, Modifiers};
use crate::state::{Machine, ProcessResult, VimAction};

verus! {

/// Event type of a key going down.
pub const EVENT_TYPE_KEY_DOWN: u32 = 10;

/// Event type of a key going up.
pub const EVENT_TYPE_KEY_UP: u32 = 11;

/// Event type of a change of the modifier keys alone.
pub const EVENT_TYPE_FLAGS_CHANGED: u32 = 12;

/// Event type by which the system tells that it disabled the hook because
/// the hook was too slow.
pub const EVENT_TYPE_TAP_DISABLED_BY_TIMEOUT: u32 = 0xFFFF_FFFE;

/// Event type by which the system tells that the hook was disabled by the
/// user.
pub const EVENT_TYPE_TAP_DISABLED_BY_USER: u32 = 0xFFFF_FFFF;

/// An event as the hook observes it.
#[derive(Debug, Clone, Copy, PartialEq, Eq, Structural)]
pub struct TapEvent {
    /// What kind of event this is.
    pub event_type: u32,
    /// The key code field; its low 16 bits are the virtual key code.
    pub keycode: i64,
    /// The modifier flag word.
    pub flags: u64,
    /// The user-data field, in which synthetic keys carry the marker.
    pub user_data: i64,
}

/// What the hook does with an observed event.
#[derive(Debug, Clone, Copy, PartialEq, Eq, Structural)]
pub enum Routing {
    /// Hand the event back untouched, unseen by the classifier.
    Untouched,
    /// The hook was disabled: hand the event back untouched and re-arm the
    /// hook.
    Rearm,
    /// Ask the classifier about this key event.
    Classify(KeyEvent),
}

/// What the hook hands back to the system for an event.
#[derive(Debug, Clone, Copy, PartialEq, Eq, Structural)]
pub enum TapAnswer {
    /// The observed event itself: it reaches the focused application.
    Original,
    /// No event at all: the key is suppressed.
    Null,
}

/// What the hook's loop does next.
#[derive(Debug, Clone, Copy, PartialEq, Eq, Structural)]
pub enum LoopStep {
    /// Capture was stopped: leave the loop.
    Exit,
    /// The hook was disabled: enable it again, then wait for events.
    Rearm,
    /// Wait for events for one interval.
    Wait,
}

impl TapEvent {
    /// Whether the event tells that the hook was disabled.
    pub open spec fn tells_disabled(self) -> bool {
        self.event_type == EVENT_TYPE_TAP_DISABLED_BY_TIMEOUT || self.event_type
            == EVENT_TYPE_TAP_DISABLED_BY_USER
    }

    /// Whether the event carries the injection marker.
    pub open spec fn is_injected(self) -> bool {
        self.user_data == INJECTED_EVENT_MARKER
    }

    /// The event in the form in which the classifier sees it.
    pub open spec fn key_event(self) -> KeyEvent {
        KeyEvent {
            code: self.keycode as u16,
            modifiers: Modifiers::of_flags(self.flags),
            is_key_down: self.event_type == EVENT_TYPE_KEY_DOWN,
        }
    }

    /// What the hook does with the event. A notice that the hook was
    /// disabled asks for re-arming. An event that carries the injection
    /// marker, a change of modifiers alone, and any event that is neither
    /// key-down nor key-up go back untouched. Only what is left is
    /// classified.
    pub open spec fn routing(self) -> Routing {
        if self.tells_disabled() {
            Routing::Rearm
        } else if self.is_injected() {
            Routing::Untouched
        } else if self.event_type != EVENT_TYPE_KEY_DOWN && self.event_type != EVENT_TYPE_KEY_UP {
            Routing::Untouched
        } else {
            Routing::Classify(self.key_event())
        }
    }

    /// Decides what the hook does with this event.
    pub fn route(&self) -> (routing: Routing)
        ensures
            routing == self.routing(),
    {
        if self.event_type == EVENT_TYPE_TAP_DISABLED_BY_TIMEOUT || self.event_type
            == EVENT_TYPE_TAP_DISABLED_BY_USER {
            return Routing::Rearm;
        }
        if self.user_data == INJECTED_EVENT_MARKER {
            return Routing::Untouched;
        }
        if self.event_type == EVENT_TYPE_FLAGS_CHANGED {
            return Routing::Untouched;
        }
        if self.event_type != EVENT_TYPE_KEY_DOWN && self.event_type != EVENT_TYPE_KEY_UP {
            return Routing::Untouched;
        }
        Routing::Classify(
            KeyEvent {
                code: #[verifier::truncate]
                (self.keycode as u16),
                modifiers: Modifiers::from_cg_flags(self.flags),
                is_key_down: self.event_type == EVENT_TYPE_KEY_DOWN,
            },
        )
    }
}

impl InjectedKey {
    /// The event that the hook observes when this synthetic key comes back
    /// to it through the input stream.
    pub open spec fn observed(self) -> TapEvent {
        TapEvent {
            event_type: if self.key_down {
                EVENT_TYPE_KEY_DOWN
            } else {
                EVENT_TYPE_KEY_UP
            },
            keycode: self.code as i64,
            flags: self.flags,
            user_data: self.user_data,
        }
    }

    /// The event under which this synthetic key comes back to the hook.
    pub fn as_tap_event(&self) -> (event: TapEvent)
        ensures
            event == self.observed(),
    {
        TapEvent {
            event_type: if self.key_down {
                EVENT_TYPE_KEY_DOWN
            } else {
                EVENT_TYPE_KEY_UP
            },
            keycode: self.code as i64,
            flags: self.flags,
            user_data: self.user_data,
        }
    }
}

impl ProcessResult {
    /// What is handed back to the hook for `event` under this result:
    /// `None` suppresses the event, `Some` passes it on.
    pub open spec fn reply_for(self, event: KeyEvent) -> Option<KeyEvent> {
        if self.suppresses() {
            None
        } else {
            Some(event)
        }
    }

    /// What is handed back to the hook for `event` under this result.
    pub fn reply(&self, event: KeyEvent) -> (answer: Option<KeyEvent>)
        ensures
            answer == self.reply_for(event),
    {
        match self {
            ProcessResult::PassThrough => Some(event),
            _ => None,
        }
    }

    /// The action to hand to a worker once the event has been answered, if
    /// the verdict names one.
    pub fn deferred_action(&self) -> (action: Option<VimAction>)
        ensures
            action == self.action(),
    {
        match self {
            ProcessResult::SuppressWithAction(action) => Some(*action),
            ProcessResult::ModeChanged(_, action) => *action,
            _ => None,
        }
    }
}

/// The hook's answer to the system for a classifier's answer: a suppressed
/// event is answered by no event at all, never by the event itself.
pub open spec fn answer_for(verdict: Option<KeyEvent>) -> TapAnswer {
    match verdict {
        Some(_) => TapAnswer::Original,
        None => TapAnswer::Null,
    }
}

/// The life cycle of the capture: whether it runs, and whether the hook has
/// to be re-armed.
#[derive(Debug, Clone, Copy, PartialEq, Eq, Structural)]
pub struct KeyboardCapture {
    running: bool,
    needs_reenable: bool,
}

impl KeyboardCapture {
    /// Whether the capture runs.
    pub closed spec fn running(self) -> bool {
        self.running
    }

    /// Whether the hook was disabled and has not been re-armed since.
    pub closed spec fn disarmed(self) -> bool {
        self.needs_reenable
    }

    /// A capture that does not run.
    pub fn new() -> (capture: Self)
        ensures
            !capture.running(),
            !capture.disarmed(),
    {
        KeyboardCapture { running: false, needs_reenable: false }
    }

    /// Starts the capture. Returns whether the caller has to install the
    /// hook now: starting a capture that runs already does nothing.
    pub fn start(&mut self) -> (install: bool)
        ensures
            final(self).running(),
            install == !old(self).running(),
            final(self).disarmed() == (old(self).running() && old(self).disarmed()),
    {
        if self.running {
            return false;
        }
        self.running = true;
        self.needs_reenable = false;
        true
    }

    /// Records that the hook could not be installed: the capture does not
    /// run.
    pub fn install_failed(&mut self)
        ensures
            !final(self).running(),
            final(self).disarmed() == old(self).disarmed(),
    {
        self.running = false;
    }

    /// Stops the capture: the hook's loop leaves at its next step.
    pub fn stop(&mut self)
        ensures
            !final(self).running(),
            final(self).disarmed() == old(self).disarmed(),
    {
        self.running = false;
    }

    /// Whether the capture runs.
    pub fn is_running(&self) -> (running: bool)
        ensures
            running == self.running(),
    {
        self.running
    }

    /// The next step of the hook's loop: leave once the capture is stopped;
    /// re-arm the hook once after it was disabled; else wait.
    pub fn next_step(&mut self) -> (step: LoopStep)
        ensures
            final(self).running() == old(self).running(),
            step == (if !old(self).running() {
                LoopStep::Exit
            } else if old(self).disarmed() {
                LoopStep::Rearm
            } else {
                LoopStep::Wait
            }),
            final(self).disarmed() == (old(self).disarmed() && !old(self).running()),
    {
        if !self.running {
            return LoopStep::Exit;
        }
        if self.needs_reenable {
            self.needs_reenable = false;
            return LoopStep::Rearm;
        }
        LoopStep::Wait
    }

    /// Answers one observed event. A notice that the hook was disabled is
    /// recorded for the loop and goes back untouched. The classifier is
    /// asked about the events that are routed to it and about no others; the
    /// event is suppressed exactly when the classifier answers `None`.
    /// Without a classifier every event goes back untouched.
    pub fn event_callback<F: Fn(KeyEvent) -> Option<KeyEvent>>(
        &mut self,
        event: TapEvent,
        callback: Option<&F>,
    ) -> (answer: TapAnswer)
        requires
            match (event.routing(), callback) {
                (Routing::Classify(key_event), Some(classifier)) => call_requires(
                    *classifier,
                    (key_event,),
                ),
                _ => true,
            },
        ensures
            final(self).running() == old(self).running(),
            final(self).disarmed() == (old(self).disarmed() || event.routing() is Rearm),
            match (event.routing(), callback) {
                (Routing::Classify(key_event), Some(classifier)) => exists|
                    verdict: Option<KeyEvent>,
                |
                    #[trigger] call_ensures(*classifier, (key_event,), verdict) && answer
                        == answer_for(verdict),
                _ => answer == TapAnswer::Original,
            },
    {
        match event.route() {
            Routing::Rearm => {
                self.needs_reenable = true;
                TapAnswer::Original
            },
            Routing::Untouched => TapAnswer::Original,
            Routing::Classify(key_event) => {
                match callback {
                    Some(classifier) => {
                        let verdict = classifier(key_event);
                        assert(call_ensures(*classifier, (key_event,), verdict));
                        match verdict {
                            Some(_) => TapAnswer::Original,
                            None => TapAnswer::Null,
                        }
                    },
                    None => TapAnswer::Original,
                }
            },
        }
    }
}

impl Default for KeyboardCapture {
    fn default() -> (capture: Self)
        ensures
            !capture.running(),
            !capture.disarmed(),
    {
        KeyboardCapture::new()
    }
}

impl Machine {
    /// The state after the hook has observed `event`: the machine sees the
    /// event only if it is routed to the classifier.
    pub open spec fn observing(self, event: TapEvent) -> Machine {
        match event.routing() {
            Routing::Classify(key_event) => self.on_key(key_event).0,
            _ => self,
        }
    }

    /// The state after the hook has observed `events`, in order.
    pub open spec fn observing_all(self, events: Seq<TapEvent>) -> Machine
        decreases events.len(),
    {
        if events.len() == 0 {
            self
        } else {
            self.observing(events[0]).observing_all(events.skip(1))
        }
    }
}

/// An event that carries the injection marker is never classified.
pub proof fn lemma_injected_is_never_classified(event: TapEvent)
    requires
        event.is_injected(),
    ensures
        !(event.routing() is Classify),
{
}

/// Every key that a catalog command produces carries the injection marker.
pub proof fn lemma_command_keys_are_marked(command: VimCommand, count: u32, select: bool)
    ensures
        all_marked(command.keys(count, select)),
{
    broadcast use {lemma_press_is_marked, lemma_concat_is_marked, lemma_repeated_is_marked};

    assert(all_marked(Seq::<InjectedKey>::empty()));
}

/// Every key that an action produces carries the injection marker.
pub proof fn lemma_action_keys_are_marked(action: VimAction)
    ensures
        all_marked(action.keys()),
{
    broadcast use {lemma_press_is_marked, lemma_concat_is_marked, lemma_repeated_is_marked};

    match action {
        VimAction::Command { command, count, select } => {
            lemma_command_keys_are_marked(command, count, select);
        },
        VimAction::OperatorMotion { operator, motion, count } => {
            lemma_command_keys_are_marked(motion, count, true);
        },
        VimAction::TextObject { operator, text_object, count } => {
            lemma_command_keys_are_marked(text_object, 1, false);
        },
        _ => {},
    }
}

/// Marked keys that come back to the hook leave the machine as it is: none
/// of them reaches the classifier.
pub proof fn lemma_marked_keys_change_nothing(m: Machine, keys: Seq<InjectedKey>)
    requires
        all_marked(keys),
    ensures
        m.observing_all(keys.map_values(|key: InjectedKey| key.observed())) == m,
    decreases keys.len(),
{
    let events = keys.map_values(|key: InjectedKey| key.observed());
    if keys.len() > 0 {
        assert(events[0].is_injected());
        assert(m.observing(events[0]) == m);
        let rest = keys.skip(1);
        assert(all_marked(rest)) by {
            assert forall|i: int| 0 <= i < rest.len() implies (#[trigger] rest[i]).user_data
                == INJECTED_EVENT_MARKER by {
                assert(rest[i] == keys[i + 1]);
            }
        }
        assert(events.skip(1) =~= rest.map_values(|key: InjectedKey| key.observed()));
        lemma_marked_keys_change_nothing(m, rest);
    }
}

/// The engine does not react to its own output: when the keys of any
/// action come back to the hook, mode and pending state stay as they are.
pub proof fn lemma_own_output_is_ignored(m: Machine, action: VimAction)
    ensures
        m.observing_all(action.keys().map_values(|key: InjectedKey| key.observed())) == m,
{
    lemma_action_keys_are_marked(action);
    lemma_marked_keys_change_nothing(m, action.keys());
}

} // verus!
