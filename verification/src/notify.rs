//! Announcing mode changes to listeners over a broadcast channel.

use tokio::sync::broadcast::{Receiver, Sender};
use vstd::prelude::*;

use crate::modes::VimMode;

verus! {

/// The sending half of a `tokio` broadcast channel.
#[verifier::external_type_specification]
#[verifier::external_body]
#[verifier::reject_recursive_types(T)]
pub struct ExSender<T>(tokio::sync::broadcast::Sender<T>);

/// The receiving half of a `tokio` broadcast channel.
#[verifier::external_type_specification]
#[verifier::external_body]
#[verifier::reject_recursive_types(T)]
pub struct ExReceiver<T>(tokio::sync::broadcast::Receiver<T>);

/// Opens a broadcast channel that retains up to `capacity` unread modes,
/// with one receiver subscribed.
///
/// Calls `tokio::sync::broadcast::channel`, which panics on a capacity of
/// zero or above `usize::MAX / 2`; nothing is claimed of the two halves.
#[verifier::external_body]
fn open_channel(capacity: usize) -> (ends: (Sender<VimMode>, Receiver<VimMode>))
    requires
        0 < capacity <= usize::MAX / 2,
{
    tokio::sync::broadcast::channel(capacity)
}

/// Hands `mode` to every receiver subscribed at this moment.
///
/// Calls `Sender::send` and drops its answer: with no receiver left the
/// mode is lost, which is no error to the engine.
#[verifier::external_body]
fn send_mode(tx: &Sender<VimMode>, mode: VimMode) {
    let _ = tx.send(mode);
}

/// How many unread announcements the channel keeps for a slow listener.
pub const ANNOUNCEMENT_BACKLOG: usize = 16;

/// The outlet for mode announcements: the channel's sending half, and a
/// record of every mode handed to it, in order.
pub struct ModeBus {
    tx: Sender<VimMode>,
    sent: Ghost<Seq<VimMode>>,
}

impl ModeBus {
    /// The modes announced so far, oldest first.
    pub closed spec fn announced(&self) -> Seq<VimMode> {
        self.sent@
    }

    /// A fresh outlet on which nothing has been announced, and the receiver
    /// that listens to it.
    pub fn open() -> (ends: (ModeBus, Receiver<VimMode>))
        ensures
            ends.0.announced() == Seq::<VimMode>::empty(),
    {
        let (tx, rx) = open_channel(ANNOUNCEMENT_BACKLOG);
        (ModeBus { tx, sent: Ghost(Seq::empty()) }, rx)
    }

    /// Announces `mode` once.
    pub fn announce(&mut self, mode: VimMode)
        ensures
            final(self).announced() == old(self).announced().push(mode),
    {
        send_mode(&self.tx, mode);
        proof {
            self.sent@ = self.sent@.push(mode);
        }
    }
}

} // verus!
