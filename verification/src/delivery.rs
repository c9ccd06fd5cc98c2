//! Delivering the keys of an action, one by one. The caller hands each key
//! to the input stream and reports whether that succeeded; a key that was
//! refused ends the delivery, and the keys after it are never offered.

use vstd::prelude::*;

use crate::inject::InjectedKey;

verus! {

/// The progress of one delivery.
pub struct Delivery {
    keys: Vec<InjectedKey>,
    sent: usize,
    refused: bool,
}

impl Delivery {
    #[verifier::type_invariant]
    spec fn in_range(self) -> bool {
        self.sent <= self.keys@.len()
    }

    /// All keys of the action, in order.
    pub closed spec fn plan(self) -> Seq<InjectedKey> {
        self.keys@
    }

    /// How many keys were delivered so far.
    pub closed spec fn delivered(self) -> nat {
        self.sent as nat
    }

    /// Whether a key was refused.
    pub closed spec fn failed(self) -> bool {
        self.refused
    }

    /// The key to deliver next: the first undelivered one, unless a key was
    /// refused or all are delivered.
    pub open spec fn pending(self) -> Option<InjectedKey> {
        if !self.failed() && self.delivered() < self.plan().len() {
            Some(self.plan()[self.delivered() as int])
        } else {
            None
        }
    }

    /// The delivery of `keys`, of which none is delivered yet.
    pub fn new(keys: Vec<InjectedKey>) -> (delivery: Self)
        ensures
            delivery.plan() == keys@,
            delivery.delivered() == 0,
            !delivery.failed(),
    {
        Delivery { keys, sent: 0, refused: false }
    }

    /// The key to deliver next, if the delivery goes on.
    pub fn next_key(&self) -> (key: Option<InjectedKey>)
        ensures
            key == self.pending(),
            self.delivered() <= self.plan().len(),
    {
        proof {
            use_type_invariant(self);
        }
        if !self.refused && self.sent < self.keys.len() {
            Some(self.keys[self.sent])
        } else {
            None
        }
    }

    /// Records what became of the pending key: delivered, the delivery moves
    /// on to the next key; refused, the delivery ends. Where no key is
    /// pending nothing changes.
    pub fn report(&mut self, delivered: bool)
        ensures
            final(self).plan() == old(self).plan(),
            old(self).pending() is None ==> final(self).delivered() == old(self).delivered()
                && final(self).failed() == old(self).failed(),
            old(self).pending() is Some && delivered ==> final(self).delivered() == old(
                self,
            ).delivered() + 1 && !final(self).failed(),
            old(self).pending() is Some && !delivered ==> final(self).delivered() == old(
                self,
            ).delivered() && final(self).failed(),
    {
        proof {
            use_type_invariant(&*self);
        }
        if !self.refused && self.sent < self.keys.len() {
            if delivered {
                self.sent = self.sent + 1;
            } else {
                self.refused = true;
            }
        }
    }

    /// How the delivery stands: `Ok(true)` once every key is delivered,
    /// `Ok(false)` while keys are pending, and `Err` with the number of keys
    /// delivered before the refusal once a key was refused.
    pub fn outcome(&self) -> (outcome: Result<bool, usize>)
        ensures
            outcome == (if self.failed() {
                Err::<bool, usize>(self.delivered() as usize)
            } else {
                Ok::<bool, usize>(self.delivered() == self.plan().len())
            }),
            self.delivered() <= self.plan().len(),
    {
        proof {
            use_type_invariant(self);
        }
        if self.refused {
            Err(self.sent)
        } else {
            Ok(self.sent == self.keys.len())
        }
    }
}

} // verus!
