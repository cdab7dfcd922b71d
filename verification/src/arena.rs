//! The startup arena: a registry over the three process-wide singleton
//! storage slots — the radio driver state, the stack instance, and the
//! stack's connection-table resources. Each slot can be claimed at most
//! once; a claim of a taken slot fails and changes nothing, so a rejected
//! bring-up attempt leaves the arena exactly as it found it.

use vstd::prelude::*;

verus! {

/// Claim bookkeeping for the three singleton storage slots.
pub struct Arena {
    radio: bool,
    stack: bool,
    resources: bool,
}

impl Arena {
    /// Whether the radio driver state slot has been claimed.
    pub closed spec fn radio_claimed(self) -> bool {
        self.radio
    }

    /// Whether the stack instance slot has been claimed.
    pub closed spec fn stack_claimed(self) -> bool {
        self.stack
    }

    /// Whether the connection-table resources slot has been claimed.
    pub closed spec fn resources_claimed(self) -> bool {
        self.resources
    }

    /// A fresh arena with every slot unclaimed.
    pub fn new() -> (a: Arena)
        ensures
            !a.radio_claimed(),
            !a.stack_claimed(),
            !a.resources_claimed(),
    {
        Arena { radio: false, stack: false, resources: false }
    }

    /// Whether the radio driver state slot has been claimed.
    pub fn is_radio_claimed(&self) -> (r: bool)
        ensures
            r == self.radio_claimed(),
    {
        self.radio
    }

    /// Whether the stack instance slot has been claimed.
    pub fn is_stack_claimed(&self) -> (r: bool)
        ensures
            r == self.stack_claimed(),
    {
        self.stack
    }

    /// Whether the connection-table resources slot has been claimed.
    pub fn is_resources_claimed(&self) -> (r: bool)
        ensures
            r == self.resources_claimed(),
    {
        self.resources
    }

    /// Claim the radio driver state slot. Succeeds exactly when the slot was
    /// free; a claim of a taken slot fails and leaves the arena unchanged,
    /// whatever happened before or after.
    pub fn claim_radio(&mut self) -> (r: bool)
        ensures
            r == !old(self).radio_claimed(),
            final(self).radio_claimed(),
            final(self).stack_claimed() == old(self).stack_claimed(),
            final(self).resources_claimed() == old(self).resources_claimed(),
            !r ==> *final(self) == *old(self),
    {
        if self.radio {
            false
        } else {
            self.radio = true;
            true
        }
    }

    /// Claim the stack instance slot and the connection-table resources slot
    /// together. Succeeds exactly when both were free; otherwise neither is
    /// claimed and the arena is left unchanged, so no partial claim can
    /// survive a failed attempt.
    pub fn claim_stack_pair(&mut self) -> (r: bool)
        ensures
            r == (!old(self).stack_claimed() && !old(self).resources_claimed()),
            final(self).radio_claimed() == old(self).radio_claimed(),
            r ==> final(self).stack_claimed() && final(self).resources_claimed(),
            !r ==> *final(self) == *old(self),
    {
        if self.stack || self.resources {
            false
        } else {
            self.stack = true;
            self.resources = true;
            true
        }
    }
}

} // verus!
