//! Readiness masks. A connection carries an `interest` mask (the events it
//! wants to be woken for) and an `event` mask (the events the poller has
//! reported); only their intersection, the effective readiness, triggers work.

use vstd::prelude::*;

verus! {

/// One event mask: the four poller bits. The empty mask has all four cleared.
#[derive(Debug, Clone, Copy, PartialEq, Eq, Structural)]
pub struct Ready {
    pub readable: bool,
    pub writable: bool,
    pub error: bool,
    pub hup: bool,
}

impl Ready {
    /// The empty mask.
    pub fn empty() -> (r: Ready)
        ensures
            r == (Ready { readable: false, writable: false, error: false, hup: false }),
    {
        Ready { readable: false, writable: false, error: false, hup: false }
    }

    /// Every bit of `self` is also set in `other`.
    pub open spec fn le(self, other: Ready) -> bool {
        &&& (self.readable ==> other.readable)
        &&& (self.writable ==> other.writable)
        &&& (self.error ==> other.error)
        &&& (self.hup ==> other.hup)
    }

    /// Bitwise union of two masks.
    pub open spec fn spec_union(self, other: Ready) -> Ready {
        Ready {
            readable: self.readable || other.readable,
            writable: self.writable || other.writable,
            error: self.error || other.error,
            hup: self.hup || other.hup,
        }
    }

    /// Bitwise intersection of two masks.
    pub open spec fn spec_intersect(self, other: Ready) -> Ready {
        Ready {
            readable: self.readable && other.readable,
            writable: self.writable && other.writable,
            error: self.error && other.error,
            hup: self.hup && other.hup,
        }
    }

    /// OR the bits of `other` into `self`.
    pub fn insert(&mut self, other: Ready)
        ensures
            *final(self) == old(self).spec_union(other),
    {
        self.readable = self.readable || other.readable;
        self.writable = self.writable || other.writable;
        self.error = self.error || other.error;
        self.hup = self.hup || other.hup;
    }

    /// Clear the readable bit.
    pub fn remove_readable(&mut self)
        ensures
            *final(self) == (Ready { readable: false, ..*old(self) }),
    {
        self.readable = false;
    }

    /// Clear the writable bit.
    pub fn remove_writable(&mut self)
        ensures
            *final(self) == (Ready { writable: false, ..*old(self) }),
    {
        self.writable = false;
    }

    /// Set the readable bit.
    pub fn insert_readable(&mut self)
        ensures
            *final(self) == (Ready { readable: true, ..*old(self) }),
    {
        self.readable = true;
    }

    /// Set the writable bit.
    pub fn insert_writable(&mut self)
        ensures
            *final(self) == (Ready { writable: true, ..*old(self) }),
    {
        self.writable = true;
    }

    /// Set the hup bit.
    pub fn insert_hup(&mut self)
        ensures
            *final(self) == (Ready { hup: true, ..*old(self) }),
    {
        self.hup = true;
    }

    /// Set the error bit.
    pub fn insert_error(&mut self)
        ensures
            *final(self) == (Ready { error: true, ..*old(self) }),
    {
        self.error = true;
    }

    pub fn is_readable(&self) -> (r: bool)
        ensures
            r == self.readable,
    {
        self.readable
    }

    pub fn is_writable(&self) -> (r: bool)
        ensures
            r == self.writable,
    {
        self.writable
    }

    pub fn is_error(&self) -> (r: bool)
        ensures
            r == self.error,
    {
        self.error
    }

    pub fn is_hup(&self) -> (r: bool)
        ensures
            r == self.hup,
    {
        self.hup
    }
}

/// The readiness state of one connection: what it wants and what it got.
#[derive(Debug, Clone, Copy, PartialEq, Eq, Structural)]
pub struct Readiness {
    pub interest: Ready,
    pub event: Ready,
}

impl Readiness {
    /// Effective readiness as a spec value.
    pub open spec fn spec_filter_interest(self) -> Ready {
        self.interest.spec_intersect(self.event)
    }

    /// Effective readiness: only events that are also of interest.
    pub fn filter_interest(&self) -> (r: Ready)
        ensures
            r == self.spec_filter_interest(),
    {
        Ready {
            readable: self.interest.readable && self.event.readable,
            writable: self.interest.writable && self.event.writable,
            error: self.interest.error && self.event.error,
            hup: self.interest.hup && self.event.hup,
        }
    }

    /// Initial readiness of a server-position connection: interested in
    /// readable, hup and error, with no event pending.
    pub fn new_server() -> (r: Readiness)
        ensures
            r.interest == (Ready { readable: true, writable: false, error: true, hup: true }),
            r.event == (Ready { readable: false, writable: false, error: false, hup: false }),
    {
        Readiness {
            interest: Ready { readable: true, writable: false, error: true, hup: true },
            event: Ready { readable: false, writable: false, error: false, hup: false },
        }
    }

    /// Initial readiness of a client-position connection: interested in
    /// writable, hup and error, with no event pending.
    pub fn new_client() -> (r: Readiness)
        ensures
            r.interest == (Ready { readable: false, writable: true, error: true, hup: true }),
            r.event == (Ready { readable: false, writable: false, error: false, hup: false }),
    {
        Readiness {
            interest: Ready { readable: false, writable: true, error: true, hup: true },
            event: Ready { readable: false, writable: false, error: false, hup: false },
        }
    }
}

/// One readiness evolved from another without losing a close condition:
/// hup and error events are never dropped, and interest in them never
/// changes.
pub open spec fn spec_keeps_close_bits(pre: Readiness, post: Readiness) -> bool {
    &&& (pre.event.hup ==> post.event.hup)
    &&& (pre.event.error ==> post.event.error)
    &&& post.interest.hup == pre.interest.hup
    &&& post.interest.error == pre.interest.error
}

/// Effective readiness implies interest: a bit set in the effective mask is
/// set in the interest mask, so an event outside the interest mask never
/// triggers work.
pub proof fn lemma_effective_implies_interest(r: Readiness)
    ensures
        r.spec_filter_interest().le(r.interest),
        r.spec_filter_interest().le(r.event),
{
}

} // verus!
