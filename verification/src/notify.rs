//! The start rendezvous.
//!
//! The barrier is bound before any descendant process is spawned, so
//! there is no race between "container process waiting" and "external
//! start signal arrives". The init sequencer blocks on it immediately
//! before the final process replacement; accepting the start signal is
//! the only way that block is released, and only one accept happens per
//! listener lifetime.

use vstd::prelude::*;

verus! {

/// Where the rendezvous stands in its lifetime.
#[derive(Debug, Clone, Copy, PartialEq, Eq, Structural)]
pub enum NotifyState {
    /// Bound and able to accept the one start signal.
    Bound,
    /// The start signal was accepted and the barrier is open.
    Released,
    /// Torn down; nothing can be accepted any more.
    Closed,
}

/// The rendezvous point that holds the container process until the
/// external start command arrives.
#[derive(Debug, Clone, Copy, PartialEq, Eq, Structural)]
pub struct NotifyBarrier {
    pub state: NotifyState,
    /// Whether the one start signal of this lifetime was accepted.
    pub accepted: bool,
}

impl NotifyBarrier {
    /// A barrier can accept only while bound, and never accepts twice.
    pub open spec fn wf(self) -> bool {
        self.state is Bound ==> !self.accepted
    }

    /// Binds the rendezvous, before any descendant exists.
    pub fn bind() -> (r: NotifyBarrier)
        ensures
            r.wf(),
            r.state is Bound,
            !r.accepted,
    {
        NotifyBarrier { state: NotifyState::Bound, accepted: false }
    }

    /// Accepts the external start signal and opens the barrier. Legal
    /// only while bound, so a second accept in one lifetime cannot be
    /// reached.
    pub fn accept_start(&mut self)
        requires
            old(self).wf(),
            old(self).state is Bound,
        ensures
            final(self).wf(),
            final(self).state is Released,
            final(self).accepted,
    {
        self.state = NotifyState::Released;
        self.accepted = true;
    }

    /// Tears the rendezvous down, once the signal was delivered or the
    /// operation is abandoned.
    pub fn close(&mut self)
        requires
            old(self).wf(),
        ensures
            final(self).wf(),
            final(self).state is Closed,
            final(self).accepted == old(self).accepted,
    {
        self.state = NotifyState::Closed;
    }
}

/// One step of the barrier's life: accept the start signal while
/// bound, or tear the rendezvous down.
pub open spec fn notify_step(pre: NotifyBarrier, post: NotifyBarrier) -> bool {
    ||| (pre.state is Bound && post == NotifyBarrier {
        state: NotifyState::Released,
        accepted: true,
    })
    ||| post == NotifyBarrier { state: NotifyState::Closed, accepted: pre.accepted }
}

/// Only one accept happens per listener lifetime: a step accepts only
/// from `Bound`, no step ever returns to `Bound`, and every step
/// preserves well-formedness — so once the signal was accepted, no
/// later step can accept again.
pub proof fn lemma_single_accept(pre: NotifyBarrier, post: NotifyBarrier)
    requires
        pre.wf(),
        notify_step(pre, post),
    ensures
        post.wf(),
        !(post.state is Bound),
        post.accepted != pre.accepted ==> pre.state is Bound && post.state is Released,
{
}

} // verus!
