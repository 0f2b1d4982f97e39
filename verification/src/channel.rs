//! The synchronization channel between the managing process and one
//! forked descendant.
//!
//! Messages on one channel are strictly ordered, and every structured
//! error raised in a descendant is forwarded as a message rather than
//! causing a silent exit. Closure of the peer without a final message
//! is distinguishable from an explicit error report and is itself a
//! protocol failure.

use vstd::prelude::*;

use crate::error::{ChannelError, InitProcessError};

verus! {

/// One structured message exchanged over the channel.
#[derive(Debug, Clone, PartialEq, Eq)]
pub enum SyncMessage {
    /// A freshly forked child finished its own stage; the intermediate
    /// process reports the init process id this way.
    Ready(i32),
    /// The init process finished container setup and stands at the
    /// start barrier.
    InitFinishedSetup,
    /// The external start command was issued.
    StartNow,
    /// A descendant failed; the structured cause travels to the parent,
    /// which alone turns it into the caller-visible failure.
    ErrorReport(InitProcessError),
}

/// One direction of the channel: the messages sent and not yet
/// received, in order, and whether the sending peer has gone.
pub struct Channel {
    queue: Vec<SyncMessage>,
    closed: bool,
}

impl Channel {
    /// The messages in flight, oldest first.
    pub closed spec fn msgs(&self) -> Seq<SyncMessage> {
        self.queue@
    }

    /// The sending peer is gone; nothing further will arrive.
    pub closed spec fn is_closed(&self) -> bool {
        self.closed
    }

    pub fn new() -> (r: Channel)
        ensures
            r.msgs() == Seq::<SyncMessage>::empty(),
            !r.is_closed(),
    {
        Channel { queue: Vec::new(), closed: false }
    }

    /// Sends one message; sending blocks only the calling process and
    /// never reorders: the message goes behind everything in flight.
    pub fn send(&mut self, m: SyncMessage)
        requires
            !old(self).is_closed(),
        ensures
            final(self).msgs() == old(self).msgs().push(m),
            !final(self).is_closed(),
    {
        self.queue.push(m);
    }

    /// The sending peer exits; anything already in flight stays
    /// receivable.
    pub fn close(&mut self)
        ensures
            final(self).msgs() == old(self).msgs(),
            final(self).is_closed(),
    {
        self.closed = true;
    }

    /// Whether a receive would find a message or a closed channel; a
    /// receive on an open, empty channel would block instead.
    pub fn ready_to_receive(&self) -> (r: bool)
        ensures
            r == (self.msgs().len() > 0 || self.is_closed()),
    {
        self.queue.len() > 0 || self.closed
    }

    /// Receives the oldest message in flight. An empty channel whose
    /// peer is gone is a protocol failure — the peer died without its
    /// final message — never silent success.
    pub fn recv(&mut self) -> (r: Result<SyncMessage, ChannelError>)
        requires
            old(self).msgs().len() > 0 || old(self).is_closed(),
        ensures
            final(self).is_closed() == old(self).is_closed(),
            old(self).msgs().len() > 0 ==> (r matches Ok(m) && m == old(self).msgs()[0]
                && final(self).msgs() == old(self).msgs().skip(1)),
            old(self).msgs().len() == 0 ==> r == Err::<SyncMessage, ChannelError>(
                ChannelError::BrokenChannel,
            ) && final(self).msgs() == old(self).msgs(),
    {
        if self.queue.len() == 0 {
            return Err(ChannelError::BrokenChannel);
        }
        let m = self.queue.remove(0);
        proof {
            assert(self.queue@ =~= old(self).queue@.skip(1));
        }
        Ok(m)
    }
}

} // verus!
