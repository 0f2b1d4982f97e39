//! The process hierarchy controller run by the managing process.
//!
//! Creation performs a two-level fork (main → intermediate → init) so
//! that the init process has no leftover visibility into the managing
//! process's resources. At each fork boundary the parent suspends on
//! the synchronization channel until the child signals ready or an
//! error; a child error at any level aborts the whole hierarchy, and
//! every already-spawned descendant is reaped before the error
//! surfaces. The controller here is the decision function: the caller
//! performs each returned action (fork, wait, reap) and feeds the next
//! observed event back in.

use vstd::prelude::*;

use crate::channel::SyncMessage;
use crate::error::{ChannelError, InitProcessError};

verus! {

/// What the managing process observed on the channel.
#[derive(Debug, Clone, PartialEq, Eq)]
pub enum ChildEvent {
    /// A message arrived.
    Message(SyncMessage),
    /// The channel closed: the peer died without a final message.
    ChannelClosed,
}

/// Where the handshake stands.
#[derive(Debug, Clone, PartialEq, Eq)]
pub enum HierarchyStage {
    /// Waiting for the intermediate process to report the init pid.
    AwaitingIntermediate,
    /// Waiting for the init process (with the reported pid) to finish
    /// its setup.
    AwaitingInit(i32),
    /// Both descendants signalled; creation can be recorded.
    Completed(i32),
    /// A descendant failed or died; the hierarchy was torn down.
    Failed,
}

/// What the caller must do after one event.
#[derive(Debug, Clone, PartialEq, Eq)]
pub enum MainAction {
    /// Suspend on the channel for the next event.
    Wait,
    /// Record the init pid in the container record and move it to
    /// `Created`.
    FinishCreate(i32),
    /// Reap every already-spawned descendant, then surface the error;
    /// no zombie or namespace-bound process may remain.
    AbortAndReap(InitProcessError),
}

/// The handshake's transition function: one observed event moves the
/// controller to its next stage and names the action owed. An explicit
/// error report, a dead peer, and a message that the protocol does not
/// allow at the current step all abort the hierarchy.
pub open spec fn hierarchy_step(pre: HierarchyStage, ev: ChildEvent) -> (
    HierarchyStage,
    MainAction,
) {
    match ev {
        ChildEvent::ChannelClosed => (
            HierarchyStage::Failed,
            MainAction::AbortAndReap(InitProcessError::Channel(ChannelError::BrokenChannel)),
        ),
        ChildEvent::Message(m) => match m {
            SyncMessage::ErrorReport(e) => (
                HierarchyStage::Failed,
                MainAction::AbortAndReap(e),
            ),
            SyncMessage::Ready(pid) => if pre is AwaitingIntermediate {
                (HierarchyStage::AwaitingInit(pid), MainAction::Wait)
            } else {
                (
                    HierarchyStage::Failed,
                    MainAction::AbortAndReap(
                        InitProcessError::Channel(ChannelError::UnexpectedMessage),
                    ),
                )
            },
            SyncMessage::InitFinishedSetup => match pre {
                HierarchyStage::AwaitingInit(pid) => (
                    HierarchyStage::Completed(pid),
                    MainAction::FinishCreate(pid),
                ),
                _ => (
                    HierarchyStage::Failed,
                    MainAction::AbortAndReap(
                        InitProcessError::Channel(ChannelError::UnexpectedMessage),
                    ),
                ),
            },
            SyncMessage::StartNow => (
                HierarchyStage::Failed,
                MainAction::AbortAndReap(
                    InitProcessError::Channel(ChannelError::UnexpectedMessage),
                ),
            ),
        },
    }
}

/// The controller state the managing process holds for one creation
/// attempt.
pub struct HierarchyController {
    pub stage: HierarchyStage,
}

impl HierarchyController {
    /// A fresh controller, before any descendant signalled.
    pub fn new() -> (r: HierarchyController)
        ensures
            r.stage == HierarchyStage::AwaitingIntermediate,
    {
        HierarchyController { stage: HierarchyStage::AwaitingIntermediate }
    }

    /// The handshake is still in flight: an event is expected.
    pub open spec fn active(&self) -> bool {
        self.stage is AwaitingIntermediate || self.stage is AwaitingInit
    }

    /// Feeds one observed event in and returns the action owed.
    pub fn on_event(&mut self, ev: ChildEvent) -> (r: MainAction)
        requires
            old(self).active(),
        ensures
            (final(self).stage, r) == hierarchy_step(old(self).stage, ev),
    {
        match ev {
            ChildEvent::ChannelClosed => {
                self.stage = HierarchyStage::Failed;
                MainAction::AbortAndReap(InitProcessError::Channel(ChannelError::BrokenChannel))
            },
            ChildEvent::Message(m) => match m {
                SyncMessage::ErrorReport(e) => {
                    self.stage = HierarchyStage::Failed;
                    MainAction::AbortAndReap(e)
                },
                SyncMessage::Ready(pid) => {
                    if matches!(self.stage, HierarchyStage::AwaitingIntermediate) {
                        self.stage = HierarchyStage::AwaitingInit(pid);
                        MainAction::Wait
                    } else {
                        self.stage = HierarchyStage::Failed;
                        MainAction::AbortAndReap(
                            InitProcessError::Channel(ChannelError::UnexpectedMessage),
                        )
                    }
                },
                SyncMessage::InitFinishedSetup => {
                    let pid_opt = match &self.stage {
                        HierarchyStage::AwaitingInit(pid) => Some(*pid),
                        _ => None,
                    };
                    match pid_opt {
                        Some(pid) => {
                            self.stage = HierarchyStage::Completed(pid);
                            MainAction::FinishCreate(pid)
                        },
                        None => {
                            self.stage = HierarchyStage::Failed;
                            MainAction::AbortAndReap(
                                InitProcessError::Channel(ChannelError::UnexpectedMessage),
                            )
                        },
                    }
                },
                SyncMessage::StartNow => {
                    self.stage = HierarchyStage::Failed;
                    MainAction::AbortAndReap(
                        InitProcessError::Channel(ChannelError::UnexpectedMessage),
                    )
                },
            },
        }
    }
}

/// A child error or a dead peer at any stage aborts the whole
/// hierarchy: the controller fails and the one action owed is to reap
/// every descendant before surfacing the error.
pub proof fn lemma_error_aborts(pre: HierarchyStage, ev: ChildEvent)
    requires
        ev is ChannelClosed || (ev matches ChildEvent::Message(m) && m is ErrorReport),
    ensures
        hierarchy_step(pre, ev).0 is Failed,
        hierarchy_step(pre, ev).1 is AbortAndReap,
{
}

/// The parent never proceeds past a fork boundary without a definite
/// signal: creation completes only from the second handshake step, on
/// the init process's own "finished setup" message, and the recorded
/// pid is exactly the one the intermediate process reported.
pub proof fn lemma_completion_needs_both_signals(pre: HierarchyStage, ev: ChildEvent)
    ensures
        hierarchy_step(pre, ev).0 matches HierarchyStage::Completed(pid) ==> pre
            == HierarchyStage::AwaitingInit(pid) && ev == ChildEvent::Message(
            SyncMessage::InitFinishedSetup,
        ) && hierarchy_step(pre, ev).1 == MainAction::FinishCreate(pid),
{
}

} // verus!
