use libcontainer::channel::{Channel, SyncMessage};
use libcontainer::error::{ChannelError, InitProcessError, SyscallError};
use libcontainer::main_process::{ChildEvent, HierarchyController, HierarchyStage, MainAction};
use libcontainer::notify::{NotifyBarrier, NotifyState};

#[test]
fn channel_delivers_messages_in_send_order() {
    let mut ch = Channel::new();
    assert!(!ch.ready_to_receive());
    ch.send(SyncMessage::Ready(41));
    ch.send(SyncMessage::InitFinishedSetup);
    assert!(ch.ready_to_receive());
    assert_eq!(ch.recv(), Ok(SyncMessage::Ready(41)));
    assert_eq!(ch.recv(), Ok(SyncMessage::InitFinishedSetup));
}

#[test]
fn channel_closure_is_a_protocol_failure_not_silence() {
    let mut ch = Channel::new();
    ch.send(SyncMessage::Ready(7));
    ch.close();
    // what was in flight stays receivable
    assert_eq!(ch.recv(), Ok(SyncMessage::Ready(7)));
    // then the dead peer is reported, distinguishable from an error report
    assert_eq!(ch.recv(), Err(ChannelError::BrokenChannel));
}

#[test]
fn channel_forwards_structured_errors() {
    let mut ch = Channel::new();
    let cause = InitProcessError::SetHostname(SyscallError { errno: 1 });
    ch.send(SyncMessage::ErrorReport(cause.clone()));
    assert_eq!(ch.recv(), Ok(SyncMessage::ErrorReport(cause)));
}

#[test]
fn hierarchy_completes_only_after_both_signals() {
    let mut ctl = HierarchyController::new();
    assert_eq!(ctl.stage, HierarchyStage::AwaitingIntermediate);
    let a1 = ctl.on_event(ChildEvent::Message(SyncMessage::Ready(4242)));
    assert_eq!(a1, MainAction::Wait);
    assert_eq!(ctl.stage, HierarchyStage::AwaitingInit(4242));
    let a2 = ctl.on_event(ChildEvent::Message(SyncMessage::InitFinishedSetup));
    assert_eq!(a2, MainAction::FinishCreate(4242));
    assert_eq!(ctl.stage, HierarchyStage::Completed(4242));
}

#[test]
fn hierarchy_aborts_and_reaps_on_child_error() {
    let mut ctl = HierarchyController::new();
    let cause = InitProcessError::NoProcess;
    let a = ctl.on_event(ChildEvent::Message(SyncMessage::ErrorReport(cause.clone())));
    assert_eq!(a, MainAction::AbortAndReap(cause));
    assert_eq!(ctl.stage, HierarchyStage::Failed);
}

#[test]
fn hierarchy_aborts_when_a_peer_dies_without_a_message() {
    let mut ctl = HierarchyController::new();
    let a = ctl.on_event(ChildEvent::ChannelClosed);
    assert_eq!(
        a,
        MainAction::AbortAndReap(InitProcessError::Channel(ChannelError::BrokenChannel))
    );
    assert_eq!(ctl.stage, HierarchyStage::Failed);
}

#[test]
fn hierarchy_rejects_a_message_out_of_protocol_order() {
    let mut ctl = HierarchyController::new();
    let a = ctl.on_event(ChildEvent::Message(SyncMessage::InitFinishedSetup));
    assert_eq!(
        a,
        MainAction::AbortAndReap(InitProcessError::Channel(ChannelError::UnexpectedMessage))
    );
    assert_eq!(ctl.stage, HierarchyStage::Failed);

    let mut ctl2 = HierarchyController::new();
    ctl2.on_event(ChildEvent::Message(SyncMessage::Ready(1)));
    let a2 = ctl2.on_event(ChildEvent::Message(SyncMessage::Ready(2)));
    assert_eq!(
        a2,
        MainAction::AbortAndReap(InitProcessError::Channel(ChannelError::UnexpectedMessage))
    );
    assert_eq!(ctl2.stage, HierarchyStage::Failed);
}

#[test]
fn notify_barrier_accepts_exactly_once_then_closes() {
    let mut b = NotifyBarrier::bind();
    assert_eq!(b.state, NotifyState::Bound);
    assert!(!b.accepted);
    b.accept_start();
    assert_eq!(b.state, NotifyState::Released);
    assert!(b.accepted);
    b.close();
    assert_eq!(b.state, NotifyState::Closed);
    assert!(b.accepted);
}

#[test]
fn notify_barrier_can_be_abandoned_without_accepting() {
    let mut b = NotifyBarrier::bind();
    b.close();
    assert_eq!(b.state, NotifyState::Closed);
    assert!(!b.accepted);
}
