use rpcmux::call::{Call, CallKind, Direction, Received, SideState};
use rpcmux::error::MuxError;

fn outbound() -> Call {
    Call::new(Direction::Outbound, CallKind::Bidi, 0)
}

fn inbound() -> Call {
    Call::new(Direction::Inbound, CallKind::Bidi, 3)
}

#[test]
fn a_new_call_has_both_directions_open() {
    let c = inbound();
    assert_eq!(c.request, SideState::Open);
    assert_eq!(c.response, SideState::Open);
    assert_eq!(c.failure, None);
    assert_eq!(c.method, 3);
    assert!(c.inbox.is_empty());
    assert!(c.is_live());
    assert!(!c.is_spent());
}

#[test]
fn local_and_remote_depend_on_who_opened_the_call() {
    let mut c = outbound();
    c.close_local();
    assert_eq!(c.request, SideState::HalfClosed);
    assert_eq!(c.response, SideState::Open);
    assert_eq!(c.local(), SideState::HalfClosed);
    assert_eq!(c.remote(), SideState::Open);
    let mut s = inbound();
    s.close_local();
    assert_eq!(s.response, SideState::HalfClosed);
    assert_eq!(s.request, SideState::Open);
    assert_eq!(s.local(), SideState::HalfClosed);
    assert_eq!(s.remote(), SideState::Open);
}

#[test]
fn a_call_is_done_when_both_directions_are_closed() {
    let mut c = outbound();
    c.close_local();
    assert!(c.is_live());
    c.close_remote();
    assert_eq!(c.request, SideState::Done);
    assert_eq!(c.response, SideState::Done);
    assert!(!c.is_live());
    let mut d = inbound();
    d.close_remote();
    assert_eq!(d.request, SideState::HalfClosed);
    d.close_local();
    assert_eq!((d.request, d.response), (SideState::Done, SideState::Done));
}

#[test]
fn closing_twice_changes_nothing() {
    let mut c = outbound();
    c.close_local();
    c.close_local();
    assert_eq!((c.request, c.response), (SideState::HalfClosed, SideState::Open));
    c.close_remote();
    c.close_remote();
    c.close_local();
    assert_eq!((c.request, c.response), (SideState::Done, SideState::Done));
}

#[test]
fn cancel_is_reachable_from_every_live_state() {
    let mut a = outbound();
    a.cancel();
    assert_eq!((a.request, a.response), (SideState::Cancelled, SideState::Cancelled));
    let mut b = outbound();
    b.close_local();
    b.cancel();
    assert_eq!((b.request, b.response), (SideState::Cancelled, SideState::Cancelled));
    let mut c = inbound();
    c.close_remote();
    c.cancel();
    assert_eq!((c.request, c.response), (SideState::Cancelled, SideState::Cancelled));
    assert!(!c.is_live());
    assert!(c.is_spent());
}

#[test]
fn failure_is_reachable_from_every_live_state_and_says_why() {
    let mut a = outbound();
    a.fail(MuxError::Timeout);
    assert_eq!((a.request, a.response), (SideState::Errored, SideState::Errored));
    assert_eq!(a.failure, Some(MuxError::Timeout));
    let mut b = inbound();
    b.close_local();
    b.fail(MuxError::HandlerFailed);
    assert_eq!(b.failure, Some(MuxError::HandlerFailed));
    assert_eq!(b.request, SideState::Errored);
}

#[test]
fn an_ended_call_keeps_its_end() {
    let mut done = outbound();
    done.close_local();
    done.close_remote();
    done.cancel();
    done.fail(MuxError::Timeout);
    assert_eq!((done.request, done.response), (SideState::Done, SideState::Done));
    assert_eq!(done.failure, None);
    let mut cancelled = outbound();
    cancelled.cancel();
    cancelled.fail(MuxError::ConnectionClosed);
    cancelled.close_local();
    cancelled.close_remote();
    assert_eq!(cancelled.request, SideState::Cancelled);
    assert_eq!(cancelled.failure, None);
    let mut failed = outbound();
    failed.fail(MuxError::Timeout);
    failed.fail(MuxError::ConnectionClosed);
    failed.cancel();
    assert_eq!(failed.request, SideState::Errored);
    assert_eq!(failed.failure, Some(MuxError::Timeout));
}

#[test]
fn payloads_are_read_in_the_order_of_delivery() {
    let mut c = outbound();
    c.deliver(b"one".to_vec());
    c.deliver(b"two".to_vec());
    c.deliver(b"three".to_vec());
    assert_eq!(c.read(), Ok(Received::Data(b"one".to_vec())));
    assert_eq!(c.read(), Ok(Received::Data(b"two".to_vec())));
    c.deliver(b"four".to_vec());
    assert_eq!(c.read(), Ok(Received::Data(b"three".to_vec())));
    assert_eq!(c.read(), Ok(Received::Data(b"four".to_vec())));
    assert_eq!(c.read(), Ok(Received::Pending));
}

#[test]
fn an_empty_payload_is_a_keep_alive() {
    let mut c = outbound();
    c.deliver(Vec::new());
    assert!(c.inbox.is_empty());
    assert_eq!(c.read(), Ok(Received::Pending));
    assert!(c.is_live());
}

#[test]
fn the_end_of_the_stream_follows_the_buffered_payloads() {
    let mut c = outbound();
    c.deliver(b"last".to_vec());
    c.close_remote();
    assert_eq!(c.read(), Ok(Received::Data(b"last".to_vec())));
    assert_eq!(c.read(), Ok(Received::EndOfStream));
    assert_eq!(c.read(), Ok(Received::EndOfStream));
    assert!(c.is_live());
    c.close_local();
    assert!(c.is_spent());
}

#[test]
fn data_after_the_peer_has_finished_is_dropped() {
    let mut c = outbound();
    c.close_remote();
    c.deliver(b"late".to_vec());
    assert!(c.inbox.is_empty());
    assert_eq!(c.read(), Ok(Received::EndOfStream));
}

#[test]
fn a_failure_is_read_in_place_of_buffered_data() {
    let mut c = outbound();
    c.deliver(b"unread".to_vec());
    c.fail(MuxError::HandlerFailed);
    assert_eq!(c.read(), Err(MuxError::HandlerFailed));
    let mut d = outbound();
    d.deliver(b"unread".to_vec());
    d.cancel();
    assert_eq!(d.read(), Err(MuxError::Cancelled));
}

#[test]
fn a_done_call_is_spent_once_it_is_drained() {
    let mut c = outbound();
    c.deliver(b"x".to_vec());
    c.close_local();
    c.close_remote();
    assert!(!c.is_spent());
    assert_eq!(c.read(), Ok(Received::Data(b"x".to_vec())));
    assert!(c.is_spent());
}

#[test]
fn kinds_say_which_directions_stream() {
    assert!(!CallKind::Unary.streams_requests());
    assert!(!CallKind::Unary.streams_responses());
    assert!(CallKind::ClientStreaming.streams_requests());
    assert!(!CallKind::ClientStreaming.streams_responses());
    assert!(!CallKind::ServerStreaming.streams_requests());
    assert!(CallKind::ServerStreaming.streams_responses());
    assert!(CallKind::Bidi.streams_requests());
    assert!(CallKind::Bidi.streams_responses());
    assert!(SideState::Done.is_end());
    assert!(SideState::Cancelled.is_end());
    assert!(SideState::Errored.is_end());
    assert!(!SideState::Open.is_end());
    assert!(!SideState::HalfClosed.is_end());
}

#[test]
fn the_states_that_the_machine_reaches_are_well_formed() {
    let mut c = outbound();
    assert!(c.is_well_formed());
    c.close_local();
    assert!(c.is_well_formed());
    c.close_remote();
    assert!(c.is_well_formed());
    let mut f = inbound();
    f.fail(MuxError::Timeout);
    assert!(f.is_well_formed());
    let mut odd = outbound();
    odd.request = SideState::Done;
    assert!(!odd.is_well_formed());
    let mut resting = outbound();
    resting.request = SideState::HalfClosed;
    resting.response = SideState::HalfClosed;
    assert!(!resting.is_well_formed());
    let mut silent = outbound();
    silent.request = SideState::Errored;
    silent.response = SideState::Errored;
    assert!(!silent.is_well_formed());
    silent.failure = Some(MuxError::Timeout);
    assert!(silent.is_well_formed());
}
