use rpcmux::call::{CallKind, Direction, SideState};
use rpcmux::dispatch::{find_in, Dispatcher, MethodDescriptor};
use rpcmux::error::MuxError;
use rpcmux::registry::Registry;

#[test]
fn the_dialling_side_hands_out_odd_ids() {
    let mut r = Registry::new(true);
    assert!(r.is_initiator());
    assert_eq!(r.allocate(CallKind::Unary), Ok(1));
    assert_eq!(r.allocate(CallKind::Bidi), Ok(3));
    assert_eq!(r.allocate(CallKind::Unary), Ok(5));
    assert_eq!(r.len(), 3);
    assert!(r.is_local(7));
    assert!(!r.is_local(8));
}

#[test]
fn the_accepting_side_hands_out_even_ids() {
    let mut r = Registry::new(false);
    assert!(!r.is_initiator());
    assert_eq!(r.allocate(CallKind::Unary), Ok(0));
    assert_eq!(r.allocate(CallKind::Unary), Ok(2));
    assert!(r.is_local(4));
    assert!(!r.is_local(5));
}

#[test]
fn a_retired_id_is_not_handed_out_again() {
    let mut r = Registry::new(true);
    assert_eq!(r.allocate(CallKind::Unary), Ok(1));
    r.retire(1);
    assert!(!r.contains(1));
    assert_eq!(r.allocate(CallKind::Unary), Ok(3));
}

#[test]
fn an_allocated_call_is_outbound_and_open() {
    let mut r = Registry::new(true);
    let id = r.allocate(CallKind::ServerStreaming).unwrap();
    let call = r.lookup(id).unwrap();
    assert_eq!(call.direction, Direction::Outbound);
    assert_eq!(call.kind, CallKind::ServerStreaming);
    assert_eq!(call.request, SideState::Open);
    assert_eq!(call.response, SideState::Open);
}

#[test]
fn an_inbound_call_is_accepted_under_the_peers_id() {
    let mut r = Registry::new(true);
    assert_eq!(r.accept(4, CallKind::Bidi, 2), Ok(()));
    let call = r.lookup(4).unwrap();
    assert_eq!(call.direction, Direction::Inbound);
    assert_eq!(call.kind, CallKind::Bidi);
    assert_eq!(call.method, 2);
    assert!(r.contains(4));
    assert!(r.lookup(6).is_none());
}

#[test]
fn a_reused_id_is_a_duplicate_and_leaves_the_call_alone() {
    let mut r = Registry::new(true);
    r.accept(4, CallKind::Bidi, 2).unwrap();
    assert_eq!(r.accept(4, CallKind::Unary, 0), Err(MuxError::DuplicateCallId));
    let call = r.lookup(4).unwrap();
    assert_eq!(call.kind, CallKind::Bidi);
    assert_eq!(call.method, 2);
    assert_eq!(r.len(), 1);
}

#[test]
fn an_outbound_id_that_is_taken_is_a_duplicate_too() {
    let mut r = Registry::new(true);
    let id = r.allocate(CallKind::Unary).unwrap();
    assert_eq!(r.accept(id, CallKind::Unary, 0), Err(MuxError::DuplicateCallId));
}

#[test]
fn a_peer_cannot_open_a_call_under_this_sides_ids() {
    let mut r = Registry::new(true);
    assert_eq!(r.accept(7, CallKind::Unary, 0), Err(MuxError::UnknownCall));
    assert!(!r.contains(7));
    let mut s = Registry::new(false);
    assert_eq!(s.accept(8, CallKind::Unary, 0), Err(MuxError::UnknownCall));
    assert_eq!(s.accept(9, CallKind::Unary, 0), Ok(()));
}

#[test]
fn an_id_can_be_used_again_once_its_call_is_retired() {
    let mut r = Registry::new(true);
    r.accept(4, CallKind::Unary, 0).unwrap();
    r.retire(4);
    assert_eq!(r.accept(4, CallKind::Unary, 1), Ok(()));
    assert_eq!(r.lookup(4).unwrap().method, 1);
}

#[test]
fn retiring_is_idempotent() {
    let mut r = Registry::new(false);
    r.accept(1, CallKind::Unary, 0).unwrap();
    r.accept(3, CallKind::Unary, 0).unwrap();
    r.retire(1);
    r.retire(1);
    r.retire(99);
    assert_eq!(r.len(), 1);
    assert!(r.contains(3));
}

#[test]
fn ids_lists_every_call_once() {
    let mut r = Registry::new(true);
    r.allocate(CallKind::Unary).unwrap();
    r.allocate(CallKind::Unary).unwrap();
    r.accept(10, CallKind::Unary, 0).unwrap();
    let mut ids = r.ids();
    ids.sort();
    assert_eq!(ids, vec![1, 3, 10]);
    assert_eq!(Registry::new(true).ids(), Vec::<u64>::new());
}

#[test]
fn fail_all_ends_the_live_calls_and_only_those() {
    let mut r = Registry::new(true);
    let a = r.allocate(CallKind::Bidi).unwrap();
    let b = r.allocate(CallKind::Bidi).unwrap();
    let c = r.allocate(CallKind::Bidi).unwrap();
    let mut failed = r.fail_all(MuxError::Timeout);
    failed.sort();
    assert_eq!(failed, vec![a, b, c]);
    assert_eq!(r.lookup(a).unwrap().failure, Some(MuxError::Timeout));
    assert_eq!(r.lookup(a).unwrap().request, SideState::Errored);
    assert_eq!(r.lookup(c).unwrap().response, SideState::Errored);
    assert_eq!(r.fail_all(MuxError::ConnectionClosed), Vec::<u64>::new());
    assert_eq!(r.lookup(a).unwrap().failure, Some(MuxError::Timeout));
    assert_eq!(r.len(), 3);
}

#[test]
fn fail_all_passes_over_inbound_calls_too() {
    let mut r = Registry::new(false);
    r.accept(1, CallKind::Unary, 0).unwrap();
    r.accept(3, CallKind::Bidi, 1).unwrap();
    let mut failed = r.fail_all(MuxError::ConnectionClosed);
    failed.sort();
    assert_eq!(failed, vec![1, 3]);
    assert_eq!(r.lookup(1).unwrap().failure, Some(MuxError::ConnectionClosed));
    assert_eq!(r.lookup(3).unwrap().method, 1);
}

#[test]
fn the_dispatcher_resolves_registered_names() {
    let mut d = Dispatcher::new();
    assert_eq!(d.len(), 0);
    assert_eq!(d.register(b"echo", CallKind::Unary), Some(0));
    assert_eq!(d.register(b"Stream", CallKind::Bidi), Some(1));
    assert_eq!(d.len(), 2);
    assert_eq!(d.resolve(b"echo"), Some((0, CallKind::Unary)));
    assert_eq!(d.resolve(b"Stream"), Some((1, CallKind::Bidi)));
    assert_eq!(d.resolve(b"Nope"), None);
    assert_eq!(d.resolve(b"ech"), None);
    assert_eq!(d.resolve(b""), None);
    assert_eq!(d.method(1).name, b"Stream".to_vec());
    assert_eq!(d.method(1).streaming, CallKind::Bidi);
}

#[test]
fn the_dispatcher_refuses_bad_and_repeated_names() {
    let mut d = Dispatcher::new();
    assert_eq!(d.register(b"", CallKind::Unary), None);
    assert_eq!(d.register(&vec![b'n'; 65536], CallKind::Unary), None);
    assert_eq!(d.register(&vec![b'n'; 65535], CallKind::Unary), Some(0));
    assert_eq!(d.register(b"echo", CallKind::Unary), Some(1));
    assert_eq!(d.register(b"echo", CallKind::Bidi), None);
    assert_eq!(d.len(), 2);
    assert_eq!(d.resolve(b"echo"), Some((1, CallKind::Unary)));
}

#[test]
fn find_in_gives_the_first_of_equal_names() {
    let methods = vec![
        MethodDescriptor::new("/a/One", CallKind::Unary),
        MethodDescriptor::new("/a/Two", CallKind::Bidi),
        MethodDescriptor::new("/a/One", CallKind::ServerStreaming),
    ];
    assert_eq!(methods[0].name, b"/a/One".to_vec());
    assert_eq!(find_in(&methods, b"/a/One"), Some(0));
    assert_eq!(find_in(&methods, b"/a/Two"), Some(1));
    assert_eq!(find_in(&methods, b"/a/Three"), None);
    assert_eq!(find_in(&Vec::new(), b"/a/One"), None);
}

#[test]
fn refusal_says_why_a_peer_may_not_use_an_id() {
    let mut r = Registry::new(true);
    let own = r.allocate(CallKind::Unary).unwrap();
    r.accept(4, CallKind::Unary, 0).unwrap();
    assert_eq!(r.refusal(own), Some(MuxError::DuplicateCallId));
    assert_eq!(r.refusal(4), Some(MuxError::DuplicateCallId));
    assert_eq!(r.refusal(9), Some(MuxError::UnknownCall));
    assert_eq!(r.refusal(6), None);
    assert_eq!(r.len(), 2);
}

#[test]
fn a_side_that_has_run_out_of_ids_opens_no_call() {
    let mut r = Registry::starting_at(true, u64::MAX - 4);
    assert_eq!(r.allocate(CallKind::Unary), Ok(u64::MAX - 4));
    assert_eq!(r.allocate(CallKind::Unary), Ok(u64::MAX - 2));
    assert_eq!(r.allocate(CallKind::Unary), Err(MuxError::CallIdsExhausted));
    assert_eq!(r.allocate(CallKind::Unary), Err(MuxError::CallIdsExhausted));
    assert_eq!(r.len(), 2);
    assert_eq!(r.accept(8, CallKind::Unary, 0), Ok(()));
}

#[test]
fn a_registry_starts_at_the_next_id_of_its_own_half() {
    assert_eq!(Registry::starting_at(true, 10).allocate(CallKind::Unary), Ok(11));
    assert_eq!(Registry::starting_at(true, 11).allocate(CallKind::Unary), Ok(11));
    assert_eq!(Registry::starting_at(false, 10).allocate(CallKind::Unary), Ok(10));
    assert_eq!(Registry::starting_at(false, 11).allocate(CallKind::Unary), Ok(12));
    assert_eq!(Registry::starting_at(false, 0).allocate(CallKind::Unary), Ok(0));
    assert_eq!(
        Registry::starting_at(false, u64::MAX).allocate(CallKind::Unary),
        Err(MuxError::CallIdsExhausted)
    );
    assert_eq!(
        Registry::starting_at(true, u64::MAX).allocate(CallKind::Unary),
        Err(MuxError::CallIdsExhausted)
    );
    assert_eq!(
        Registry::starting_at(false, u64::MAX - 3).allocate(CallKind::Unary),
        Ok(u64::MAX - 3)
    );
}
