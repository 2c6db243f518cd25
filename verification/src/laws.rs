//! What holds of a connection whatever its calls do.
//!
//! Each law is stated over `ConnectionView` and the functions that say what
//! the operations of a connection answer and leave behind, so it holds of
//! every connection that the operations can produce.

use vstd::prelude::*;
use crate::call::{CallKind, CallView, SideState};
use crate::connection::{
    apply_frame, cancel_frame, data_frame, end_error, open_frame, opened_call, payloads_for,
    reply_frames, Admission, ConnectionView, Delivery,
};
use crate::dispatch::{first_named, has_method, lemma_first_named};
use crate::error::MuxError;
use crate::frame::FrameView;
use crate::registry::RegistryView;
use crate::service::ReplyView;

verus! {

/// A frame that carries data of a call that is already open, and nothing
/// else.
pub open spec fn plain_data(f: FrameView) -> bool {
    &&& f.wf()
    &&& !f.opens()
    &&& f.flags.data
    &&& !f.flags.half_close
    &&& !f.flags.cancel
    &&& !f.flags.error
}

/// The state after the frames of `frames` have arrived one after the other.
pub open spec fn feed(s: ConnectionView, frames: Seq<FrameView>) -> ConnectionView
    decreases frames.len(),
{
    if frames.len() == 0 {
        s
    } else {
        feed(s, frames.drop_last()).after_frame(frames.last())
    }
}

/// The state after the sends of `sends` have been made one after the other;
/// each send names its call and its payload.
pub open spec fn send_all(s: ConnectionView, sends: Seq<(u64, Seq<u8>)>) -> ConnectionView
    decreases sends.len(),
{
    if sends.len() == 0 {
        s
    } else {
        send_all(s, sends.drop_last()).after_send(sends.last().0, sends.last().1)
    }
}

/// The payloads that the sends of `sends` put into the queue for the call
/// `id`, in the order of the sends: those that were admitted and are not
/// empty.
pub open spec fn admitted(s: ConnectionView, sends: Seq<(u64, Seq<u8>)>, id: u64) -> Seq<Seq<u8>>
    decreases sends.len(),
{
    if sends.len() == 0 {
        Seq::empty()
    } else {
        let earlier = admitted(s, sends.drop_last(), id);
        let state = send_all(s, sends.drop_last());
        let (to, payload) = sends.last();
        if to == id && payload.len() > 0 && state.send_result(to, payload) == Ok::<
            Admission,
            MuxError,
        >(Admission::Queued) {
            earlier.push(payload)
        } else {
            earlier
        }
    }
}

/// The frames that the queue of `after` holds behind those of `before`.
pub open spec fn queued_since(before: ConnectionView, after: ConnectionView) -> Seq<FrameView> {
    after.outbound.subrange(before.outbound.len() as int, after.outbound.len() as int)
}

/// A queue that grew by one frame holds, for each call, the payloads it
/// held, and behind them the payload of the new frame where that frame is
/// data of the call.
pub proof fn lemma_payloads_push(frames: Seq<FrameView>, f: FrameView, id: u64)
    ensures
        payloads_for(frames.push(f), id) == if f.call_id == id && f.flags.data && f.payload.len()
            > 0 {
            payloads_for(frames, id).push(f.payload)
        } else {
            payloads_for(frames, id)
        },
{
    assert(frames.push(f).drop_last() =~= frames);
}

/// A connection that is shut down stays shut down, whatever arrives.
pub proof fn law_shut_down_is_final(s: ConnectionView, frames: Seq<FrameView>)
    requires
        s.closed,
    ensures
        feed(s, frames) == s,
    decreases frames.len(),
{
    if frames.len() > 0 {
        law_shut_down_is_final(s, frames.drop_last());
    }
}

/// The payloads of one call are delivered in the order in which they
/// arrive, whatever arrives for other calls in between.
///
/// Let the call `id` be open for data from the peer, let every frame of
/// `frames` that is addressed to it carry data only, and let the connection
/// not be shut down by what arrives. Then the call is left as it was but for
/// its buffer, and the buffer holds what it held and behind it the payloads
/// addressed to the call, in their order in `frames`.
pub proof fn law_delivery_keeps_order(s: ConnectionView, frames: Seq<FrameView>, id: u64)
    requires
        s.has(id),
        s.call(id).remote() == SideState::Open,
        forall|i: int|
            0 <= i < frames.len() && (#[trigger] frames[i]).call_id == id ==> plain_data(frames[i]),
        !feed(s, frames).closed,
    ensures
        feed(s, frames).has(id),
        feed(s, frames).call(id) == (CallView {
            inbox: s.call(id).inbox + payloads_for(frames, id),
            ..s.call(id)
        }),
    decreases frames.len(),
{
    if frames.len() > 0 {
        law_delivery_keeps_order(s, frames.drop_last(), id);
    }
}

/// A reader takes the payloads of a call from the front of its buffer: what
/// was delivered first is read first.
pub proof fn law_reads_take_from_the_front(c: CallView)
    requires
        c.live() || c.request == SideState::Done,
        c.inbox.len() > 0,
    ensures
        c.read_result() == Ok::<Option<Seq<u8>>, MuxError>(Some(c.inbox[0])),
        c.after_read().inbox == c.inbox.subrange(1, c.inbox.len() as int),
        c.after_read() == (CallView { inbox: c.after_read().inbox, ..c }),
{
}

/// What the sends of `sends` leave behind: the queue holds what it held and
/// behind that only frames of data, and for each call the payloads of those
/// frames are the payloads that were admitted for it, in the order of the
/// sends. No call is changed by a send.
pub proof fn lemma_sends_queue_in_order(s: ConnectionView, sends: Seq<(u64, Seq<u8>)>, id: u64)
    ensures
        send_all(s, sends).outbound.len() >= s.outbound.len(),
        send_all(s, sends).outbound.subrange(0, s.outbound.len() as int) == s.outbound,
        send_all(s, sends).registry == s.registry,
        forall|i: int|
            0 <= i < queued_since(s, send_all(s, sends)).len() ==> plain_data(
                #[trigger] queued_since(s, send_all(s, sends))[i],
            ),
        payloads_for(queued_since(s, send_all(s, sends)), id) == admitted(s, sends, id),
    decreases sends.len(),
{
    if sends.len() > 0 {
        let (to, payload) = sends.last();
        let mid = send_all(s, sends.drop_last());
        lemma_sends_queue_in_order(s, sends.drop_last(), id);
        if mid.send_result(to, payload) == Ok::<Admission, MuxError>(Admission::Queued) {
            let f = data_frame(to, payload, false);
            assert(queued_since(s, send_all(s, sends)) =~= queued_since(s, mid).push(f));
            lemma_payloads_push(queued_since(s, mid), f, id);
        }
    }
}

/// The state after `n` frames have been handed to the writer.
pub open spec fn written(s: ConnectionView, n: nat) -> ConnectionView
    decreases n,
{
    if n == 0 {
        s
    } else {
        written(s, (n - 1) as nat).after_transmit()
    }
}

/// Frames leave in the order in which they were queued.
///
/// After `n` frames have been handed to the writer, the queue holds what it
/// held without its first `n` frames, so the frame that the writer is handed
/// next is the one that was queued next. Nothing else of the connection
/// changes by writing.
pub proof fn law_frames_leave_in_queue_order(s: ConnectionView, n: nat)
    requires
        n <= s.outbound.len(),
    ensures
        written(s, n).outbound == s.outbound.subrange(n as int, s.outbound.len() as int),
        n < s.outbound.len() ==> written(s, n).outbound[0] == s.outbound[n as int],
        written(s, n) == (ConnectionView { outbound: written(s, n).outbound, ..s }),
    decreases n,
{
    if n > 0 {
        law_frames_leave_in_queue_order(s, (n - 1) as nat);
        let before = written(s, (n - 1) as nat);
        assert(before.outbound.subrange(1, before.outbound.len() as int) =~= s.outbound.subrange(
            n as int,
            s.outbound.len() as int,
        ));
    } else {
        assert(s.outbound.subrange(0, s.outbound.len() as int) =~= s.outbound);
    }
}

/// Waiting helps: whoever was told that the queue is full is admitted once
/// the frames that waited have been written out.
///
/// This holds of a send where a call may have a frame waiting at all, and of
/// every reply: a reply that could never be admitted is not told to wait but
/// refused.
pub proof fn law_waiting_helps(s: ConnectionView, id: u64, payload: Seq<u8>, reply: ReplyView)
    ensures
        s.queue_limit > 0 && s.send_result(id, payload) == Ok::<Admission, MuxError>(
            Admission::Full,
        ) ==> written(s, s.outbound.len()).send_result(id, payload) == Ok::<Admission, MuxError>(
            Admission::Queued,
        ),
        s.respond_result(id, reply) == Ok::<Admission, MuxError>(Admission::Full) ==> written(
            s,
            s.outbound.len(),
        ).respond_result(id, reply) == Ok::<Admission, MuxError>(Admission::Queued),
{
    law_frames_leave_in_queue_order(s, s.outbound.len());
    assert(written(s, s.outbound.len()).outbound =~= Seq::<FrameView>::empty());
}

/// Each call's reader sees the payloads of its own call in the order in
/// which they were sent, however the sends of different calls interleave.
///
/// A sender makes the sends of `sends`, on any calls and in any order. The
/// frames that this queues are written out and arrive at a receiver in the
/// order of the queue. If the receiver holds the call `id` open for data and
/// is not shut down by what arrives, then the buffer of the call holds, behind
/// what it held, exactly the payloads that the sender's queue admitted for
/// that call, in the order in which they were sent. A reader takes the
/// payloads from the front of that buffer.
pub proof fn law_per_call_order(
    sender: ConnectionView,
    receiver: ConnectionView,
    sends: Seq<(u64, Seq<u8>)>,
    id: u64,
)
    requires
        receiver.has(id),
        receiver.call(id).remote() == SideState::Open,
        !feed(receiver, queued_since(sender, send_all(sender, sends))).closed,
    ensures
        feed(receiver, queued_since(sender, send_all(sender, sends))).has(id),
        feed(receiver, queued_since(sender, send_all(sender, sends))).call(id).inbox
            == receiver.call(id).inbox + admitted(sender, sends, id),
{
    let frames = queued_since(sender, send_all(sender, sends));
    lemma_sends_queue_in_order(sender, sends, id);
    law_delivery_keeps_order(receiver, frames, id);
}

/// The two sides of a connection never pick the same id.
///
/// Whatever calls the side that dialled and the side that accepted have
/// opened, an id that one of them hands out is never one that the other
/// hands out, and so the ids that they will pick next differ.
pub proof fn law_sides_pick_different_ids(dialler: RegistryView, acceptor: RegistryView, id: u64)
    requires
        dialler.wf(),
        acceptor.wf(),
        dialler.initiator,
        !acceptor.initiator,
    ensures
        dialler.is_local(id) != acceptor.is_local(id),
        dialler.next_id != acceptor.next_id,
{
}

/// Cancelling a call releases whoever waits on it and leaves every other
/// call alone.
///
/// After the call `id` is cancelled, a read from it and a send on it are
/// answered with `Cancelled` at once: neither is told to wait. Any other
/// call `other` is in the registry exactly if it was, in the state it was
/// in, with the same payloads waiting in the queue and the same room left
/// there, so a send on it is answered as it would have been.
pub proof fn law_cancel_is_isolated(s: ConnectionView, id: u64, other: u64, payload: Seq<u8>)
    requires
        !s.closed,
        s.has(id),
        s.call(id).live(),
        other != id,
    ensures
        s.after_cancel(id).call(id).read_result() == Err::<Option<Seq<u8>>, MuxError>(
            MuxError::Cancelled,
        ),
        s.after_cancel(id).send_result(id, payload) == Err::<Admission, MuxError>(
            MuxError::Cancelled,
        ),
        s.after_cancel(id).has(other) == s.has(other),
        s.has(other) ==> s.after_cancel(id).call(other) == s.call(other),
        payloads_for(s.after_cancel(id).outbound, other) == payloads_for(s.outbound, other),
        s.after_cancel(id).queued(other) == s.queued(other),
        s.after_cancel(id).send_result(other, payload) == s.send_result(other, payload),
{
    let f = cancel_frame(id);
    assert(s.outbound.push(f).drop_last() =~= s.outbound);
}

/// A call that times out fails with `Timeout`, which is not `Cancelled`, and
/// every other call is left alone.
///
/// After the call `id` has been expired, a read from it and a send on it
/// are answered with `Timeout` at once. Any other call is in the registry
/// exactly if it was, in the state it was in, with the same room left in the
/// queue.
pub proof fn law_timeout_is_isolated(s: ConnectionView, id: u64, other: u64, payload: Seq<u8>)
    requires
        !s.closed,
        s.has(id),
        s.call(id).live(),
        other != id,
    ensures
        s.after_expire(id).call(id).read_result() == Err::<Option<Seq<u8>>, MuxError>(
            MuxError::Timeout,
        ),
        s.after_expire(id).send_result(id, payload) == Err::<Admission, MuxError>(
            MuxError::Timeout,
        ),
        s.after_expire(id).has(other) == s.has(other),
        s.has(other) ==> s.after_expire(id).call(other) == s.call(other),
        s.after_expire(id).queued(other) == s.queued(other),
        s.after_expire(id).send_result(other, payload) == s.send_result(other, payload),
{
    let f = cancel_frame(id);
    assert(s.outbound.push(f).drop_last() =~= s.outbound);
}

/// A call does not time out while frames are sent or received for it.
///
/// Right after a send was queued for a call, or a frame for it arrived, the
/// call has not timed out, unless calls may not be idle at all. And a call
/// that has timed out had nothing noted for it for at least the idle limit.
pub proof fn law_traffic_keeps_a_call_alive(
    s: ConnectionView,
    id: u64,
    payload: Seq<u8>,
    f: FrameView,
)
    requires
        s.idle.limit != Some(0u64),
    ensures
        s.send_result(id, payload) == Ok::<Admission, MuxError>(Admission::Queued) ==> !s.after_send(
            id,
            payload,
        ).is_idle(id),
        s.frame_result(f) is Ok && s.frame_result(f) != Ok::<Delivery, MuxError>(
            Delivery::Refused,
        ) ==> !s.after_frame(f).is_idle(f.call_id),
        s.is_idle(id) ==> s.idle.now - s.idle.seen[id] >= s.idle.limit.unwrap(),
{
}

/// A `cancel` frame from the peer ends the call it addresses and leaves
/// every other call alone.
///
/// After the frame has arrived, a read from the call `id` is answered with
/// `Cancelled` at once. Any other call is in the registry exactly if it was,
/// in the state it was in, and nothing was added to the queue.
pub proof fn law_remote_cancel_is_isolated(s: ConnectionView, id: u64, other: u64)
    requires
        !s.closed,
        s.has(id),
        s.call(id).live(),
        other != id,
    ensures
        s.frame_result(cancel_frame(id)) == Ok::<Delivery, MuxError>(Delivery::Applied),
        s.after_frame(cancel_frame(id)).call(id).read_result() == Err::<
            Option<Seq<u8>>,
            MuxError,
        >(MuxError::Cancelled),
        s.after_frame(cancel_frame(id)).has(other) == s.has(other),
        s.has(other) ==> s.after_frame(cancel_frame(id)).call(other) == s.call(other),
        s.after_frame(cancel_frame(id)).outbound == s.outbound,
{
}

/// A call that nobody drains holds back its own sender and no other.
///
/// Whether a send on the call `other` is admitted does not depend on what
/// was sent on the call `id`: the room that a call has in the queue is its
/// own.
pub proof fn law_backpressure_is_per_call(
    s: ConnectionView,
    id: u64,
    payload: Seq<u8>,
    other: u64,
    next: Seq<u8>,
)
    requires
        other != id,
    ensures
        s.after_send(id, payload).queued(other) == s.queued(other),
        s.after_send(id, payload).send_result(other, next) == s.send_result(other, next),
{
    let f = data_frame(id, payload, false);
    assert(s.outbound.push(f).drop_last() =~= s.outbound);
}

/// A frame that is written out makes room for its call and for no other.
pub proof fn law_transmit_makes_room(s: ConnectionView, id: u64)
    requires
        s.outbound.len() > 0,
    ensures
        s.after_transmit().queued(id) == s.queued(id) - if s.outbound[0].call_id == id
            && s.outbound[0].flags.data {
            1int
        } else {
            0int
        },
    decreases s.outbound.len(),
{
    let frames = s.outbound;
    let rest = frames.subrange(1, frames.len() as int);
    if frames.len() == 1 {
        assert(frames.drop_last() =~= Seq::<FrameView>::empty());
        assert(rest =~= Seq::<FrameView>::empty());
    } else {
        let shorter = ConnectionView { outbound: frames.drop_last(), ..s };
        law_transmit_makes_room(shorter, id);
        assert(shorter.after_transmit().outbound =~= rest.drop_last());
    }
}

/// A call ends once: whatever happens to a call that has ended leaves it
/// as it ended.
///
/// Neither this side nor the peer can close, cancel or fail such a call
/// again, and no frame from the peer changes it.
pub proof fn law_an_end_is_final(c: CallView, e: MuxError, f: FrameView)
    requires
        c.wf(),
        !c.live(),
    ensures
        c.close_local() == c,
        c.close_remote() == c,
        c.cancel() == c,
        c.fail(e) == c,
        apply_frame(c, f) == c,
{
}

/// A call with one request and one response is one frame each way.
///
/// Opening it queues a single frame, which names the method, carries the
/// request and closes the request direction. The reply that carries its
/// response is a single frame too, which closes the response direction; with
/// it the call is done.
pub proof fn law_unary_is_one_frame_each_way(
    s: ConnectionView,
    method: Seq<u8>,
    request: Seq<u8>,
    response: Seq<u8>,
)
    requires
        s.open_call_error(method, request) is None,
    ensures
        s.after_open_call(method, CallKind::Unary, request).outbound == s.outbound.push(
            open_frame(s.registry.next_id, method, request, true),
        ),
        opened_call(CallKind::Unary).local() == SideState::HalfClosed,
        reply_frames(s.registry.next_id, ReplyView::of_unary(Some(response), None)) == seq![
            data_frame(s.registry.next_id, response, true),
        ],
        apply_frame(opened_call(CallKind::Unary), data_frame(s.registry.next_id, response, true)).request
            == SideState::Done,
{
}

/// A call with one request and one response brings back what its handler
/// answered; with a handler that answers what it was asked, it brings back
/// the request.
///
/// A client opens a call of a method that the server serves as one with one
/// request and one response, with `x` as its request. The frame that this
/// queues arrives at the server, which holds no call under the id and has
/// room for one frame of the call. Then the server opens the call, the
/// request handed to the handler is `x`, and the reply that answers `x` is
/// admitted, queued as one frame, and ends the call at the server. When that
/// frame has arrived at the client, the response of the call is `x`, the
/// call is done, and it leaves the registry with the response.
pub proof fn law_unary_echo_round_trips(
    client: ConnectionView,
    server: ConnectionView,
    method: Seq<u8>,
    x: Seq<u8>,
)
    requires
        client.registry.wf(),
        client.open_call_error(method, x) is None,
        client.registry.initiator != server.registry.initiator,
        !server.closed,
        !server.has(client.registry.next_id),
        has_method(server.methods, method),
        server.methods[first_named(server.methods, method)].streaming == CallKind::Unary,
        server.queued(client.registry.next_id) < server.queue_limit,
    ensures
        ({
            let id = client.registry.next_id;
            let request = open_frame(id, method, x, true);
            let response = data_frame(id, x, true);
            let reply = ReplyView::of_unary(Some(x), None);
            let asked = client.after_open_call(method, CallKind::Unary, x);
            let served = server.after_frame(request);
            let handed = served.after_take_request(id);
            let answered = asked.after_frame(response);
            &&& asked.outbound == client.outbound.push(request)
            &&& server.frame_result(request) == Ok::<Delivery, MuxError>(
                Delivery::Opened(first_named(server.methods, method) as usize),
            )
            &&& served.request_error(id) is None
            &&& served.request_ready(id)
            &&& x == if served.call(id).inbox.len() > 0 {
                served.call(id).inbox[0]
            } else {
                Seq::<u8>::empty()
            }
            &&& handed.respond_result(id, reply) == Ok::<Admission, MuxError>(Admission::Queued)
            &&& handed.after_respond(id, reply).outbound == handed.outbound.push(response)
            &&& !handed.after_respond(id, reply).has(id)
            &&& asked.frame_result(response) == Ok::<Delivery, MuxError>(Delivery::Applied)
            &&& end_error(answered.call(id)) is None
            &&& answered.unary_response(id) == Some(x)
            &&& answered.call(id).request == SideState::Done
            &&& !answered.after_poll_unary(id).has(id)
        }),
{
    let id = client.registry.next_id;
    let request = open_frame(id, method, x, true);
    let response = data_frame(id, x, true);
    let reply = ReplyView::of_unary(Some(x), None);
    let served = server.after_frame(request);
    let handed = served.after_take_request(id);
    lemma_first_named(server.methods, method);
    assert(request.wf());
    assert(response.wf());
    assert(server.registry.refusal(id) is None);
    if x.len() == 0 {
        assert(x =~= Seq::<u8>::empty());
    }
    assert(reply.messages.drop_last() =~= Seq::<Seq<u8>>::empty());
    assert(reply_frames(id, reply) =~= seq![response]);
    assert(handed.outbound + seq![response] =~= handed.outbound.push(response));
}

/// Shutting a connection down fails every outstanding call with
/// `ConnectionClosed`, each exactly once.
///
/// After the shutdown a call that had not ended has failed with
/// `ConnectionClosed`, and a call that had ended is as it was: no call is
/// given a second end. No call is outstanding any more, so a second shutdown
/// changes nothing. A read from a call that the shutdown ended is answered
/// with `ConnectionClosed`, and with that the call leaves the registry.
pub proof fn law_close_fails_each_once(s: ConnectionView, id: u64)
    requires
        s.has(id),
        s.call(id).wf(),
    ensures
        s.torn_down().closed,
        s.torn_down().has(id),
        !s.torn_down().call(id).live(),
        s.call(id).live() ==> s.torn_down().call(id) == s.call(id).ended(
            SideState::Errored,
            Some(MuxError::ConnectionClosed),
        ),
        s.call(id).live() ==> s.torn_down().call(id).read_result() == Err::<
            Option<Seq<u8>>,
            MuxError,
        >(MuxError::ConnectionClosed),
        s.call(id).live() ==> !s.torn_down().after_recv(id).has(id),
        !s.call(id).live() ==> s.torn_down().call(id) == s.call(id),
        s.torn_down().torn_down() == s.torn_down(),
        s.torn_down().registry.live_ids() == Set::<u64>::empty(),
{
    let t = s.torn_down();
    assert(t.torn_down().registry.calls =~= t.registry.calls);
}

/// A frame that opens a call under an id that is still in the registry is
/// refused with `DuplicateCallId`, and the call that stands under the id,
/// like every other call, is as it was.
///
/// This holds while the connection is open and puts up with the breach; the
/// breach that uses up its patience shuts the connection down instead.
pub proof fn law_duplicate_id_is_refused(s: ConnectionView, f: FrameView)
    requires
        !s.closed,
        !s.out_of_patience(),
        f.wf(),
        f.opens(),
        s.has(f.call_id),
    ensures
        s.frame_result(f) == Err::<Delivery, MuxError>(MuxError::DuplicateCallId),
        s.after_frame(f).registry == s.registry,
        s.after_frame(f).call(f.call_id) == s.call(f.call_id),
        s.after_frame(f).outbound == s.outbound,
        s.after_frame(f).violations == s.violations + 1,
{
}

} // verus!
