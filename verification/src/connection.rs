//! One side of a duplex connection that carries many calls.
//!
//! A `Connection` owns the registry of its calls and the single queue through
//! which every frame leaves. It does no I/O: the program that owns the
//! physical stream hands each frame that arrives to `on_frame` and writes out
//! the frames that `poll_transmit` gives, one writer at a time, in the order
//! in which they were queued.
//!
//! What each operation does is stated over `ConnectionView`, the state of a
//! connection as plain values: for each operation one function says what it
//! answers and one says what state it leaves.

use vstd::prelude::*;
use std::collections::VecDeque;
use crate::bytes::copy_range;
use crate::call::{chunks, Call, CallKind, CallView, Direction, Received, SideState};
use crate::dispatch::{
    first_named, has_method, lemma_first_named, method_views, table_wf, Dispatcher,
    MethodDescriptor, MethodView,
};
use crate::error::MuxError;
use crate::idle::{IdleClock, IdleView};
use crate::frame::{
    decode, encode, spec_decode, spec_encode, Flags, Frame, FrameView, MAX_METHOD_LEN,
    MAX_PAYLOAD_LEN,
};
use crate::registry::{Registry, RegistryView, LAST_CALL_ID};
use crate::service::{Reply, ReplyView, ServerHandlerContext, ServerRequest};

verus! {

/// Whether a send was taken into the queue.
#[derive(Clone, Copy, Debug, PartialEq, Eq, Structural)]
pub enum Admission {
    /// The data is queued behind what was queued before.
    Queued,
    /// The call has as many frames of data queued as it may: nothing was
    /// queued, and the sender is to wait until frames have been written out.
    Full,
}

/// What a frame from the peer did.
#[derive(Clone, Copy, Debug, PartialEq, Eq, Structural)]
pub enum Delivery {
    /// It opened an inbound call for the handler at this place of the table.
    Opened(usize),
    /// It was applied to a call of the registry.
    Applied,
    /// It asked for a method that has no handler: the call was not opened,
    /// and an `error` frame that says so is queued for the peer.
    Refused,
}

/// The frames that a table of frames holds.
pub open spec fn frame_views(frames: Seq<Frame>) -> Seq<FrameView> {
    frames.map_values(|f: Frame| f@)
}

/// How many frames of data for the call `id` a queue holds.
pub open spec fn count_data(frames: Seq<FrameView>, id: u64) -> nat
    decreases frames.len(),
{
    if frames.len() == 0 {
        0
    } else {
        count_data(frames.drop_last(), id) + if frames.last().call_id == id
            && frames.last().flags.data {
            1nat
        } else {
            0nat
        }
    }
}

/// The payloads of the frames of data for the call `id`, in queue order,
/// without the empty ones.
pub open spec fn payloads_for(frames: Seq<FrameView>, id: u64) -> Seq<Seq<u8>>
    decreases frames.len(),
{
    if frames.len() == 0 {
        Seq::empty()
    } else {
        let rest = payloads_for(frames.drop_last(), id);
        let f = frames.last();
        if f.call_id == id && f.flags.data && f.payload.len() > 0 {
            rest.push(f.payload)
        } else {
            rest
        }
    }
}

/// The frame that opens the call `id`.
pub open spec fn open_frame(
    id: u64,
    method: Seq<u8>,
    payload: Seq<u8>,
    half_close: bool,
) -> FrameView {
    FrameView {
        call_id: id,
        method,
        flags: Flags { data: true, half_close, cancel: false, error: false },
        payload,
    }
}

/// A frame of data for the call `id`, which also closes the sender's
/// direction where `half_close` is set.
pub open spec fn data_frame(id: u64, payload: Seq<u8>, half_close: bool) -> FrameView {
    FrameView {
        call_id: id,
        method: Seq::empty(),
        flags: Flags { data: true, half_close, cancel: false, error: false },
        payload,
    }
}

/// The frame that closes the sender's direction of the call `id`.
pub open spec fn half_close_frame(id: u64) -> FrameView {
    FrameView {
        call_id: id,
        method: Seq::empty(),
        flags: Flags { data: false, half_close: true, cancel: false, error: false },
        payload: Seq::empty(),
    }
}

/// The frame that cancels the call `id`.
pub open spec fn cancel_frame(id: u64) -> FrameView {
    FrameView {
        call_id: id,
        method: Seq::empty(),
        flags: Flags { data: false, half_close: false, cancel: true, error: false },
        payload: Seq::empty(),
    }
}

/// The frame that fails the call `id` with `e`.
pub open spec fn error_frame(id: u64, e: MuxError, detail: Seq<u8>) -> FrameView {
    FrameView {
        call_id: id,
        method: Seq::empty(),
        flags: Flags { data: false, half_close: false, cancel: false, error: true },
        payload: seq![e.spec_code()] + detail,
    }
}

/// The failure that a call ended with, if it was cancelled or failed.
pub open spec fn end_error(c: CallView) -> Option<MuxError> {
    if c.request == SideState::Cancelled {
        Some(MuxError::Cancelled)
    } else if c.request == SideState::Errored {
        c.failure
    } else {
        None
    }
}

/// A call after a frame from the peer: a `cancel` frame cancels it, an
/// `error` frame fails it with the failure and the detail it carries, any
/// other frame delivers its data and then, if it says so, closes the peer's
/// direction.
pub open spec fn apply_frame(c: CallView, f: FrameView) -> CallView {
    if f.flags.cancel {
        c.cancel()
    } else if f.flags.error {
        c.fail_with(f.failure(), f.payload.subrange(1, f.payload.len() as int))
    } else {
        let d = if f.flags.data {
            c.deliver(f.payload)
        } else {
            c
        };
        if f.flags.half_close {
            d.close_remote()
        } else {
            d
        }
    }
}

/// The call that `open_call` puts into the registry: its request direction
/// is closed at once unless requests stream.
pub open spec fn opened_call(kind: CallKind) -> CallView {
    if kind.spec_streams_requests() {
        CallView::fresh(Direction::Outbound, kind, 0)
    } else {
        CallView::fresh(Direction::Outbound, kind, 0).close_local()
    }
}

/// Every frame of the queue has an encoding.
pub open spec fn frames_wf(frames: Seq<FrameView>) -> bool {
    forall|i: int| 0 <= i < frames.len() ==> (#[trigger] frames[i]).wf()
}

/// Every inbound call belongs to a handler of a table of `n` methods.
pub open spec fn handlers_known(calls: Map<u64, CallView>, n: nat) -> bool {
    forall|id: u64| #[trigger]
        calls.contains_key(id) ==> (calls[id].direction == Direction::Inbound ==> calls[id].method
            < n)
}

/// The state of a connection, as plain values.
pub struct ConnectionView {
    /// The calls that have been opened and not retired.
    pub registry: RegistryView,
    /// The methods that handlers are registered under.
    pub methods: Seq<MethodView>,
    /// The frames that wait to be written out, oldest first.
    pub outbound: Seq<FrameView>,
    /// Whether the connection has been shut down.
    pub closed: bool,
    /// How often the peer has broken the protocol so far.
    pub violations: nat,
    /// How many frames of data one call may have in the queue.
    pub queue_limit: nat,
    /// How many breaches of the protocol the connection puts up with.
    pub tolerance: nat,
    /// The time, and when each call was last heard of.
    pub idle: IdleView,
}

impl ConnectionView {
    /// The state of a connection that has just been set up.
    pub open spec fn fresh(initiator: bool, queue_limit: nat, tolerance: nat) -> ConnectionView {
        ConnectionView {
            registry: RegistryView::empty(initiator),
            methods: Seq::empty(),
            outbound: Seq::empty(),
            closed: false,
            violations: 0,
            queue_limit,
            tolerance,
            idle: IdleView::fresh(),
        }
    }

    /// The invariant of a connection: its registry and its table of methods
    /// are consistent, every frame in the queue has an encoding, every
    /// inbound call belongs to a handler of the table, and no more breaches
    /// were counted than the connection tolerates.
    pub open spec fn wf(self) -> bool {
        &&& self.registry.wf()
        &&& table_wf(self.methods)
        &&& self.violations <= self.tolerance
        &&& frames_wf(self.outbound)
        &&& handlers_known(self.registry.calls, self.methods.len())
    }

    /// Whether a call stands under `id`.
    pub open spec fn has(self, id: u64) -> bool {
        self.registry.calls.contains_key(id)
    }

    /// The call that stands under `id`.
    pub open spec fn call(self, id: u64) -> CallView
        recommends
            self.has(id),
    {
        self.registry.calls[id]
    }

    /// The state with `c` under `id`.
    pub open spec fn with_call(self, id: u64, c: CallView) -> ConnectionView {
        ConnectionView { registry: self.registry.with_call(id, c), ..self }
    }

    /// The state without the call `id`.
    pub open spec fn without(self, id: u64) -> ConnectionView {
        ConnectionView {
            registry: self.registry.without(id),
            idle: self.idle.forget(id),
            ..self
        }
    }

    /// The state with the present time noted as the time at which something
    /// last arrived from the peer.
    pub open spec fn heard(self) -> ConnectionView {
        ConnectionView { idle: self.idle.hear(), ..self }
    }

    /// The state with the call `id` noted as heard of at the present time.
    pub open spec fn touch(self, id: u64) -> ConnectionView {
        ConnectionView { idle: self.idle.touch(id), ..self }
    }

    /// The state with `f` queued behind the frames that wait.
    pub open spec fn emit(self, f: FrameView) -> ConnectionView {
        ConnectionView { outbound: self.outbound.push(f), ..self }
    }

    /// How many frames of data the call `id` has in the queue.
    pub open spec fn queued(self, id: u64) -> nat {
        count_data(self.outbound, id)
    }

    /// The state after the connection is shut down: no frame waits, and every
    /// call that had not ended has failed with `ConnectionClosed`.
    pub open spec fn torn_down(self) -> ConnectionView {
        ConnectionView {
            registry: self.registry.fail_all(MuxError::ConnectionClosed),
            outbound: Seq::empty(),
            closed: true,
            ..self
        }
    }

    /// What `register` answers: the place that the method gets in the table,
    /// unless its name is refused.
    pub open spec fn register_result(self, name: Seq<u8>) -> Option<usize> {
        if name.len() == 0 || name.len() > MAX_METHOD_LEN || has_method(self.methods, name) {
            None
        } else {
            Some(self.methods.len() as usize)
        }
    }

    /// The state after `register`: the method is the last of the table,
    /// unless its name was refused.
    pub open spec fn after_register(self, name: Seq<u8>, streaming: CallKind) -> ConnectionView {
        if self.register_result(name) is Some {
            ConnectionView { methods: self.methods.push(MethodView { name, streaming }), ..self }
        } else {
            self
        }
    }

    /// The state after the methods of `methods` have been registered one
    /// after the other, each as `after_register` says.
    pub open spec fn register_all(self, methods: Seq<MethodView>) -> ConnectionView
        decreases methods.len(),
    {
        if methods.len() == 0 {
            self
        } else {
            self.register_all(methods.drop_last()).after_register(
                methods.last().name,
                methods.last().streaming,
            )
        }
    }

    /// Why a call cannot be opened, if it cannot.
    pub open spec fn open_call_error(self, method: Seq<u8>, payload: Seq<u8>) -> Option<MuxError> {
        if self.closed {
            Some(MuxError::ConnectionClosed)
        } else if method.len() == 0 || method.len() > MAX_METHOD_LEN || payload.len()
            > MAX_PAYLOAD_LEN {
            Some(MuxError::MalformedFrame)
        } else if self.registry.next_id > LAST_CALL_ID {
            Some(MuxError::CallIdsExhausted)
        } else {
            None
        }
    }

    /// The state after a call is opened: it stands in the registry under the
    /// next id of this side, and the frame that opens it is queued.
    pub open spec fn after_open_call(
        self,
        method: Seq<u8>,
        kind: CallKind,
        payload: Seq<u8>,
    ) -> ConnectionView {
        if self.open_call_error(method, payload) is Some {
            self
        } else {
            let id = self.registry.next_id;
            ConnectionView {
                registry: RegistryView {
                    calls: self.registry.calls.insert(id, opened_call(kind)),
                    next_id: (id + 2) as u64,
                    initiator: self.registry.initiator,
                },
                outbound: self.outbound.push(
                    open_frame(id, method, payload, !kind.spec_streams_requests()),
                ),
                idle: self.idle.touch(id),
                ..self
            }
        }
    }

    /// What `send` answers.
    pub open spec fn send_result(self, id: u64, payload: Seq<u8>) -> Result<Admission, MuxError> {
        if self.closed {
            Err(MuxError::ConnectionClosed)
        } else if !self.has(id) {
            Err(MuxError::UnknownCall)
        } else if end_error(self.call(id)) is Some {
            Err(end_error(self.call(id)).unwrap())
        } else if self.call(id).local() != SideState::Open {
            Err(MuxError::SendClosed)
        } else if payload.len() > MAX_PAYLOAD_LEN {
            Err(MuxError::MalformedFrame)
        } else if self.queued(id) >= self.queue_limit {
            Ok(Admission::Full)
        } else {
            Ok(Admission::Queued)
        }
    }

    /// The state after `send`: the data is queued if it was admitted, and
    /// nothing has changed if it was not.
    pub open spec fn after_send(self, id: u64, payload: Seq<u8>) -> ConnectionView {
        if self.send_result(id, payload) == Ok::<Admission, MuxError>(Admission::Queued) {
            self.emit(data_frame(id, payload, false)).touch(id)
        } else {
            self
        }
    }

    /// Why an operation on the call `id` is refused, if it is: the
    /// connection is shut down, no call stands under the id, or the call was
    /// cancelled or failed.
    pub open spec fn call_error(self, id: u64) -> Option<MuxError> {
        if self.closed {
            Some(MuxError::ConnectionClosed)
        } else if !self.has(id) {
            Some(MuxError::UnknownCall)
        } else {
            end_error(self.call(id))
        }
    }

    /// The state after `close_send`: where this side's direction was open it
    /// is closed and a `half_close` frame is queued.
    pub open spec fn after_close_send(self, id: u64) -> ConnectionView {
        if self.call_error(id) is None && self.call(id).local() == SideState::Open {
            self.with_call(id, self.call(id).close_local()).emit(half_close_frame(id)).touch(id)
        } else {
            self
        }
    }

    /// Why the call `id` cannot be ended from this side, if it cannot.
    pub open spec fn end_call_error(self, id: u64) -> Option<MuxError> {
        if self.closed {
            Some(MuxError::ConnectionClosed)
        } else if !self.has(id) {
            Some(MuxError::UnknownCall)
        } else {
            None
        }
    }

    /// The state after `cancel`: a call that had not ended is cancelled and a
    /// `cancel` frame is queued for the peer.
    pub open spec fn after_cancel(self, id: u64) -> ConnectionView {
        if self.end_call_error(id) is None && self.call(id).live() {
            self.with_call(id, self.call(id).cancel()).emit(cancel_frame(id))
        } else {
            self
        }
    }

    /// The state after `expire`: a call that had not ended has failed with
    /// `Timeout` and a `cancel` frame is queued for the peer.
    pub open spec fn after_expire(self, id: u64) -> ConnectionView {
        if self.end_call_error(id) is None && self.call(id).live() {
            self.with_call(id, self.call(id).fail(MuxError::Timeout)).emit(cancel_frame(id))
        } else {
            self
        }
    }

    /// Why a handler's failure cannot be passed on, if it cannot.
    pub open spec fn fail_call_error(self, id: u64, detail: Seq<u8>) -> Option<MuxError> {
        if self.end_call_error(id) is Some {
            self.end_call_error(id)
        } else if 1 + detail.len() > MAX_PAYLOAD_LEN {
            Some(MuxError::MalformedFrame)
        } else {
            None
        }
    }

    /// The state after `fail_call`: a call that had not ended has failed with
    /// `HandlerFailed` and an `error` frame that says so is queued.
    pub open spec fn after_fail_call(self, id: u64, detail: Seq<u8>) -> ConnectionView {
        if self.fail_call_error(id, detail) is None && self.call(id).live() {
            self.with_call(id, self.call(id).fail(MuxError::HandlerFailed)).emit(
                error_frame(id, MuxError::HandlerFailed, detail),
            )
        } else {
            self
        }
    }

    /// Whether a read of the call `id` tells the reader how the call ended.
    pub open spec fn read_ends(self, id: u64) -> bool {
        self.has(id) && (self.call(id).read_result() is Err || (self.call(id).request
            == SideState::Done && self.call(id).inbox.len() == 0))
    }

    /// The state after `recv`: the payload that was read is gone from the
    /// call, and the call is gone from the registry once the reader has been
    /// told how it ended.
    pub open spec fn after_recv(self, id: u64) -> ConnectionView {
        if !self.has(id) {
            self
        } else if self.read_ends(id) {
            self.without(id)
        } else {
            self.with_call(id, self.call(id).after_read())
        }
    }

    /// The state after the connection was told the time `now`.
    pub open spec fn after_advance(self, now: u64) -> ConnectionView {
        ConnectionView { idle: self.idle.advance(now), ..self }
    }

    /// The state after the idle limit was set.
    pub open spec fn with_idle_limit(self, limit: Option<u64>) -> ConnectionView {
        ConnectionView { idle: IdleView { limit, ..self.idle }, ..self }
    }

    /// Whether the call `id` has timed out: it has not ended, and no frame
    /// was sent or received for it for as long as calls may stay idle.
    pub open spec fn is_idle(self, id: u64) -> bool {
        self.has(id) && self.call(id).live() && self.idle.overdue(id)
    }

    /// The state after `expire_idle`: the call has been expired if it had
    /// timed out.
    pub open spec fn after_expire_idle(self, id: u64) -> ConnectionView {
        if self.is_idle(id) {
            self.after_expire(id)
        } else {
            self
        }
    }

    /// The state after the limit on the peer's silence was set.
    pub open spec fn with_keep_alive(self, keep_alive: Option<u64>) -> ConnectionView {
        ConnectionView { idle: IdleView { keep_alive, ..self.idle }, ..self }
    }

    /// Whether the peer has kept quiet for as long as it may: the connection
    /// is open, and nothing has arrived for as long as the keep-alive limit.
    pub open spec fn is_silent(self) -> bool {
        !self.closed && self.idle.silent()
    }

    /// The state after `close_if_silent`: the connection is shut down if
    /// the peer has kept quiet for too long.
    pub open spec fn after_close_if_silent(self) -> ConnectionView {
        if self.is_silent() {
            self.torn_down()
        } else {
            self
        }
    }

    /// The state after the calls of `ids` have been expired one after the
    /// other, each if it had timed out.
    pub open spec fn expire_each(self, ids: Seq<u64>) -> ConnectionView
        decreases ids.len(),
    {
        if ids.len() == 0 {
            self
        } else {
            self.expire_each(ids.drop_last()).after_expire_idle(ids.last())
        }
    }

    /// Whether `retire` removes the call `id`: it does where the call is in
    /// the registry and has ended.
    pub open spec fn retires(self, id: u64) -> bool {
        self.has(id) && !self.call(id).live()
    }

    /// The state after `retire`.
    pub open spec fn after_retire(self, id: u64) -> ConnectionView {
        if self.retires(id) {
            self.without(id)
        } else {
            self
        }
    }

    /// The state after `poll_transmit`: the oldest frame has left the queue.
    pub open spec fn after_transmit(self) -> ConnectionView {
        if self.outbound.len() > 0 {
            ConnectionView {
                outbound: self.outbound.subrange(1, self.outbound.len() as int),
                ..self
            }
        } else {
            self
        }
    }

    /// How a frame from the peer breaks the protocol, if it does: it has no
    /// encoding, it opens a call under an id that is taken or that is not
    /// the peer's to use, or it continues a call that the registry does not
    /// hold.
    pub open spec fn frame_fault(self, f: FrameView) -> Option<MuxError> {
        if !f.wf() {
            Some(MuxError::MalformedFrame)
        } else if f.opens() {
            self.registry.refusal(f.call_id)
        } else if !self.has(f.call_id) {
            Some(MuxError::UnknownCall)
        } else {
            None
        }
    }

    /// Whether the connection has put up with as much as it will.
    pub open spec fn out_of_patience(self) -> bool {
        self.violations >= self.tolerance
    }

    /// The state after a breach of the protocol: the breach is counted, or,
    /// where the connection has put up with as many as it tolerates, the
    /// connection is shut down.
    pub open spec fn after_violation(self) -> ConnectionView {
        if self.closed {
            self
        } else if self.out_of_patience() {
            self.torn_down()
        } else {
            ConnectionView { violations: self.violations + 1, ..self }
        }
    }

    /// What a breach of the protocol is answered with.
    pub open spec fn violation_error(self, e: MuxError) -> MuxError {
        if self.closed {
            MuxError::ConnectionClosed
        } else if self.out_of_patience() {
            MuxError::ProtocolAbuse
        } else {
            e
        }
    }

    /// What `on_bytes` answers: bytes that spell no frame are a breach of
    /// the protocol, and the frame that bytes spell is taken in as `on_frame`
    /// takes it in.
    pub open spec fn bytes_result(self, bytes: Seq<u8>) -> Result<Delivery, MuxError> {
        if self.closed {
            Err(MuxError::ConnectionClosed)
        } else if spec_decode(bytes) is None {
            Err(self.violation_error(MuxError::MalformedFrame))
        } else {
            self.frame_result(spec_decode(bytes).unwrap())
        }
    }

    /// The state after `on_bytes`.
    pub open spec fn after_bytes(self, bytes: Seq<u8>) -> ConnectionView {
        if self.closed {
            self
        } else if spec_decode(bytes) is None {
            self.heard().after_violation()
        } else {
            self.after_frame(spec_decode(bytes).unwrap())
        }
    }

    /// What `on_frame` answers.
    pub open spec fn frame_result(self, f: FrameView) -> Result<Delivery, MuxError> {
        if self.closed {
            Err(MuxError::ConnectionClosed)
        } else if self.frame_fault(f) is Some {
            Err(self.violation_error(self.frame_fault(f).unwrap()))
        } else if !f.opens() {
            Ok(Delivery::Applied)
        } else if has_method(self.methods, f.method) {
            Ok(Delivery::Opened(first_named(self.methods, f.method) as usize))
        } else {
            Ok(Delivery::Refused)
        }
    }

    /// The state after `on_frame`: unless the connection is shut down, the
    /// arrival is noted and the frame is taken in.
    pub open spec fn after_frame(self, f: FrameView) -> ConnectionView {
        if self.closed {
            self
        } else {
            self.heard().taken_in(f)
        }
    }

    /// The state after a frame was taken in by a connection that is open.
    pub open spec fn taken_in(self, f: FrameView) -> ConnectionView {
        if self.frame_fault(f) is Some {
            self.after_violation()
        } else if !f.opens() {
            self.with_call(f.call_id, apply_frame(self.call(f.call_id), f)).touch(f.call_id)
        } else if has_method(self.methods, f.method) {
            let i = first_named(self.methods, f.method);
            self.with_call(
                f.call_id,
                apply_frame(
                    CallView::fresh(Direction::Inbound, self.methods[i].streaming, i as usize),
                    f,
                ),
            ).touch(f.call_id)
        } else {
            self.emit(error_frame(f.call_id, MuxError::MethodNotFound, Seq::empty()))
        }
    }
}

/// Whether every payload is one that a frame can carry.
pub open spec fn all_fit(messages: Seq<Seq<u8>>) -> bool {
    forall|i: int| 0 <= i < messages.len() ==> (#[trigger] messages[i]).len() <= MAX_PAYLOAD_LEN
}

/// One frame of data for the call `id` for each payload, in their order.
pub open spec fn data_frames(id: u64, messages: Seq<Seq<u8>>) -> Seq<FrameView> {
    messages.map_values(|m: Seq<u8>| data_frame(id, m, false))
}

/// The frames that carry a reply on the call `id`: its responses in their
/// order, and behind them the handler's failure if it gave up. Where the
/// reply ends the response direction, the last response says so in the same
/// frame; a `half_close` frame of its own is sent only where there is no
/// response to carry it.
pub open spec fn reply_frames(id: u64, reply: ReplyView) -> Seq<FrameView> {
    if reply.failure is Some {
        data_frames(id, reply.messages).push(
            error_frame(id, MuxError::HandlerFailed, reply.failure.unwrap()),
        )
    } else if !reply.finished {
        data_frames(id, reply.messages)
    } else if reply.messages.len() == 0 {
        seq![half_close_frame(id)]
    } else {
        data_frames(id, reply.messages.drop_last()).push(
            data_frame(id, reply.messages.last(), true),
        )
    }
}

/// A call after its handler's reply: failed where the handler gave up, with
/// this side's direction closed where the reply ends it.
pub open spec fn replied_call(c: CallView, reply: ReplyView) -> CallView {
    if reply.failure is Some {
        c.fail(MuxError::HandlerFailed)
    } else if reply.finished {
        c.close_local()
    } else {
        c
    }
}

impl ConnectionView {
    /// Why the requests of the call `id` cannot be handed to a handler, if
    /// they cannot: no inbound call stands under the id, or the call was
    /// cancelled or failed.
    pub open spec fn request_error(self, id: u64) -> Option<MuxError> {
        if !self.has(id) || self.call(id).direction != Direction::Inbound {
            Some(MuxError::UnknownCall)
        } else {
            end_error(self.call(id))
        }
    }

    /// Whether the handler of the call `id` is to run: always for a call
    /// whose two directions both stream, and otherwise once the peer has
    /// finished sending.
    pub open spec fn request_ready(self, id: u64) -> bool {
        self.call(id).kind == CallKind::Bidi || self.call(id).remote() != SideState::Open
    }

    /// The state after `take_request`: the requests that were handed out are
    /// gone from the call, and a call that was cancelled or failed is gone
    /// from the registry.
    pub open spec fn after_take_request(self, id: u64) -> ConnectionView {
        if !self.has(id) || self.call(id).direction != Direction::Inbound {
            self
        } else if end_error(self.call(id)) is Some {
            self.without(id)
        } else if self.request_ready(id) {
            self.with_call(id, CallView { inbox: Seq::empty(), ..self.call(id) })
        } else {
            self
        }
    }

    /// What `respond` answers. A reply is refused where the call cannot take
    /// one, where the call has one response and the reply is neither that
    /// response nor a failure, where a frame cannot carry what it holds, and
    /// where it holds more responses than the call may ever have waiting.
    /// Otherwise it is queued if the call has room for it, and has to wait
    /// if not.
    pub open spec fn respond_result(self, id: u64, reply: ReplyView) -> Result<
        Admission,
        MuxError,
    > {
        if self.call_error(id) is Some {
            Err(self.call_error(id).unwrap())
        } else if self.call(id).direction != Direction::Inbound {
            Err(MuxError::UnknownCall)
        } else if self.call(id).local() != SideState::Open {
            Err(MuxError::SendClosed)
        } else if !self.call(id).kind.spec_streams_responses() && !reply.unary_shaped() {
            Err(MuxError::ReplyShape)
        } else if !all_fit(reply.messages) || (reply.failure is Some && 1
            + reply.failure.unwrap().len() > MAX_PAYLOAD_LEN) {
            Err(MuxError::MalformedFrame)
        } else if reply.messages.len() > self.queue_limit {
            Err(MuxError::ReplyTooLong)
        } else if self.queued(id) + reply.messages.len() > self.queue_limit {
            Ok(Admission::Full)
        } else {
            Ok(Admission::Queued)
        }
    }

    /// The state after `respond`: where the reply was admitted its frames
    /// are queued, and the call has moved on as the reply says; a call that
    /// the reply ended is gone from the registry.
    pub open spec fn after_respond(self, id: u64, reply: ReplyView) -> ConnectionView {
        if self.respond_result(id, reply) == Ok::<Admission, MuxError>(Admission::Queued) {
            let c = replied_call(self.call(id), reply);
            let queued = ConnectionView {
                outbound: self.outbound + reply_frames(id, reply),
                ..self
            };
            if c.live() {
                queued.with_call(id, c).touch(id)
            } else {
                queued.without(id)
            }
        } else {
            self
        }
    }

    /// What `poll_unary` answers for a call that is in the registry and was
    /// not cancelled and did not fail: nothing while the peer has not
    /// finished, and then the response, which is the first payload that
    /// arrived, or the empty message if none did.
    pub open spec fn unary_response(self, id: u64) -> Option<Seq<u8>> {
        if self.call(id).remote() == SideState::Open {
            None
        } else if self.call(id).inbox.len() > 0 {
            Some(self.call(id).inbox[0])
        } else {
            Some(Seq::empty())
        }
    }

    /// The state after `poll_unary`: the call is gone from the registry once
    /// its response or its failure has been handed out.
    pub open spec fn after_poll_unary(self, id: u64) -> ConnectionView {
        if !self.has(id) {
            self
        } else if end_error(self.call(id)) is Some || self.call(id).remote() != SideState::Open {
            self.without(id)
        } else {
            self
        }
    }
}

/// Counting the frames of one call in a queue that grew by one frame.
pub proof fn lemma_count_push(frames: Seq<FrameView>, f: FrameView, id: u64)
    ensures
        count_data(frames.push(f), id) == count_data(frames, id) + if f.call_id == id
            && f.flags.data {
            1nat
        } else {
            0nat
        },
        count_data(frames, id) <= frames.len(),
    decreases frames.len(),
{
    assert(frames.push(f).drop_last() =~= frames);
    if frames.len() > 0 {
        lemma_count_push(frames.drop_last(), frames.last(), id);
    }
}

/// One side of a multiplexed connection.
pub struct Connection {
    registry: Registry,
    dispatcher: Dispatcher,
    outbound: VecDeque<Frame>,
    closed: bool,
    violations: usize,
    queue_limit: usize,
    tolerance: usize,
    idle: IdleClock,
}

impl View for Connection {
    type V = ConnectionView;

    closed spec fn view(&self) -> ConnectionView {
        ConnectionView {
            registry: self.registry@,
            methods: self.dispatcher@,
            outbound: frame_views(self.outbound@),
            closed: self.closed,
            violations: self.violations as nat,
            queue_limit: self.queue_limit as nat,
            tolerance: self.tolerance as nat,
            idle: self.idle@,
        }
    }
}

impl Connection {
    /// The invariant of a connection.
    pub closed spec fn wf(&self) -> bool {
        &&& self@.wf()
        &&& self.registry.wf()
        &&& self.dispatcher.wf()
    }

    /// What `wf` says of the view.
    pub proof fn lemma_wf(&self)
        requires
            self.wf(),
        ensures
            self@.wf(),
    {
    }

    /// A connection without calls: for the side that dialled (`initiator`)
    /// or the side that accepted. One call may have `queue_limit` frames of
    /// data waiting to be written out, and the peer may break the protocol
    /// `tolerance` times before the connection is shut down.
    pub fn new(initiator: bool, queue_limit: usize, tolerance: usize) -> (c: Connection)
        ensures
            c.wf(),
            c@ == ConnectionView::fresh(initiator, queue_limit as nat, tolerance as nat),
    {
        let c = Connection {
            registry: Registry::new(initiator),
            dispatcher: Dispatcher::new(),
            outbound: VecDeque::new(),
            closed: false,
            violations: 0,
            queue_limit,
            tolerance,
            idle: IdleClock::new(),
        };
        proof {
            assert(c@.outbound =~= Seq::<FrameView>::empty());
        }
        c
    }

    /// Whether the connection has been shut down.
    pub fn is_closed(&self) -> (b: bool)
        ensures
            b == self@.closed,
    {
        self.closed
    }

    /// Whether a call stands under `id`.
    pub fn has_call(&self, id: u64) -> (b: bool)
        ensures
            b == self@.has(id),
    {
        self.registry.contains(id)
    }

    /// The call that stands under `id`, if one does.
    pub fn lookup(&self, id: u64) -> (r: Option<&Call>)
        ensures
            match r {
                Some(call) => self@.has(id) && self@.call(id) == call@,
                None => !self@.has(id),
            },
    {
        self.registry.lookup(id)
    }

    /// The number of calls in the registry.
    pub fn call_count(&self) -> (n: usize)
        ensures
            n == self@.registry.calls.dom().len(),
    {
        self.registry.len()
    }

    /// The number of frames that wait to be written out.
    pub fn pending_frames(&self) -> (n: usize)
        ensures
            n == self@.outbound.len(),
    {
        self.outbound.len()
    }

    /// How many frames of data the call `id` has in the queue.
    pub fn queued(&self, id: u64) -> (n: usize)
        ensures
            n == self@.queued(id),
    {
        let ghost frames = frame_views(self.outbound@);
        let mut n: usize = 0;
        let mut i: usize = 0;
        while i < self.outbound.len()
            invariant
                i <= self.outbound@.len(),
                frames == frame_views(self.outbound@),
                n == count_data(frames.subrange(0, i as int), id),
                n <= i,
            decreases self.outbound@.len() - i,
        {
            let f = &self.outbound[i];
            proof {
                assert(frames.subrange(0, i + 1) =~= frames.subrange(0, i as int).push(
                    frames[i as int],
                ));
                lemma_count_push(frames.subrange(0, i as int), frames[i as int], id);
            }
            if f.call_id == id && f.flags.data {
                n = n + 1;
            }
            i = i + 1;
        }
        assert(frames.subrange(0, i as int) =~= frames);
        n
    }

    /// Registers a handler of the given kind under `name` and gives its
    /// place in the table. A name that is empty, too long for a frame or
    /// already registered is refused.
    pub fn register(&mut self, name: &[u8], streaming: CallKind) -> (r: Option<usize>)
        requires
            old(self).wf(),
        ensures
            final(self).wf(),
            r == old(self)@.register_result(name@),
            final(self)@ == old(self)@.after_register(name@, streaming),
    {
        let r = self.dispatcher.register(name, streaming);
        r
    }

    /// Registers the methods of a service, in their order, and gives the
    /// number of those that were taken into the table. A method whose name
    /// is refused is left out; the others are registered all the same.
    pub fn add_service(&mut self, methods: &Vec<MethodDescriptor>) -> (added: usize)
        requires
            old(self).wf(),
        ensures
            final(self).wf(),
            final(self)@ == old(self)@.register_all(method_views(methods@)),
            added == final(self)@.methods.len() - old(self)@.methods.len(),
    {
        let ghost views = method_views(methods@);
        let mut added: usize = 0;
        let mut i: usize = 0;
        while i < methods.len()
            invariant
                i <= methods@.len(),
                views == method_views(methods@),
                self.wf(),
                self@ == old(self)@.register_all(views.subrange(0, i as int)),
                added == self@.methods.len() - old(self)@.methods.len(),
                added <= i,
            decreases methods@.len() - i,
        {
            proof {
                assert(views.subrange(0, i + 1).drop_last() =~= views.subrange(0, i as int));
            }
            let m = &methods[i];
            if self.register(m.name.as_slice(), m.streaming).is_some() {
                added = added + 1;
            }
            i = i + 1;
        }
        assert(views.subrange(0, i as int) =~= views);
        added
    }

    /// Queues a frame behind the frames that wait.
    fn push_frame(&mut self, frame: Frame)
        requires
            old(self).wf(),
            frame@.wf(),
        ensures
            final(self).wf(),
            final(self)@ == old(self)@.emit(frame@),
    {
        let ghost f = frame@;
        self.outbound.push_back(frame);
        proof {
            assert(frame_views(self.outbound@) =~= frame_views(old(self).outbound@).push(f));
        }
    }

    /// Notes that something arrived from the peer now.
    fn hear(&mut self)
        requires
            old(self).wf(),
        ensures
            final(self).wf(),
            final(self)@ == old(self)@.heard(),
    {
        self.idle.hear();
    }

    /// Notes that the call `id` was heard of now.
    fn touch(&mut self, id: u64)
        requires
            old(self).wf(),
        ensures
            final(self).wf(),
            final(self)@ == old(self)@.touch(id),
    {
        self.idle.touch(id);
    }

    /// Drops what the idle clock noted for the call `id`.
    fn forget(&mut self, id: u64)
        requires
            old(self).wf(),
        ensures
            final(self).wf(),
            final(self)@ == (ConnectionView { idle: old(self)@.idle.forget(id), ..old(self)@ }),
    {
        self.idle.forget(id);
    }

    /// Takes the call that stands under `id` out of the registry, to be
    /// changed and put back.
    fn take_call(&mut self, id: u64) -> (r: Option<Call>)
        requires
            old(self).wf(),
        ensures
            final(self).wf(),
            final(self)@ == (ConnectionView {
                registry: old(self)@.registry.without(id),
                ..old(self)@
            }),
            match r {
                Some(call) => {
                    &&& old(self)@.has(id)
                    &&& old(self)@.call(id) == call@
                    &&& old(self)@.registry.admits(id, call@)
                },
                None => !old(self)@.has(id) && final(self)@ == old(self)@,
            },
    {
        let r = self.registry.take(id);
        proof {
            if r is None {
                assert(self@.registry.calls =~= old(self)@.registry.calls);
            }
        }
        r
    }

    /// Opens the inbound call that the peer announced under `id`, for the
    /// handler at the place `method` of the table.
    fn accept_call(&mut self, id: u64, kind: CallKind, method: usize) -> (r: Result<(), MuxError>)
        requires
            old(self).wf(),
            method < old(self)@.methods.len(),
        ensures
            final(self).wf(),
            match r {
                Ok(()) => old(self)@.registry.refusal(id) is None && final(self)@ == old(
                    self,
                )@.with_call(id, CallView::fresh(Direction::Inbound, kind, method)),
                Err(e) => old(self)@.registry.refusal(id) == Some(e) && final(self)@ == old(self)@,
            },
    {
        let r = self.registry.accept(id, kind, method);
        proof {
            self.registry.lemma_wf();
        }
        r
    }

    /// Opens a call of the method `method` and queues the frame that opens
    /// it, with `payload` as its data. A call whose requests do not stream
    /// has its request direction closed by that same frame. Gives the id of
    /// the call.
    ///
    /// The frame that opens a call is queued however many frames wait; it
    /// counts as the first frame of data of the call.
    pub fn open_call(&mut self, method: &[u8], kind: CallKind, payload: Vec<u8>) -> (r: Result<
        u64,
        MuxError,
    >)
        requires
            old(self).wf(),
        ensures
            final(self).wf(),
            final(self)@ == old(self)@.after_open_call(method@, kind, payload@),
            match r {
                Ok(id) => old(self)@.open_call_error(method@, payload@) is None && id == old(
                    self,
                )@.registry.next_id,
                Err(e) => old(self)@.open_call_error(method@, payload@) == Some(e),
            },
    {
        if self.closed {
            return Err(MuxError::ConnectionClosed);
        }
        let m: usize = method.len();
        if m == 0 || m > MAX_METHOD_LEN || payload.len() > MAX_PAYLOAD_LEN {
            return Err(MuxError::MalformedFrame);
        }
        let streams = kind.streams_requests();
        let id: u64 = match self.registry.allocate(kind) {
            Ok(id) => id,
            Err(e) => {
                return Err(e);
            },
        };
        if !streams {
            match self.take_call(id) {
                Some(mut call) => {
                    call.close_local();
                    self.registry.put(id, call);
                },
                None => {},
            }
        }
        proof {
            assert(self@.registry.calls =~= old(self)@.registry.calls.insert(
                id,
                opened_call(kind),
            ));
        }
        let name = copy_range(method, 0, m);
        assert(name@ =~= method@);
        let frame = Frame::open(id, name, payload, !streams);
        self.push_frame(frame);
        self.touch(id);
        Ok(id)
    }

    /// Queues `payload` as data of the call `id`, behind everything that was
    /// queued before. Where the call already has as many frames of data
    /// waiting as it may, nothing is queued and the answer is `Full`.
    pub fn send(&mut self, id: u64, payload: Vec<u8>) -> (r: Result<Admission, MuxError>)
        requires
            old(self).wf(),
        ensures
            final(self).wf(),
            r == old(self)@.send_result(id, payload@),
            final(self)@ == old(self)@.after_send(id, payload@),
    {
        if let Some(e) = self.check_call(id) {
            return Err(e);
        }
        let open = match self.registry.lookup(id) {
            Some(call) => call.local() == SideState::Open,
            None => false,
        };
        if !open {
            return Err(MuxError::SendClosed);
        }
        if payload.len() > MAX_PAYLOAD_LEN {
            return Err(MuxError::MalformedFrame);
        }
        if self.queued(id) >= self.queue_limit {
            return Ok(Admission::Full);
        }
        let frame = Frame::data(id, payload);
        self.push_frame(frame);
        self.touch(id);
        Ok(Admission::Queued)
    }

    /// The failure that stands in the way of an operation on the call `id`,
    /// if one does.
    fn check_call(&self, id: u64) -> (r: Option<MuxError>)
        requires
            self.wf(),
        ensures
            r == self@.call_error(id),
    {
        if self.closed {
            return Some(MuxError::ConnectionClosed);
        }
        match self.registry.lookup(id) {
            None => Some(MuxError::UnknownCall),
            Some(call) => {
                match call.request {
                    SideState::Cancelled => Some(MuxError::Cancelled),
                    SideState::Errored => call.failure,
                    _ => None,
                }
            },
        }
    }

    /// Closes this side's direction of the call `id` and queues the
    /// `half_close` frame that tells the peer. Closing a direction that is
    /// closed already does nothing.
    pub fn close_send(&mut self, id: u64) -> (r: Result<(), MuxError>)
        requires
            old(self).wf(),
        ensures
            final(self).wf(),
            final(self)@ == old(self)@.after_close_send(id),
            match r {
                Ok(()) => old(self)@.call_error(id) is None,
                Err(e) => old(self)@.call_error(id) == Some(e),
            },
    {
        if let Some(e) = self.check_call(id) {
            return Err(e);
        }
        match self.take_call(id) {
            Some(mut call) => {
                let was_open = call.local() == SideState::Open;
                call.close_local();
                self.put_call_back(id, call, Ghost(old(self)@));
                if was_open {
                    self.push_frame(Frame::half_close(id));
                    self.touch(id);
                } else {
                    assert(self@.registry.calls =~= old(self)@.registry.calls);
                }
            },
            None => {},
        }
        Ok(())
    }

    /// Puts back a call that was taken out of the registry to be changed.
    fn put_call_back(&mut self, id: u64, call: Call, Ghost(before): Ghost<ConnectionView>)
        requires
            before.wf(),
            before.has(id),
            old(self).wf(),
            old(self)@ == (ConnectionView { registry: before.registry.without(id), ..before }),
            call@.wf(),
            call@.direction == before.call(id).direction,
            call@.method == before.call(id).method,
        ensures
            final(self).wf(),
            final(self)@ == before.with_call(id, call@),
    {
        self.registry.put(id, call);
        proof {
            assert(self@.registry.calls =~= before.registry.calls.insert(id, call@));
        }
    }

    /// Cancels the call `id`: it is cancelled on this side at once, and a
    /// `cancel` frame is queued to tell the peer. A call that has ended
    /// stays as it ended.
    pub fn cancel(&mut self, id: u64) -> (r: Result<(), MuxError>)
        requires
            old(self).wf(),
        ensures
            final(self).wf(),
            final(self)@ == old(self)@.after_cancel(id),
            match r {
                Ok(()) => old(self)@.end_call_error(id) is None,
                Err(e) => old(self)@.end_call_error(id) == Some(e),
            },
    {
        if self.closed {
            return Err(MuxError::ConnectionClosed);
        }
        match self.take_call(id) {
            Some(mut call) => {
                let was_live = call.is_live();
                call.cancel();
                self.put_call_back(id, call, Ghost(old(self)@));
                if was_live {
                    self.push_frame(Frame::cancel(id));
                } else {
                    assert(self@.registry.calls =~= old(self)@.registry.calls);
                }
                Ok(())
            },
            None => {
                Err(MuxError::UnknownCall)
            },
        }
    }

    /// Ends the call `id` because it has been idle for too long: it fails
    /// with `Timeout` on this side, and a `cancel` frame is queued to tell
    /// the peer. A call that has ended stays as it ended.
    pub fn expire(&mut self, id: u64) -> (r: Result<(), MuxError>)
        requires
            old(self).wf(),
        ensures
            final(self).wf(),
            final(self)@ == old(self)@.after_expire(id),
            match r {
                Ok(()) => old(self)@.end_call_error(id) is None,
                Err(e) => old(self)@.end_call_error(id) == Some(e),
            },
    {
        if self.closed {
            return Err(MuxError::ConnectionClosed);
        }
        match self.take_call(id) {
            Some(mut call) => {
                let was_live = call.is_live();
                call.fail(MuxError::Timeout);
                self.put_call_back(id, call, Ghost(old(self)@));
                if was_live {
                    self.push_frame(Frame::cancel(id));
                } else {
                    assert(self@.registry.calls =~= old(self)@.registry.calls);
                }
                Ok(())
            },
            None => {
                Err(MuxError::UnknownCall)
            },
        }
    }

    /// Ends the call `id` because its handler gave up: it fails with
    /// `HandlerFailed` on this side, and an `error` frame with the handler's
    /// `detail` is queued for the peer, behind whatever the handler had sent
    /// before. A call that has ended stays as it ended.
    pub fn fail_call(&mut self, id: u64, detail: &[u8]) -> (r: Result<(), MuxError>)
        requires
            old(self).wf(),
        ensures
            final(self).wf(),
            final(self)@ == old(self)@.after_fail_call(id, detail@),
            match r {
                Ok(()) => old(self)@.fail_call_error(id, detail@) is None,
                Err(e) => old(self)@.fail_call_error(id, detail@) == Some(e),
            },
    {
        if self.closed {
            return Err(MuxError::ConnectionClosed);
        }
        if !self.registry.contains(id) {
            return Err(MuxError::UnknownCall);
        }
        if detail.len() >= MAX_PAYLOAD_LEN {
            return Err(MuxError::MalformedFrame);
        }
        match self.take_call(id) {
            Some(mut call) => {
                let was_live = call.is_live();
                call.fail(MuxError::HandlerFailed);
                self.put_call_back(id, call, Ghost(old(self)@));
                if was_live {
                    self.push_frame(Frame::error(id, MuxError::HandlerFailed, detail));
                } else {
                    assert(self@.registry.calls =~= old(self)@.registry.calls);
                }
            },
            None => {},
        }
        Ok(())
    }

    /// Reads from the call `id`: the failure it ended with, or the oldest
    /// payload that waits, or the end of the stream, or nothing yet. Once a
    /// read has told how the call ended, the call leaves the registry.
    pub fn recv(&mut self, id: u64) -> (r: Result<Received, MuxError>)
        requires
            old(self).wf(),
        ensures
            final(self).wf(),
            final(self)@ == old(self)@.after_recv(id),
            match r {
                Ok(Received::Data(p)) => old(self)@.has(id) && old(self)@.call(id).read_result()
                    == Ok::<Option<Seq<u8>>, MuxError>(Some(p@)),
                Ok(Received::EndOfStream) => old(self)@.has(id) && old(self)@.call(
                    id,
                ).read_result() == Ok::<Option<Seq<u8>>, MuxError>(None) && old(self)@.call(
                    id,
                ).remote() != SideState::Open,
                Ok(Received::Pending) => old(self)@.has(id) && old(self)@.call(id).read_result()
                    == Ok::<Option<Seq<u8>>, MuxError>(None) && old(self)@.call(id).remote()
                    == SideState::Open,
                Err(e) => if old(self)@.has(id) {
                    old(self)@.call(id).read_result() == Err::<Option<Seq<u8>>, MuxError>(e)
                } else {
                    e == MuxError::UnknownCall
                },
            },
    {
        match self.take_call(id) {
            None => {
                Err(MuxError::UnknownCall)
            },
            Some(mut call) => {
                let ends = match call.request {
                    SideState::Cancelled | SideState::Errored => true,
                    SideState::Done => call.inbox.len() == 0,
                    _ => false,
                };
                let r = call.read();
                if ends {
                    self.forget(id);
                } else {
                    self.put_call_back(id, call, Ghost(old(self)@));
                }
                r
            },
        }
    }

    /// Applies a frame from the peer to the call it addresses.
    fn apply(call: &mut Call, frame: Frame)
        requires
            old(call)@.wf(),
            frame@.wf(),
        ensures
            final(call)@ == apply_frame(old(call)@, frame@),
            final(call)@.wf(),
            final(call)@.direction == old(call)@.direction,
            final(call)@.method == old(call)@.method,
    {
        if frame.flags.cancel {
            call.cancel();
        } else if frame.flags.error {
            match MuxError::from_code(frame.payload[0]) {
                Some(e) => {
                    let detail = copy_range(frame.payload.as_slice(), 1, frame.payload.len());
                    call.fail_with(e, detail);
                },
                None => {},
            }
        } else {
            let half_close = frame.flags.half_close;
            if frame.flags.data {
                call.deliver(frame.payload);
            }
            if half_close {
                call.close_remote();
            }
        }
    }

    /// Shuts the connection down and gives the ids of the calls that this
    /// ended.
    fn tear_down(&mut self) -> (failed: Vec<u64>)
        requires
            old(self).wf(),
        ensures
            final(self).wf(),
            final(self)@ == old(self)@.torn_down(),
            failed@.no_duplicates(),
            failed@.to_set() == old(self)@.registry.live_ids(),
    {
        let failed = self.registry.fail_all(MuxError::ConnectionClosed);
        self.outbound.clear();
        self.closed = true;
        proof {
            self.registry.lemma_wf();
            assert(self@.outbound =~= Seq::<FrameView>::empty());
        }
        failed
    }

    /// Counts a breach of the protocol, or shuts the connection down where
    /// it has put up with as many as it tolerates. Gives what the breach is
    /// to be answered with.
    fn violation(&mut self, e: MuxError) -> (r: MuxError)
        requires
            old(self).wf(),
            !old(self)@.closed,
        ensures
            final(self).wf(),
            final(self)@ == old(self)@.after_violation(),
            r == old(self)@.violation_error(e),
    {
        if self.violations >= self.tolerance {
            self.tear_down();
            MuxError::ProtocolAbuse
        } else {
            self.violations = self.violations + 1;
            e
        }
    }

    /// Takes in a frame that arrived from the peer.
    ///
    /// A frame that names a method opens an inbound call under the id it
    /// carries, for the handler registered under that method; if there is
    /// none, the call is not opened and an `error` frame saying
    /// `MethodNotFound` is queued. Any other frame is applied to the call it
    /// addresses: its data is buffered behind the data that waits, in the
    /// order of arrival, and its flags move the call on.
    ///
    /// A frame that breaks the protocol changes no call. It is answered with
    /// what is wrong with it and counted; once the connection has put up with
    /// as many breaches as it tolerates, the next one shuts it down and is
    /// answered with `ProtocolAbuse`.
    pub fn on_frame(&mut self, frame: Frame) -> (r: Result<Delivery, MuxError>)
        requires
            old(self).wf(),
        ensures
            final(self).wf(),
            r == old(self)@.frame_result(frame@),
            final(self)@ == old(self)@.after_frame(frame@),
    {
        if self.closed {
            return Err(MuxError::ConnectionClosed);
        }
        self.hear();
        let ghost heard = self@;
        if !frame.is_well_formed() {
            return Err(self.violation(MuxError::MalformedFrame));
        }
        let id: u64 = frame.call_id;
        if frame.method.len() > 0 {
            match self.dispatcher.resolve(frame.method.as_slice()) {
                None => {
                    if let Some(e) = self.registry.refusal(id) {
                        return Err(self.violation(e));
                    }
                    let nothing: Vec<u8> = Vec::new();
                    let refusal = Frame::error(id, MuxError::MethodNotFound, nothing.as_slice());
                    self.push_frame(refusal);
                    Ok(Delivery::Refused)
                },
                Some((i, kind)) => {
                    proof {
                        lemma_first_named(self@.methods, frame@.method);
                    }
                    if let Err(e) = self.accept_call(id, kind, i) {
                        return Err(self.violation(e));
                    }
                    let ghost accepted = self@;
                    match self.take_call(id) {
                        Some(mut call) => {
                            Self::apply(&mut call, frame);
                            self.put_call_back(id, call, Ghost(accepted));
                        },
                        None => {},
                    }
                    proof {
                        assert(self@.registry.calls =~= old(self)@.registry.calls.insert(
                            id,
                            apply_frame(CallView::fresh(Direction::Inbound, kind, i), frame@),
                        ));
                    }
                    self.touch(id);
                    Ok(Delivery::Opened(i))
                },
            }
        } else {
            match self.take_call(id) {
                None => {
                    Err(self.violation(MuxError::UnknownCall))
                },
                Some(mut call) => {
                    Self::apply(&mut call, frame);
                    self.put_call_back(id, call, Ghost(heard));
                    self.touch(id);
                    Ok(Delivery::Applied)
                },
            }
        }
    }

    /// Takes in the bytes of one frame as they arrived from the peer. Bytes
    /// that are not the encoding of a frame are answered with
    /// `MalformedFrame` and counted as a breach of the protocol, like a frame
    /// that breaks it.
    pub fn on_bytes(&mut self, bytes: &[u8]) -> (r: Result<Delivery, MuxError>)
        requires
            old(self).wf(),
        ensures
            final(self).wf(),
            r == old(self)@.bytes_result(bytes@),
            final(self)@ == old(self)@.after_bytes(bytes@),
    {
        if self.closed {
            return Err(MuxError::ConnectionClosed);
        }
        match decode(bytes) {
            Ok(frame) => self.on_frame(frame),
            Err(_) => {
                self.hear();
                Err(self.violation(MuxError::MalformedFrame))
            },
        }
    }

    /// The bytes of the next frame to write out, if one waits.
    pub fn poll_transmit_bytes(&mut self) -> (r: Option<Vec<u8>>)
        requires
            old(self).wf(),
        ensures
            final(self).wf(),
            final(self)@ == old(self)@.after_transmit(),
            match r {
                Some(bytes) => old(self)@.outbound.len() > 0 && bytes@ == spec_encode(
                    old(self)@.outbound[0],
                ),
                None => old(self)@.outbound.len() == 0,
            },
    {
        match self.poll_transmit() {
            None => None,
            Some(frame) => {
                match encode(&frame) {
                    Ok(bytes) => Some(bytes),
                    Err(_) => None,
                }
            },
        }
    }

    /// Shuts the connection down. Every call that had not ended fails with
    /// `ConnectionClosed`; a call that had ended keeps the end it had. The
    /// frames that waited are dropped. Gives the ids of the calls that this
    /// ended, each once: shutting down a second time ends none.
    pub fn close(&mut self) -> (failed: Vec<u64>)
        requires
            old(self).wf(),
        ensures
            final(self).wf(),
            final(self)@ == old(self)@.torn_down(),
            failed@.no_duplicates(),
            failed@.to_set() == old(self)@.registry.live_ids(),
    {
        self.tear_down()
    }

    /// Hands out the requests of the inbound call `id` that a handler is to
    /// be run on, with what the handler needs to know of the call.
    ///
    /// The handler of a call whose two directions both stream runs on
    /// whatever has arrived; every other handler runs once, when the peer
    /// has finished sending. Until then the answer is `None` and the requests
    /// stay where they are. A call that was cancelled or has failed is
    /// answered with how it ended, and leaves the registry.
    pub fn take_request(&mut self, id: u64) -> (r: Result<
        Option<(ServerHandlerContext, ServerRequest)>,
        MuxError,
    >)
        requires
            old(self).wf(),
        ensures
            final(self).wf(),
            final(self)@ == old(self)@.after_take_request(id),
            match r {
                Err(e) => old(self)@.request_error(id) == Some(e),
                Ok(None) => old(self)@.request_error(id) is None && !old(self)@.request_ready(id),
                Ok(Some((o, request))) => {
                    &&& old(self)@.request_error(id) is None
                    &&& old(self)@.request_ready(id)
                    &&& o.call_id == id
                    &&& o.method == old(self)@.call(id).method
                    &&& chunks(request.messages@) == old(self)@.call(id).inbox
                    &&& request.finished == (old(self)@.call(id).remote() != SideState::Open)
                },
            },
    {
        let ready = match self.registry.lookup(id) {
            None => {
                return Err(MuxError::UnknownCall);
            },
            Some(call) => {
                match call.direction {
                    Direction::Outbound => {
                        return Err(MuxError::UnknownCall);
                    },
                    Direction::Inbound => {},
                }
                match call.request {
                    SideState::Cancelled | SideState::Errored => true,
                    _ => call.kind == CallKind::Bidi || call.remote() != SideState::Open,
                }
            },
        };
        if !ready {
            return Ok(None);
        }
        match self.take_call(id) {
            None => Err(MuxError::UnknownCall),
            Some(call) => {
                let Call { direction, kind, method, request, response, failure, detail, inbox } =
                    call;
                match request {
                    SideState::Cancelled => {
                        self.forget(id);
                        return Err(MuxError::Cancelled);
                    },
                    SideState::Errored => {
                        self.forget(id);
                        match failure {
                            Some(e) => {
                                return Err(e);
                            },
                            None => {
                                return Err(MuxError::UnknownCall);
                            },
                        }
                    },
                    _ => {},
                }
                let finished = match direction {
                    Direction::Outbound => response != SideState::Open,
                    Direction::Inbound => request != SideState::Open,
                };
                let emptied = Call {
                    direction,
                    kind,
                    method,
                    request,
                    response,
                    failure,
                    detail,
                    inbox: Vec::new(),
                };
                assert(emptied@.inbox =~= Seq::<Seq<u8>>::empty());
                self.put_call_back(id, emptied, Ghost(old(self)@));
                let o = ServerHandlerContext { call_id: id, method };
                Ok(Some((o, ServerRequest { messages: inbox, finished })))
            },
        }
    }

    /// Whether every payload is one that a frame can carry.
    fn check_fit(messages: &Vec<Vec<u8>>) -> (ok: bool)
        ensures
            ok == all_fit(chunks(messages@)),
    {
        let mut i: usize = 0;
        while i < messages.len()
            invariant
                i <= messages@.len(),
                forall|j: int|
                    0 <= j < i ==> (#[trigger] chunks(messages@)[j]).len() <= MAX_PAYLOAD_LEN,
            decreases messages@.len() - i,
        {
            if messages[i].len() > MAX_PAYLOAD_LEN {
                assert(chunks(messages@)[i as int].len() > MAX_PAYLOAD_LEN);
                return false;
            }
            i = i + 1;
        }
        true
    }

    /// Sends a handler's reply on the inbound call `id`: its responses in
    /// their order, then what ends the response direction if the reply ends
    /// it, or the handler's failure if it gave up. Whatever the handler had
    /// produced before it gave up is sent ahead of the failure.
    ///
    /// A reply is queued whole or not at all: where its responses do not
    /// fit into the room that the call has left in the queue, nothing is
    /// queued and the answer is `Full`. A reply that would not fit into an
    /// empty queue either is refused as `ReplyTooLong`: waiting cannot help.
    ///
    /// A call with one response is answered with that one response, which
    /// ends it, or with a failure. Any other reply to such a call is refused
    /// as `ReplyShape`.
    pub fn respond(&mut self, id: u64, reply: Reply) -> (r: Result<Admission, MuxError>)
        requires
            old(self).wf(),
        ensures
            final(self).wf(),
            r == old(self)@.respond_result(id, reply@),
            final(self)@ == old(self)@.after_respond(id, reply@),
    {
        if let Some(e) = self.check_call(id) {
            return Err(e);
        }
        match self.registry.lookup(id) {
            None => {
                return Err(MuxError::UnknownCall);
            },
            Some(call) => {
                match call.direction {
                    Direction::Outbound => {
                        return Err(MuxError::UnknownCall);
                    },
                    Direction::Inbound => {},
                }
                if call.local() != SideState::Open {
                    return Err(MuxError::SendClosed);
                }
                if !call.kind.streams_responses() {
                    let count: usize = reply.messages.len();
                    let shaped = match &reply.failure {
                        Some(_) => count == 0 && !reply.finished,
                        None => count == 1 && reply.finished,
                    };
                    if !shaped {
                        return Err(MuxError::ReplyShape);
                    }
                }
            },
        }
        if !Self::check_fit(&reply.messages) {
            return Err(MuxError::MalformedFrame);
        }
        match &reply.failure {
            Some(detail) => {
                if detail.len() >= MAX_PAYLOAD_LEN {
                    return Err(MuxError::MalformedFrame);
                }
            },
            None => {},
        }
        let n: usize = reply.messages.len();
        let waiting: usize = self.queued(id);
        if n > self.queue_limit {
            return Err(MuxError::ReplyTooLong);
        }
        if waiting > self.queue_limit - n {
            return Ok(Admission::Full);
        }
        let ghost before = old(self)@;
        let ghost view = reply@;
        let ghost target = reply_frames(id, view);
        let Reply { messages, finished, failure } = reply;
        let gave_up = failure.is_some();
        let ends_in_data = finished && !gave_up && n > 0;
        let mut rest = messages;
        let mut i: usize = 0;
        while i < n
            invariant
                i <= n,
                n == view.messages.len(),
                rest@.len() == n,
                forall|j: int| i <= j < n ==> (#[trigger] rest@[j])@ == view.messages[j],
                all_fit(view.messages),
                target == reply_frames(id, view),
                n <= target.len(),
                ends_in_data == (view.finished && view.failure is None && n > 0),
                self.wf(),
                self@ == (ConnectionView {
                    outbound: before.outbound + target.subrange(0, i as int),
                    ..before
                }),
            decreases n - i,
        {
            let mut payload: Vec<u8> = Vec::new();
            core::mem::swap(&mut payload, &mut rest[i]);
            let closes = ends_in_data && i + 1 == n;
            let frame = if closes {
                Frame::last_data(id, payload)
            } else {
                Frame::data(id, payload)
            };
            proof {
                assert(before.outbound + target.subrange(0, i + 1) =~= (before.outbound
                    + target.subrange(0, i as int)).push(frame@));
            }
            self.push_frame(frame);
            i = i + 1;
        }
        match failure {
            Some(detail) => {
                let frame = Frame::error(id, MuxError::HandlerFailed, detail.as_slice());
                proof {
                    assert(before.outbound + target =~= (before.outbound + target.subrange(
                        0,
                        n as int,
                    )).push(frame@));
                }
                self.push_frame(frame);
            },
            None => {
                if finished && n == 0 {
                    let frame = Frame::half_close(id);
                    proof {
                        assert(before.outbound + target =~= (before.outbound + target.subrange(
                            0,
                            n as int,
                        )).push(frame@));
                    }
                    self.push_frame(frame);
                } else {
                    assert(target =~= target.subrange(0, n as int));
                }
            },
        }
        let ghost queued = self@;
        match self.take_call(id) {
            None => {},
            Some(mut call) => {
                if gave_up {
                    call.fail(MuxError::HandlerFailed);
                } else if finished {
                    call.close_local();
                }
                if call.is_live() {
                    self.put_call_back(id, call, Ghost(queued));
                    self.touch(id);
                } else {
                    self.forget(id);
                }
            },
        }
        Ok(Admission::Queued)
    }

    /// Asks for the response of the outbound call `id`, which has one
    /// response. The answer is `None` while the peer has not finished.
    /// Once the response or the failure of the call has been handed out, the
    /// call leaves the registry.
    pub fn poll_unary(&mut self, id: u64) -> (r: Result<Option<Vec<u8>>, MuxError>)
        requires
            old(self).wf(),
        ensures
            final(self).wf(),
            final(self)@ == old(self)@.after_poll_unary(id),
            match r {
                Err(e) => if old(self)@.has(id) {
                    end_error(old(self)@.call(id)) == Some(e)
                } else {
                    e == MuxError::UnknownCall
                },
                Ok(None) => old(self)@.has(id) && end_error(old(self)@.call(id)) is None && old(
                    self,
                )@.unary_response(id) is None,
                Ok(Some(response)) => old(self)@.has(id) && end_error(old(self)@.call(id)) is None
                    && old(self)@.unary_response(id) == Some(response@),
            },
    {
        let settled = match self.registry.lookup(id) {
            None => {
                return Err(MuxError::UnknownCall);
            },
            Some(call) => {
                match call.request {
                    SideState::Cancelled | SideState::Errored => true,
                    _ => call.remote() != SideState::Open,
                }
            },
        };
        if !settled {
            return Ok(None);
        }
        match self.take_call(id) {
            None => Err(MuxError::UnknownCall),
            Some(call) => {
                let Call { request, failure, inbox, .. } = call;
                self.forget(id);
                match request {
                    SideState::Cancelled => Err(MuxError::Cancelled),
                    SideState::Errored => {
                        match failure {
                            Some(e) => Err(e),
                            None => Err(MuxError::UnknownCall),
                        }
                    },
                    _ => {
                        let mut inbox = inbox;
                        if inbox.len() > 0 {
                            Ok(Some(inbox.swap_remove(0)))
                        } else {
                            Ok(Some(Vec::new()))
                        }
                    },
                }
            },
        }
    }

    /// Sets how long a call may stay idle before it times out; `None` lets
    /// calls stay idle for ever, as they may on a new connection.
    pub fn set_idle_limit(&mut self, limit: Option<u64>)
        requires
            old(self).wf(),
        ensures
            final(self).wf(),
            final(self)@ == old(self)@.with_idle_limit(limit),
    {
        self.idle.set_limit(limit);
    }

    /// Sets how long the peer may keep quiet before the connection counts
    /// as dead; `None` lets it keep quiet for ever, as it may on a new
    /// connection.
    pub fn set_keep_alive(&mut self, keep_alive: Option<u64>)
        requires
            old(self).wf(),
        ensures
            final(self).wf(),
            final(self)@ == old(self)@.with_keep_alive(keep_alive),
    {
        self.idle.set_keep_alive(keep_alive);
    }

    /// Whether the peer has kept quiet for as long as it may.
    pub fn is_silent(&self) -> (b: bool)
        ensures
            b == self@.is_silent(),
    {
        !self.closed && self.idle.is_silent()
    }

    /// Shuts the connection down if the peer has kept quiet for too long,
    /// and gives the ids of the calls that this ended. Where the peer has
    /// not, nothing changes.
    pub fn close_if_silent(&mut self) -> (failed: Vec<u64>)
        requires
            old(self).wf(),
        ensures
            final(self).wf(),
            final(self)@ == old(self)@.after_close_if_silent(),
            failed@.no_duplicates(),
            failed@.to_set() == if old(self)@.is_silent() {
                old(self)@.registry.live_ids()
            } else {
                Set::<u64>::empty()
            },
    {
        if self.is_silent() {
            self.tear_down()
        } else {
            Vec::new()
        }
    }

    /// Tells the connection the time and ends what has run out of it. Where
    /// the peer has kept quiet for too long, the connection is shut down;
    /// else every call that has timed out is expired, and no other call is
    /// touched. Gives the ids of the calls that this ended, each once. The
    /// calls are expired in the order of that list, which is the order in
    /// which their `cancel` frames are queued.
    pub fn keep_time(&mut self, now: u64) -> (ended: Vec<u64>)
        requires
            old(self).wf(),
        ensures
            final(self).wf(),
            ended@.no_duplicates(),
            ({
                let timed = old(self)@.after_advance(now);
                if timed.closed {
                    final(self)@ == timed && ended@.len() == 0
                } else if timed.is_silent() {
                    final(self)@ == timed.torn_down() && ended@.to_set()
                        == timed.registry.live_ids()
                } else {
                    final(self)@ == timed.expire_each(ended@) && forall|id: u64|
                        ended@.contains(id) <==> timed.is_idle(id)
                }
            }),
    {
        self.advance(now);
        if self.closed {
            return Vec::new();
        }
        if self.is_silent() {
            return self.tear_down();
        }
        let ids = self.registry.ids();
        let ghost timed = self@;
        let mut ended: Vec<u64> = Vec::new();
        let mut i: usize = 0;
        while i < ids.len()
            invariant
                i <= ids@.len(),
                ids@.no_duplicates(),
                ids@.to_set() == timed.registry.calls.dom(),
                self.wf(),
                !timed.closed,
                self@ == timed.expire_each(ended@),
                self@.idle == timed.idle,
                !self@.closed,
                self@.registry.calls.dom() == timed.registry.calls.dom(),
                forall|k: u64|
                    timed.has(k) && !ended@.contains(k) ==> #[trigger] self@.call(k) == timed.call(
                        k,
                    ),
                ended@.no_duplicates(),
                forall|k: u64| #[trigger]
                    ended@.contains(k) <==> ids@.subrange(0, i as int).contains(k)
                        && timed.is_idle(k),
            decreases ids@.len() - i,
        {
            let id: u64 = ids[i];
            let ghost done = ids@.subrange(0, i as int);
            let ghost next = ids@.subrange(0, i + 1);
            let ghost prior = ended@;
            let ghost before = self@;
            proof {
                assert(ids@.to_set().contains(id));
                assert(timed.has(id));
                assert(!done.contains(id)) by {
                    if done.contains(id) {
                        let j = choose|j: int| 0 <= j < done.len() && done[j] == id;
                        assert(ids@[j] == id && ids@[i as int] == id);
                    }
                }
                assert(!prior.contains(id));
                assert(before.call(id) == timed.call(id));
                assert(before.is_idle(id) == timed.is_idle(id));
                assert forall|k: u64| next.contains(k) <==> (k == id || done.contains(k)) by {
                    if next.contains(k) {
                        let j = choose|j: int| 0 <= j < next.len() && next[j] == k;
                        if j < done.len() {
                            assert(done[j] == k);
                        }
                    }
                    if done.contains(k) {
                        let j = choose|j: int| 0 <= j < done.len() && done[j] == k;
                        assert(next[j] == k);
                    }
                    if k == id {
                        assert(next[i as int] == id);
                    }
                }
            }
            let expired = match self.expire_idle(id) {
                Ok(expired) => expired,
                Err(_) => false,
            };
            if expired {
                ended.push(id);
                proof {
                    assert(ended@.drop_last() =~= prior);
                    assert(self@.registry.calls.dom() =~= timed.registry.calls.dom());
                    assert forall|k: u64| ended@.contains(k) <==> (k == id || prior.contains(k)) by {
                        if ended@.contains(k) {
                            let j = choose|j: int| 0 <= j < ended@.len() && ended@[j] == k;
                            if j < prior.len() {
                                assert(prior[j] == k);
                            }
                        }
                        if prior.contains(k) {
                            let j = choose|j: int| 0 <= j < prior.len() && prior[j] == k;
                            assert(ended@[j] == k);
                        }
                        if k == id {
                            assert(ended@[ended@.len() - 1] == id);
                        }
                    }
                }
            }
            proof {
                assert(expired == timed.is_idle(id));
                assert forall|k: u64| timed.has(k) && !ended@.contains(k) implies #[trigger] self@.call(
                    k,
                ) == timed.call(k) by {
                    assert(!prior.contains(k));
                    assert(before.call(k) == timed.call(k));
                }
                assert forall|k: u64| #[trigger]
                    ended@.contains(k) <==> next.contains(k) && timed.is_idle(k) by {
                    assert(prior.contains(k) <==> done.contains(k) && timed.is_idle(k));
                    assert(next.contains(k) <==> (k == id || done.contains(k)));
                    if expired {
                        assert(ended@.contains(k) <==> (k == id || prior.contains(k)));
                    }
                }
            }
            i = i + 1;
        }
        proof {
            assert(ids@.subrange(0, i as int) =~= ids@);
            assert forall|k: u64| ended@.contains(k) <==> timed.is_idle(k) by {
                if timed.is_idle(k) {
                    assert(ids@.to_set().contains(k));
                    assert(ids@.contains(k));
                }
            }
        }
        ended
    }

    /// Tells the connection the time, in the unit of the idle limit. A time
    /// before the latest that it was told changes nothing.
    pub fn advance(&mut self, now: u64)
        requires
            old(self).wf(),
        ensures
            final(self).wf(),
            final(self)@ == old(self)@.after_advance(now),
    {
        self.idle.advance(now);
    }

    /// Whether the call `id` has timed out: it has not ended, and no frame
    /// was sent or received for it for as long as calls may stay idle.
    pub fn is_idle(&self, id: u64) -> (b: bool)
        ensures
            b == self@.is_idle(id),
    {
        match self.registry.lookup(id) {
            None => false,
            Some(call) => call.is_live() && self.idle.is_overdue(id),
        }
    }

    /// Expires the call `id` if it has timed out, and says whether it did.
    /// No other call is touched.
    pub fn expire_idle(&mut self, id: u64) -> (r: Result<bool, MuxError>)
        requires
            old(self).wf(),
        ensures
            final(self).wf(),
            final(self)@ == old(self)@.after_expire_idle(id),
            match r {
                Ok(expired) => old(self)@.end_call_error(id) is None && expired == old(
                    self,
                )@.is_idle(id),
                Err(e) => old(self)@.end_call_error(id) == Some(e),
            },
    {
        if self.closed {
            return Err(MuxError::ConnectionClosed);
        }
        if !self.registry.contains(id) {
            return Err(MuxError::UnknownCall);
        }
        if self.is_idle(id) {
            match self.expire(id) {
                Ok(()) => Ok(true),
                Err(e) => Err(e),
            }
        } else {
            Ok(false)
        }
    }

    /// The ids of the calls in the registry, each once, in no particular
    /// order.
    pub fn call_ids(&self) -> (ids: Vec<u64>)
        ensures
            ids@.no_duplicates(),
            ids@.to_set() == self@.registry.calls.dom(),
    {
        self.registry.ids()
    }

    /// Removes the call `id` from the registry if it has ended, whether or not
    /// anybody has read how, and says whether it did. A call that has not
    /// ended stays: it is to be cancelled first. Retiring a call that is not
    /// there changes nothing.
    pub fn retire(&mut self, id: u64) -> (removed: bool)
        requires
            old(self).wf(),
        ensures
            final(self).wf(),
            removed == old(self)@.retires(id),
            final(self)@ == old(self)@.after_retire(id),
    {
        let ended = match self.registry.lookup(id) {
            None => false,
            Some(call) => !call.is_live(),
        };
        if ended {
            self.take_call(id);
            self.forget(id);
        }
        ended
    }

    /// The next frame to write out, if one waits. Frames leave in the order
    /// in which they were queued.
    pub fn poll_transmit(&mut self) -> (r: Option<Frame>)
        requires
            old(self).wf(),
        ensures
            final(self).wf(),
            final(self)@ == old(self)@.after_transmit(),
            match r {
                Some(frame) => old(self)@.outbound.len() > 0 && frame@ == old(self)@.outbound[0]
                    && frame@.wf(),
                None => old(self)@.outbound.len() == 0,
            },
    {
        let r = self.outbound.pop_front();
        proof {
            let before = frame_views(old(self).outbound@);
            if r is Some {
                assert(frame_views(self.outbound@) =~= before.subrange(1, before.len() as int));
                assert(before[0].wf());
            }
        }
        r
    }
}

} // verus!
