//! One logical call and the state machine that governs it.
//!
//! A call has two directions, the request stream and the response stream.
//! Each goes from open to half-closed when its sender is finished. When both
//! are half-closed the call is done. From any state short of an end a call can
//! be cancelled or fail; an ended call never changes its state again.

use vstd::prelude::*;
use crate::error::MuxError;

verus! {

/// Which side opened a call.
#[derive(Clone, Copy, Debug, PartialEq, Eq, Structural)]
pub enum Direction {
    /// This side opened the call: it sends the requests.
    Outbound,
    /// The peer opened the call: this side sends the responses.
    Inbound,
}

/// How the two directions of a call stream.
#[derive(Clone, Copy, Debug, PartialEq, Eq, Structural)]
pub enum CallKind {
    /// One request, one response.
    Unary,
    /// A stream of requests, one response.
    ClientStreaming,
    /// One request, a stream of responses.
    ServerStreaming,
    /// A stream of requests and a stream of responses.
    Bidi,
}

impl CallKind {
    /// Whether the request direction may carry more than the opening frame.
    pub open spec fn spec_streams_requests(self) -> bool {
        self == CallKind::ClientStreaming || self == CallKind::Bidi
    }

    /// Whether the response direction may carry more than one frame of data.
    pub open spec fn spec_streams_responses(self) -> bool {
        self == CallKind::ServerStreaming || self == CallKind::Bidi
    }

    /// Whether the request direction may carry more than the opening frame.
    pub fn streams_requests(self) -> (b: bool)
        ensures
            b == self.spec_streams_requests(),
    {
        match self {
            CallKind::ClientStreaming | CallKind::Bidi => true,
            _ => false,
        }
    }

    /// Whether the response direction may carry more than one frame of data.
    pub fn streams_responses(self) -> (b: bool)
        ensures
            b == self.spec_streams_responses(),
    {
        match self {
            CallKind::ServerStreaming | CallKind::Bidi => true,
            _ => false,
        }
    }
}

/// The state of one direction of a call.
#[derive(Clone, Copy, Debug, PartialEq, Eq, Structural)]
pub enum SideState {
    /// The sender may still send.
    Open,
    /// The sender has finished; the other direction has not.
    HalfClosed,
    /// Both directions have finished.
    Done,
    /// The call was cancelled.
    Cancelled,
    /// The call failed.
    Errored,
}

impl SideState {
    /// The states that a direction never leaves.
    pub open spec fn spec_is_end(self) -> bool {
        self == SideState::Done || self == SideState::Cancelled || self == SideState::Errored
    }

    /// Whether the state is one that a direction never leaves.
    pub fn is_end(self) -> (b: bool)
        ensures
            b == self.spec_is_end(),
    {
        match self {
            SideState::Done | SideState::Cancelled | SideState::Errored => true,
            _ => false,
        }
    }
}

/// What reading from a call gave.
#[derive(Clone, Debug, PartialEq, Eq)]
pub enum Received {
    /// The next payload, in the order the peer sent them.
    Data(Vec<u8>),
    /// The peer has finished and every payload has been read.
    EndOfStream,
    /// Nothing is buffered and the peer has not finished: read again later.
    Pending,
}

/// The payloads that a buffer of byte vectors holds.
pub open spec fn chunks(v: Seq<Vec<u8>>) -> Seq<Seq<u8>> {
    v.map_values(|c: Vec<u8>| c@)
}

/// One logical call.
#[derive(Debug)]
pub struct Call {
    pub direction: Direction,
    pub kind: CallKind,
    /// For an inbound call, the place of its method in the dispatcher's table.
    pub method: usize,
    pub request: SideState,
    pub response: SideState,
    /// Why the call failed, once it has.
    pub failure: Option<MuxError>,
    /// What the peer said of the failure, where the call failed by an
    /// `error` frame.
    pub detail: Vec<u8>,
    /// Payloads received from the peer and not yet read, oldest first.
    pub inbox: Vec<Vec<u8>>,
}

/// What a call holds, as plain values.
pub struct CallView {
    pub direction: Direction,
    pub kind: CallKind,
    pub method: usize,
    pub request: SideState,
    pub response: SideState,
    pub failure: Option<MuxError>,
    pub detail: Seq<u8>,
    pub inbox: Seq<Seq<u8>>,
}

impl View for Call {
    type V = CallView;

    open spec fn view(&self) -> CallView {
        CallView {
            direction: self.direction,
            kind: self.kind,
            method: self.method,
            request: self.request,
            response: self.response,
            failure: self.failure,
            detail: self.detail@,
            inbox: chunks(self.inbox@),
        }
    }
}

impl CallView {
    /// A call that has just been opened with both directions open.
    pub open spec fn fresh(direction: Direction, kind: CallKind, method: usize) -> CallView {
        CallView {
            direction,
            kind,
            method,
            request: SideState::Open,
            response: SideState::Open,
            failure: None,
            detail: Seq::empty(),
            inbox: Seq::empty(),
        }
    }

    /// The state of the direction that this side sends on.
    pub open spec fn local(self) -> SideState {
        if self.direction == Direction::Outbound {
            self.request
        } else {
            self.response
        }
    }

    /// The state of the direction that the peer sends on.
    pub open spec fn remote(self) -> SideState {
        if self.direction == Direction::Outbound {
            self.response
        } else {
            self.request
        }
    }

    /// The two directions agree on how the call ended, a failed call says
    /// why, and no call rests with both directions half-closed.
    pub open spec fn wf(self) -> bool {
        &&& self.request.spec_is_end() || self.response.spec_is_end() ==> self.request
            == self.response
        &&& !(self.request == SideState::HalfClosed && self.response == SideState::HalfClosed)
        &&& (self.failure is Some <==> self.request == SideState::Errored)
    }

    /// Whether the call has not ended.
    pub open spec fn live(self) -> bool {
        !self.request.spec_is_end()
    }

    /// The call with both directions in the state `end`.
    pub open spec fn ended(self, end: SideState, failure: Option<MuxError>) -> CallView {
        CallView { request: end, response: end, failure, ..self }
    }

    /// The call is done as soon as both directions are half-closed.
    pub open spec fn settle(self) -> CallView {
        if self.request == SideState::HalfClosed && self.response == SideState::HalfClosed {
            self.ended(SideState::Done, None)
        } else {
            self
        }
    }

    /// This side finishes sending. Nothing changes unless its direction was
    /// open.
    pub open spec fn close_local(self) -> CallView {
        if self.local() != SideState::Open {
            self
        } else if self.direction == Direction::Outbound {
            (CallView { request: SideState::HalfClosed, ..self }).settle()
        } else {
            (CallView { response: SideState::HalfClosed, ..self }).settle()
        }
    }

    /// The peer finishes sending. Nothing changes unless its direction was
    /// open.
    pub open spec fn close_remote(self) -> CallView {
        if self.remote() != SideState::Open {
            self
        } else if self.direction == Direction::Outbound {
            (CallView { response: SideState::HalfClosed, ..self }).settle()
        } else {
            (CallView { request: SideState::HalfClosed, ..self }).settle()
        }
    }

    /// The call is cancelled, unless it has already ended.
    pub open spec fn cancel(self) -> CallView {
        if self.live() {
            self.ended(SideState::Cancelled, None)
        } else {
            self
        }
    }

    /// The call fails with `e`, unless it has already ended.
    pub open spec fn fail(self, e: MuxError) -> CallView {
        if self.live() {
            self.ended(SideState::Errored, Some(e))
        } else {
            self
        }
    }

    /// The call fails with `e` as the peer reported it, unless it has already
    /// ended: `detail` is what the peer said of the failure.
    pub open spec fn fail_with(self, e: MuxError, detail: Seq<u8>) -> CallView {
        if self.live() {
            CallView { detail, ..self.ended(SideState::Errored, Some(e)) }
        } else {
            self
        }
    }

    /// A payload arrives from the peer. It is buffered behind those already
    /// waiting, unless it is empty or the peer's direction is no longer open.
    pub open spec fn deliver(self, payload: Seq<u8>) -> CallView {
        if self.remote() == SideState::Open && payload.len() > 0 {
            CallView { inbox: self.inbox.push(payload), ..self }
        } else {
            self
        }
    }

    /// What a read gives: the failure of a call that was cancelled or failed,
    /// else the oldest payload, else the end of the stream once the peer has
    /// finished, else nothing yet.
    pub open spec fn read_result(self) -> Result<Option<Seq<u8>>, MuxError> {
        if self.request == SideState::Cancelled {
            Err(MuxError::Cancelled)
        } else if self.request == SideState::Errored {
            Err(self.failure.unwrap())
        } else if self.inbox.len() > 0 {
            Ok(Some(self.inbox[0]))
        } else {
            Ok(None)
        }
    }

    /// The call after a read: the oldest payload is gone, where one was read.
    pub open spec fn after_read(self) -> CallView {
        if self.live() || self.request == SideState::Done {
            if self.inbox.len() > 0 {
                CallView { inbox: self.inbox.remove(0), ..self }
            } else {
                self
            }
        } else {
            self
        }
    }

    /// Whether a read has told the reader how the call ended, so that the
    /// call has nothing more to give.
    pub open spec fn spent(self) -> bool {
        self.request == SideState::Cancelled || self.request == SideState::Errored || (self.request
            == SideState::Done && self.inbox.len() == 0)
    }
}

impl Call {
    /// A call that has just been opened.
    pub fn new(direction: Direction, kind: CallKind, method: usize) -> (c: Call)
        ensures
            c@ == CallView::fresh(direction, kind, method),
            c@.wf(),
            c@.live(),
    {
        let c = Call {
            direction,
            kind,
            method,
            request: SideState::Open,
            response: SideState::Open,
            failure: None,
            detail: Vec::new(),
            inbox: Vec::new(),
        };
        assert(c@.inbox =~= Seq::<Seq<u8>>::empty());
        c
    }

    /// Whether the state of the call is consistent.
    pub fn is_well_formed(&self) -> (b: bool)
        ensures
            b == self@.wf(),
    {
        let ends_agree = if self.request.is_end() || self.response.is_end() {
            self.request == self.response
        } else {
            true
        };
        let resting = self.request == SideState::HalfClosed && self.response
            == SideState::HalfClosed;
        let says_why = self.failure.is_some() == (self.request == SideState::Errored);
        ends_agree && !resting && says_why
    }

    /// The state of the direction that this side sends on.
    pub fn local(&self) -> (s: SideState)
        ensures
            s == self@.local(),
    {
        match self.direction {
            Direction::Outbound => self.request,
            Direction::Inbound => self.response,
        }
    }

    /// The state of the direction that the peer sends on.
    pub fn remote(&self) -> (s: SideState)
        ensures
            s == self@.remote(),
    {
        match self.direction {
            Direction::Outbound => self.response,
            Direction::Inbound => self.request,
        }
    }

    /// Whether the call has not ended.
    pub fn is_live(&self) -> (b: bool)
        ensures
            b == self@.live(),
    {
        !self.request.is_end()
    }

    fn settle(&mut self)
        ensures
            final(self)@ == old(self)@.settle(),
    {
        if self.request == SideState::HalfClosed && self.response == SideState::HalfClosed {
            self.request = SideState::Done;
            self.response = SideState::Done;
            self.failure = None;
        }
    }

    /// This side finishes sending.
    pub fn close_local(&mut self)
        requires
            old(self)@.wf(),
        ensures
            final(self)@ == old(self)@.close_local(),
            final(self)@.wf(),
    {
        if self.local() == SideState::Open {
            match self.direction {
                Direction::Outbound => {
                    self.request = SideState::HalfClosed;
                },
                Direction::Inbound => {
                    self.response = SideState::HalfClosed;
                },
            }
            self.settle();
        }
    }

    /// The peer finishes sending.
    pub fn close_remote(&mut self)
        requires
            old(self)@.wf(),
        ensures
            final(self)@ == old(self)@.close_remote(),
            final(self)@.wf(),
    {
        if self.remote() == SideState::Open {
            match self.direction {
                Direction::Outbound => {
                    self.response = SideState::HalfClosed;
                },
                Direction::Inbound => {
                    self.request = SideState::HalfClosed;
                },
            }
            self.settle();
        }
    }

    /// The call is cancelled, unless it has already ended.
    pub fn cancel(&mut self)
        requires
            old(self)@.wf(),
        ensures
            final(self)@ == old(self)@.cancel(),
            final(self)@.wf(),
            !final(self)@.live(),
    {
        if self.is_live() {
            self.request = SideState::Cancelled;
            self.response = SideState::Cancelled;
            self.failure = None;
        }
    }

    /// The call fails with `e`, unless it has already ended.
    pub fn fail(&mut self, e: MuxError)
        requires
            old(self)@.wf(),
        ensures
            final(self)@ == old(self)@.fail(e),
            final(self)@.wf(),
            !final(self)@.live(),
    {
        if self.is_live() {
            self.request = SideState::Errored;
            self.response = SideState::Errored;
            self.failure = Some(e);
        }
    }

    /// The call fails with `e` as the peer reported it, unless it has already
    /// ended.
    pub fn fail_with(&mut self, e: MuxError, detail: Vec<u8>)
        requires
            old(self)@.wf(),
        ensures
            final(self)@ == old(self)@.fail_with(e, detail@),
            final(self)@.wf(),
            !final(self)@.live(),
    {
        if self.is_live() {
            self.request = SideState::Errored;
            self.response = SideState::Errored;
            self.failure = Some(e);
            self.detail = detail;
        }
    }

    /// A payload arrives from the peer.
    pub fn deliver(&mut self, payload: Vec<u8>)
        requires
            old(self)@.wf(),
        ensures
            final(self)@ == old(self)@.deliver(payload@),
            final(self)@.wf(),
    {
        if self.remote() == SideState::Open && payload.len() > 0 {
            self.inbox.push(payload);
            assert(chunks(self.inbox@) =~= chunks(old(self).inbox@).push(payload@));
        }
    }

    /// Reads from the call: the failure it ended with, or the oldest payload
    /// that is waiting, or the end of the stream, or nothing yet.
    pub fn read(&mut self) -> (r: Result<Received, MuxError>)
        requires
            old(self)@.wf(),
        ensures
            final(self)@ == old(self)@.after_read(),
            final(self)@.wf(),
            match r {
                Ok(Received::Data(p)) => old(self)@.read_result() == Ok::<
                    Option<Seq<u8>>,
                    MuxError,
                >(Some(p@)),
                Ok(Received::EndOfStream) => old(self)@.read_result() == Ok::<
                    Option<Seq<u8>>,
                    MuxError,
                >(None) && old(self)@.remote() != SideState::Open,
                Ok(Received::Pending) => old(self)@.read_result() == Ok::<
                    Option<Seq<u8>>,
                    MuxError,
                >(None) && old(self)@.remote() == SideState::Open,
                Err(e) => old(self)@.read_result() == Err::<Option<Seq<u8>>, MuxError>(e),
            },
    {
        match self.request {
            SideState::Cancelled => Err(MuxError::Cancelled),
            SideState::Errored => {
                match self.failure {
                    Some(e) => Err(e),
                    None => Err(MuxError::ConnectionClosed),
                }
            },
            _ => {
                if self.inbox.len() > 0 {
                    let p = self.inbox.remove(0);
                    assert(chunks(self.inbox@) =~= chunks(old(self).inbox@).remove(0));
                    Ok(Received::Data(p))
                } else if self.remote() == SideState::Open {
                    Ok(Received::Pending)
                } else {
                    Ok(Received::EndOfStream)
                }
            },
        }
    }

    /// Whether a read has told how the call ended.
    pub fn is_spent(&self) -> (b: bool)
        ensures
            b == self@.spent(),
    {
        match self.request {
            SideState::Cancelled | SideState::Errored => true,
            SideState::Done => self.inbox.len() == 0,
            _ => false,
        }
    }
}

} // verus!
