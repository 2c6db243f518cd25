//! What a handler is given and what it gives back.
//!
//! A handler never touches the connection. It is handed the requests of its
//! call and a sink for its responses; what it left in the sink becomes a
//! `Reply`, which the connection turns into frames.

use vstd::prelude::*;
use crate::call::chunks;
use crate::dispatch::{find_in, first_named, has_method, method_views, MethodDescriptor};

verus! {

/// Which call a handler is serving.
#[derive(Clone, Copy, Debug, PartialEq, Eq, Structural)]
pub struct ServerHandlerContext {
    /// The id of the call.
    pub call_id: u64,
    /// The place of the call's method in the table of the connection.
    pub method: usize,
}

/// The requests of a call whose requests stream.
#[derive(Clone, Debug, PartialEq, Eq)]
pub struct ServerRequest {
    /// The requests that have arrived since the handler last ran, oldest
    /// first.
    pub messages: Vec<Vec<u8>>,
    /// Whether the peer has finished sending: no request will follow.
    pub finished: bool,
}

/// The request of a call that has one request.
#[derive(Clone, Debug, PartialEq, Eq)]
pub struct ServerRequestSingle {
    pub message: Vec<u8>,
}

/// Why a handler gave up on a call.
#[derive(Clone, Debug, PartialEq, Eq)]
pub struct HandlerError {
    /// What the peer is told.
    pub detail: Vec<u8>,
}

/// Where the handler of a call with one response puts it.
#[derive(Debug)]
pub struct ServerResponseUnarySink {
    message: Option<Vec<u8>>,
}

/// Where the handler of a call whose responses stream puts them.
#[derive(Debug)]
pub struct ServerResponseSink {
    messages: Vec<Vec<u8>>,
    closed: bool,
}

/// What a handler's run amounts to: the responses to send, whether the
/// response direction ends with them, and the handler's failure if it gave
/// up.
#[derive(Clone, Debug, PartialEq, Eq)]
pub struct Reply {
    pub messages: Vec<Vec<u8>>,
    pub finished: bool,
    pub failure: Option<Vec<u8>>,
}

/// What a reply holds, as plain values.
pub struct ReplyView {
    pub messages: Seq<Seq<u8>>,
    pub finished: bool,
    pub failure: Option<Seq<u8>>,
}

impl View for Reply {
    type V = ReplyView;

    open spec fn view(&self) -> ReplyView {
        ReplyView {
            messages: chunks(self.messages@),
            finished: self.finished,
            failure: match self.failure {
                Some(detail) => Some(detail@),
                None => None,
            },
        }
    }
}

impl ServerRequest {
    /// The single request of a call that has one: the first that arrived, or
    /// the empty message if none did.
    pub open spec fn spec_single(self) -> Seq<u8> {
        if self.messages@.len() > 0 {
            self.messages@[0]@
        } else {
            Seq::empty()
        }
    }

    /// The single request of a call that has one.
    pub fn into_single(self) -> (single: ServerRequestSingle)
        ensures
            single.message@ == self.spec_single(),
    {
        let mut messages = self.messages;
        if messages.len() > 0 {
            ServerRequestSingle { message: messages.swap_remove(0) }
        } else {
            ServerRequestSingle { message: Vec::new() }
        }
    }
}

impl ServerResponseUnarySink {
    /// The response that was put into the sink, if one was.
    pub closed spec fn view(&self) -> Option<Seq<u8>> {
        match self.message {
            Some(m) => Some(m@),
            None => None,
        }
    }

    /// A sink that holds no response yet.
    pub fn new() -> (sink: ServerResponseUnarySink)
        ensures
            sink.view() is None,
    {
        ServerResponseUnarySink { message: None }
    }

    /// Puts the response into the sink, in place of one put there before.
    pub fn finish(&mut self, message: Vec<u8>)
        ensures
            final(self).view() == Some(message@),
    {
        self.message = Some(message);
    }
}

impl ServerResponseSink {
    /// The responses that were put into the sink, oldest first.
    pub closed spec fn messages(&self) -> Seq<Seq<u8>> {
        chunks(self.messages@)
    }

    /// Whether the handler has ended the response stream.
    pub closed spec fn is_closed(&self) -> bool {
        self.closed
    }

    /// An open sink that holds no response yet.
    pub fn new() -> (sink: ServerResponseSink)
        ensures
            sink.messages() == Seq::<Seq<u8>>::empty(),
            !sink.is_closed(),
    {
        let sink = ServerResponseSink { messages: Vec::new(), closed: false };
        sink
    }

    /// Puts a response behind those already in the sink. A sink that has
    /// been closed takes no more: the response is dropped and the answer is
    /// `false`.
    pub fn send(&mut self, message: Vec<u8>) -> (taken: bool)
        ensures
            taken == !old(self).is_closed(),
            final(self).is_closed() == old(self).is_closed(),
            final(self).messages() == if taken {
                old(self).messages().push(message@)
            } else {
                old(self).messages()
            },
    {
        if self.closed {
            return false;
        }
        self.messages.push(message);
        true
    }

    /// Ends the response stream.
    pub fn close(&mut self)
        ensures
            final(self).is_closed(),
            final(self).messages() == old(self).messages(),
    {
        self.closed = true;
    }
}

impl ReplyView {
    /// The reply of a handler with one response: the response it put into
    /// the sink, which ends the response direction. A handler that gave up,
    /// or that came back without a response, has failed.
    pub open spec fn of_unary(sink: Option<Seq<u8>>, outcome: Option<Seq<u8>>) -> ReplyView {
        if outcome is Some {
            ReplyView { messages: Seq::empty(), finished: false, failure: outcome }
        } else if sink is Some {
            ReplyView { messages: seq![sink.unwrap()], finished: true, failure: None }
        } else {
            ReplyView { messages: Seq::empty(), finished: false, failure: Some(Seq::empty()) }
        }
    }

    /// The reply of a handler whose responses stream: what it put into the
    /// sink, also where it gave up afterwards. The response direction ends
    /// where the handler closed the sink or will not run again.
    pub open spec fn of_stream(
        messages: Seq<Seq<u8>>,
        closed: bool,
        last_run: bool,
        outcome: Option<Seq<u8>>,
    ) -> ReplyView {
        ReplyView { messages, finished: outcome is None && (closed || last_run), failure: outcome }
    }

    /// Whether the reply ends the call's response direction, one way or the
    /// other.
    pub open spec fn ends(self) -> bool {
        self.finished || self.failure is Some
    }

    /// What holds of the reply of a handler with one response, whatever the
    /// handler did: it carries the one response and ends the response
    /// direction, or it carries the handler's failure and nothing else.
    pub open spec fn unary_shaped(self) -> bool {
        if self.failure is Some {
            self.messages.len() == 0 && !self.finished
        } else {
            self.messages.len() == 1 && self.finished
        }
    }

    /// What holds of the reply of a handler whose responses stream,
    /// whatever the handler did: a reply that carries a failure does not
    /// also end the stream in good order, and the reply to the handler's last
    /// run ends the response direction one way or the other.
    pub open spec fn stream_shaped(self, last_run: bool) -> bool {
        &&& self.failure is Some ==> !self.finished
        &&& last_run ==> self.ends()
    }
}

/// The detail of a handler's failure, if it failed.
pub open spec fn outcome_view(outcome: Result<(), HandlerError>) -> Option<Seq<u8>> {
    match outcome {
        Ok(()) => None,
        Err(e) => Some(e.detail@),
    }
}

impl Reply {
    /// The reply of a handler with one response.
    pub fn from_unary(sink: ServerResponseUnarySink, outcome: Result<(), HandlerError>) -> (reply:
        Reply)
        ensures
            reply@ == ReplyView::of_unary(sink.view(), outcome_view(outcome)),
            reply@.unary_shaped(),
    {
        match outcome {
            Err(e) => {
                let reply =
                    Reply { messages: Vec::new(), finished: false, failure: Some(e.detail) };
                assert(reply@.messages =~= Seq::<Seq<u8>>::empty());
                reply
            },
            Ok(()) => {
                match sink.message {
                    Some(m) => {
                        let mut messages: Vec<Vec<u8>> = Vec::new();
                        messages.push(m);
                        let reply = Reply { messages, finished: true, failure: None };
                        assert(reply@.messages =~= seq![m@]);
                        reply
                    },
                    None => {
                        let reply = Reply {
                            messages: Vec::new(),
                            finished: false,
                            failure: Some(Vec::new()),
                        };
                        assert(reply@.messages =~= Seq::<Seq<u8>>::empty());
                        reply
                    },
                }
            },
        }
    }

    /// The reply of a handler whose responses stream. `last_run` says that
    /// the handler will not run again for this call.
    pub fn from_stream(
        sink: ServerResponseSink,
        last_run: bool,
        outcome: Result<(), HandlerError>,
    ) -> (reply: Reply)
        ensures
            reply@ == ReplyView::of_stream(
                sink.messages(),
                sink.is_closed(),
                last_run,
                outcome_view(outcome),
            ),
            reply@.stream_shaped(last_run),
    {
        match outcome {
            Err(e) => Reply { messages: sink.messages, finished: false, failure: Some(e.detail) },
            Ok(()) => Reply {
                messages: sink.messages,
                finished: sink.closed || last_run,
                failure: None,
            },
        }
    }
}

/// A service: the prefix of its method names, its methods, and the handler
/// that serves them.
pub struct ServerServiceDefinition<H> {
    pub prefix: Vec<u8>,
    pub methods: Vec<MethodDescriptor>,
    pub handler: H,
}

impl<H> ServerServiceDefinition<H> {
    /// The place of the first method called `name` among the methods of the
    /// service.
    pub fn find_method(&self, name: &[u8]) -> (r: Option<usize>)
        ensures
            match r {
                Some(i) => i == first_named(method_views(self.methods@), name@) && i
                    < self.methods@.len() && self.methods@[i as int]@.name == name@,
                None => !has_method(method_views(self.methods@), name@),
            },
    {
        find_in(&self.methods, name)
    }
}

} // verus!
