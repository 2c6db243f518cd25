//! The event services: `Stream`, through which events are published and
//! consumed, and `Store`, which reads and writes them.

use vstd::prelude::*;
use vstd::string::StringSliceAdditionalSpecFns;
use crate::bytes::{bytes_eq, copy_range};
use crate::call::CallKind;
use crate::connection::Connection;
use crate::dispatch::{method_views, table_wf, MethodDescriptor, MethodView};
use crate::error::MuxError;
use crate::service::{
    outcome_view, HandlerError, Reply, ReplyView, ServerHandlerContext, ServerRequest,
    ServerRequestSingle, ServerResponseSink, ServerResponseUnarySink, ServerServiceDefinition,
};

verus! {

/// The prefix of the names of the methods of the event stream service.
pub open spec fn stream_service_name() -> Seq<u8> {
    "/events.Stream".spec_bytes()
}

/// The name of the method `Publish` of the event stream service.
pub open spec fn stream_publish_name() -> Seq<u8> {
    "/events.Stream/Publish".spec_bytes()
}

/// The name of the method `Consume` of the event stream service.
pub open spec fn stream_consume_name() -> Seq<u8> {
    "/events.Stream/Consume".spec_bytes()
}

/// The methods of the event stream service, in the order of its definition.
pub open spec fn stream_service_methods() -> Seq<MethodView> {
    seq![
        MethodView { name: stream_publish_name(), streaming: CallKind::Unary },
        MethodView { name: stream_consume_name(), streaming: CallKind::ServerStreaming },
    ]
}

/// The names of the methods of the event stream service are names that a frame
/// can carry, and no two of them are the same.
pub proof fn lemma_stream_method_names()
    ensures
        table_wf(stream_service_methods()),
        stream_publish_name().len() == 22,
        stream_consume_name().len() == 22,
{
    reveal_strlit("/events.Stream/Publish");
    vstd::string::is_ascii_spec_bytes("/events.Stream/Publish");
    reveal_strlit("/events.Stream/Consume");
    vstd::string::is_ascii_spec_bytes("/events.Stream/Consume");
    assert(stream_publish_name()[15] != stream_consume_name()[15]);
}

/// What a server of the event stream service implements: one handler for each
/// method.
pub trait Stream {
    fn publish(
        &self,
        o: ServerHandlerContext,
        req: ServerRequestSingle,
        resp: &mut ServerResponseUnarySink,
    ) -> Result<(), HandlerError>;

    fn consume(
        &self,
        o: ServerHandlerContext,
        req: ServerRequestSingle,
        resp: &mut ServerResponseSink,
    ) -> Result<(), HandlerError>;
}

/// The client's side of the event stream service.
pub struct StreamClient;

impl StreamClient {
    /// Opens a call of `Publish`, which has one request and one response, with `req`
    /// as its request, and gives the id of the call. The frame that opens the
    /// call also closes its request direction.
    pub fn publish(&self, conn: &mut Connection, req: Vec<u8>) -> (r: Result<u64, MuxError>)
        requires
            old(conn).wf(),
        ensures
            final(conn).wf(),
            final(conn)@ == old(conn)@.after_open_call(
                stream_publish_name(),
                CallKind::Unary,
                req@,
            ),
            match r {
                Ok(id) => old(conn)@.open_call_error(stream_publish_name(), req@) is None && id
                    == old(conn)@.registry.next_id,
                Err(e) => old(conn)@.open_call_error(stream_publish_name(), req@) == Some(e),
            },
    {
        conn.open_call("/events.Stream/Publish".as_bytes(), CallKind::Unary, req)
    }

    /// Opens a call of `Consume`, which has one request and a stream of responses, with `req`
    /// as its request, and gives the id of the call. The frame that opens the
    /// call also closes its request direction.
    pub fn consume(&self, conn: &mut Connection, req: Vec<u8>) -> (r: Result<u64, MuxError>)
        requires
            old(conn).wf(),
        ensures
            final(conn).wf(),
            final(conn)@ == old(conn)@.after_open_call(
                stream_consume_name(),
                CallKind::ServerStreaming,
                req@,
            ),
            match r {
                Ok(id) => old(conn)@.open_call_error(stream_consume_name(), req@) is None && id
                    == old(conn)@.registry.next_id,
                Err(e) => old(conn)@.open_call_error(stream_consume_name(), req@) == Some(e),
            },
    {
        conn.open_call("/events.Stream/Consume".as_bytes(), CallKind::ServerStreaming, req)
    }
}

/// The server's side of the event stream service.
pub struct StreamServer;

impl StreamServer {
    /// The prefix of the names of the service's methods.
    pub fn prefix() -> (prefix: Vec<u8>)
        ensures
            prefix@ == stream_service_name(),
    {
        let name = "/events.Stream".as_bytes();
        let prefix = copy_range(name, 0, name.len());
        prefix
    }

    /// The methods of the service, in the order of its definition.
    pub fn methods() -> (methods: Vec<MethodDescriptor>)
        ensures
            method_views(methods@) == stream_service_methods(),
    {
        let mut methods: Vec<MethodDescriptor> = Vec::new();
        methods.push(MethodDescriptor::new("/events.Stream/Publish", CallKind::Unary));
        methods.push(MethodDescriptor::new("/events.Stream/Consume", CallKind::ServerStreaming));
        methods
    }

    /// The definition of the service, with `handler` to serve it.
    pub fn new_service_def<H: Stream>(handler: H) -> (def: ServerServiceDefinition<H>)
        ensures
            def.prefix@ == stream_service_name(),
            method_views(def.methods@) == stream_service_methods(),
            def.handler == handler,
    {
        ServerServiceDefinition { prefix: Self::prefix(), methods: Self::methods(), handler }
    }

    /// Runs the handler of the method called `method` on what has arrived for
    /// a call, and gives the handler's reply. A method that is none of the
    /// service's gets no reply, and no handler runs.
    ///
    /// The reply to a method is made from one run of the handler's function
    /// of that name, on the request as it came and an empty sink: it holds
    /// what that run left in the sink and how it came back. So whatever a
    /// handler does, its reply has the shape that the kind of its method asks
    /// for, and ends the call: with the responses it gave, or with its
    /// failure.
    pub fn dispatch<H: Stream>(
        def: &ServerServiceDefinition<H>,
        o: ServerHandlerContext,
        method: &[u8],
        request: ServerRequest,
    ) -> (reply: Option<Reply>)
        ensures
            reply is Some <==> (method@ == stream_publish_name()
                || method@ == stream_consume_name()),
            reply matches Some(r) ==> (method@ == stream_publish_name() ==> r@.unary_shaped()),
            reply matches Some(r) ==> (method@ == stream_consume_name() ==> r@.stream_shaped(true)),
            reply matches Some(r) ==> (method@ == stream_publish_name() ==> exists|
                single: ServerRequestSingle,
                sink: &mut ServerResponseUnarySink,
                outcome: Result<(), HandlerError>,
            |
                single.message@ == request.spec_single()
                    && (*sink).view() is None
                    && #[trigger] call_ensures(H::publish, (&def.handler, o, single, sink), outcome)
                    && r@ == ReplyView::of_unary((*final(sink)).view(), outcome_view(outcome))),
            reply matches Some(r) ==> (method@ == stream_consume_name() ==> exists|
                single: ServerRequestSingle,
                sink: &mut ServerResponseSink,
                outcome: Result<(), HandlerError>,
            |
                single.message@ == request.spec_single()
                    && (*sink).messages() == Seq::<Seq<u8>>::empty()
                    && !(*sink).is_closed()
                    && #[trigger] call_ensures(H::consume, (&def.handler, o, single, sink), outcome)
                    && r@ == ReplyView::of_stream(
                    (*final(sink)).messages(),
                    (*final(sink)).is_closed(),
                    true,
                    outcome_view(outcome),
                )),
    {
        proof {
            lemma_stream_method_names();
        }
        if bytes_eq(method, "/events.Stream/Publish".as_bytes()) {
            let mut sink = ServerResponseUnarySink::new();
            let outcome = def.handler.publish(o, request.into_single(), &mut sink);
            Some(Reply::from_unary(sink, outcome))
        } else if bytes_eq(method, "/events.Stream/Consume".as_bytes()) {
            let mut sink = ServerResponseSink::new();
            let outcome = def.handler.consume(o, request.into_single(), &mut sink);
            Some(Reply::from_stream(sink, true, outcome))
        } else {
            None
        }
    }
}

/// The prefix of the names of the methods of the event store service.
pub open spec fn store_service_name() -> Seq<u8> {
    "/events.Store".spec_bytes()
}

/// The name of the method `Read` of the event store service.
pub open spec fn store_read_name() -> Seq<u8> {
    "/events.Store/Read".spec_bytes()
}

/// The name of the method `Write` of the event store service.
pub open spec fn store_write_name() -> Seq<u8> {
    "/events.Store/Write".spec_bytes()
}

/// The methods of the event store service, in the order of its definition.
pub open spec fn store_service_methods() -> Seq<MethodView> {
    seq![
        MethodView { name: store_read_name(), streaming: CallKind::Unary },
        MethodView { name: store_write_name(), streaming: CallKind::Unary },
    ]
}

/// The names of the methods of the event store service are names that a frame
/// can carry, and no two of them are the same.
pub proof fn lemma_store_method_names()
    ensures
        table_wf(store_service_methods()),
        store_read_name().len() == 18,
        store_write_name().len() == 19,
{
    reveal_strlit("/events.Store/Read");
    vstd::string::is_ascii_spec_bytes("/events.Store/Read");
    reveal_strlit("/events.Store/Write");
    vstd::string::is_ascii_spec_bytes("/events.Store/Write");
}

/// What a server of the event store service implements: one handler for each
/// method.
pub trait Store {
    fn read(
        &self,
        o: ServerHandlerContext,
        req: ServerRequestSingle,
        resp: &mut ServerResponseUnarySink,
    ) -> Result<(), HandlerError>;

    fn write(
        &self,
        o: ServerHandlerContext,
        req: ServerRequestSingle,
        resp: &mut ServerResponseUnarySink,
    ) -> Result<(), HandlerError>;
}

/// The client's side of the event store service.
pub struct StoreClient;

impl StoreClient {
    /// Opens a call of `Read`, which has one request and one response, with `req`
    /// as its request, and gives the id of the call. The frame that opens the
    /// call also closes its request direction.
    pub fn read(&self, conn: &mut Connection, req: Vec<u8>) -> (r: Result<u64, MuxError>)
        requires
            old(conn).wf(),
        ensures
            final(conn).wf(),
            final(conn)@ == old(conn)@.after_open_call(
                store_read_name(),
                CallKind::Unary,
                req@,
            ),
            match r {
                Ok(id) => old(conn)@.open_call_error(store_read_name(), req@) is None && id
                    == old(conn)@.registry.next_id,
                Err(e) => old(conn)@.open_call_error(store_read_name(), req@) == Some(e),
            },
    {
        conn.open_call("/events.Store/Read".as_bytes(), CallKind::Unary, req)
    }

    /// Opens a call of `Write`, which has one request and one response, with `req`
    /// as its request, and gives the id of the call. The frame that opens the
    /// call also closes its request direction.
    pub fn write(&self, conn: &mut Connection, req: Vec<u8>) -> (r: Result<u64, MuxError>)
        requires
            old(conn).wf(),
        ensures
            final(conn).wf(),
            final(conn)@ == old(conn)@.after_open_call(
                store_write_name(),
                CallKind::Unary,
                req@,
            ),
            match r {
                Ok(id) => old(conn)@.open_call_error(store_write_name(), req@) is None && id
                    == old(conn)@.registry.next_id,
                Err(e) => old(conn)@.open_call_error(store_write_name(), req@) == Some(e),
            },
    {
        conn.open_call("/events.Store/Write".as_bytes(), CallKind::Unary, req)
    }
}

/// The server's side of the event store service.
pub struct StoreServer;

impl StoreServer {
    /// The prefix of the names of the service's methods.
    pub fn prefix() -> (prefix: Vec<u8>)
        ensures
            prefix@ == store_service_name(),
    {
        let name = "/events.Store".as_bytes();
        let prefix = copy_range(name, 0, name.len());
        prefix
    }

    /// The methods of the service, in the order of its definition.
    pub fn methods() -> (methods: Vec<MethodDescriptor>)
        ensures
            method_views(methods@) == store_service_methods(),
    {
        let mut methods: Vec<MethodDescriptor> = Vec::new();
        methods.push(MethodDescriptor::new("/events.Store/Read", CallKind::Unary));
        methods.push(MethodDescriptor::new("/events.Store/Write", CallKind::Unary));
        methods
    }

    /// The definition of the service, with `handler` to serve it.
    pub fn new_service_def<H: Store>(handler: H) -> (def: ServerServiceDefinition<H>)
        ensures
            def.prefix@ == store_service_name(),
            method_views(def.methods@) == store_service_methods(),
            def.handler == handler,
    {
        ServerServiceDefinition { prefix: Self::prefix(), methods: Self::methods(), handler }
    }

    /// Runs the handler of the method called `method` on what has arrived for
    /// a call, and gives the handler's reply. A method that is none of the
    /// service's gets no reply, and no handler runs.
    ///
    /// The reply to a method is made from one run of the handler's function
    /// of that name, on the request as it came and an empty sink: it holds
    /// what that run left in the sink and how it came back. So whatever a
    /// handler does, its reply has the shape that the kind of its method asks
    /// for, and ends the call: with the responses it gave, or with its
    /// failure.
    pub fn dispatch<H: Store>(
        def: &ServerServiceDefinition<H>,
        o: ServerHandlerContext,
        method: &[u8],
        request: ServerRequest,
    ) -> (reply: Option<Reply>)
        ensures
            reply is Some <==> (method@ == store_read_name() || method@ == store_write_name()),
            reply matches Some(r) ==> (method@ == store_read_name() ==> r@.unary_shaped()),
            reply matches Some(r) ==> (method@ == store_write_name() ==> r@.unary_shaped()),
            reply matches Some(r) ==> (method@ == store_read_name() ==> exists|
                single: ServerRequestSingle,
                sink: &mut ServerResponseUnarySink,
                outcome: Result<(), HandlerError>,
            |
                single.message@ == request.spec_single()
                    && (*sink).view() is None
                    && #[trigger] call_ensures(H::read, (&def.handler, o, single, sink), outcome)
                    && r@ == ReplyView::of_unary((*final(sink)).view(), outcome_view(outcome))),
            reply matches Some(r) ==> (method@ == store_write_name() ==> exists|
                single: ServerRequestSingle,
                sink: &mut ServerResponseUnarySink,
                outcome: Result<(), HandlerError>,
            |
                single.message@ == request.spec_single()
                    && (*sink).view() is None
                    && #[trigger] call_ensures(H::write, (&def.handler, o, single, sink), outcome)
                    && r@ == ReplyView::of_unary((*final(sink)).view(), outcome_view(outcome))),
    {
        proof {
            lemma_store_method_names();
        }
        if bytes_eq(method, "/events.Store/Read".as_bytes()) {
            let mut sink = ServerResponseUnarySink::new();
            let outcome = def.handler.read(o, request.into_single(), &mut sink);
            Some(Reply::from_unary(sink, outcome))
        } else if bytes_eq(method, "/events.Store/Write".as_bytes()) {
            let mut sink = ServerResponseUnarySink::new();
            let outcome = def.handler.write(o, request.into_single(), &mut sink);
            Some(Reply::from_unary(sink, outcome))
        } else {
            None
        }
    }
}

} // verus!
