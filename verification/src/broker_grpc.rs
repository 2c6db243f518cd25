//! The broker service: `Publish` hands a message to the broker, `Subscribe` asks
//! for the stream of messages of a topic.

use vstd::prelude::*;
use vstd::string::StringSliceAdditionalSpecFns;
use crate::bytes::{bytes_eq, copy_range};
use crate::call::CallKind;
use crate::connection::Connection;
use crate::dispatch::{method_views, table_wf, MethodDescriptor, MethodView};
use crate::error::MuxError;
use crate::service::{
    outcome_view, HandlerError, Reply, ReplyView, ServerHandlerContext, ServerRequest,
    ServerRequestSingle, ServerResponseSink, ServerResponseUnarySink, ServerServiceDefinition,
};

verus! {

/// The prefix of the names of the methods of the broker service.
pub open spec fn service_name() -> Seq<u8> {
    "/broker.Broker".spec_bytes()
}

/// The name of the method `Publish` of the broker service.
pub open spec fn publish_name() -> Seq<u8> {
    "/broker.Broker/Publish".spec_bytes()
}

/// The name of the method `Subscribe` of the broker service.
pub open spec fn subscribe_name() -> Seq<u8> {
    "/broker.Broker/Subscribe".spec_bytes()
}

/// The methods of the broker service, in the order of its definition.
pub open spec fn service_methods() -> Seq<MethodView> {
    seq![
        MethodView { name: publish_name(), streaming: CallKind::Unary },
        MethodView { name: subscribe_name(), streaming: CallKind::ServerStreaming },
    ]
}

/// The names of the methods of the broker service are names that a frame
/// can carry, and no two of them are the same.
pub proof fn lemma_method_names()
    ensures
        table_wf(service_methods()),
        publish_name().len() == 22,
        subscribe_name().len() == 24,
{
    reveal_strlit("/broker.Broker/Publish");
    vstd::string::is_ascii_spec_bytes("/broker.Broker/Publish");
    reveal_strlit("/broker.Broker/Subscribe");
    vstd::string::is_ascii_spec_bytes("/broker.Broker/Subscribe");
}

/// What a server of the broker service implements: one handler for each
/// method.
pub trait Broker {
    fn publish(
        &self,
        o: ServerHandlerContext,
        req: ServerRequestSingle,
        resp: &mut ServerResponseUnarySink,
    ) -> Result<(), HandlerError>;

    fn subscribe(
        &self,
        o: ServerHandlerContext,
        req: ServerRequestSingle,
        resp: &mut ServerResponseSink,
    ) -> Result<(), HandlerError>;
}

/// The client's side of the broker service.
pub struct BrokerClient;

impl BrokerClient {
    /// Opens a call of `Publish`, which has one request and one response, with `req`
    /// as its request, and gives the id of the call. The frame that opens the
    /// call also closes its request direction.
    pub fn publish(&self, conn: &mut Connection, req: Vec<u8>) -> (r: Result<u64, MuxError>)
        requires
            old(conn).wf(),
        ensures
            final(conn).wf(),
            final(conn)@ == old(conn)@.after_open_call(
                publish_name(),
                CallKind::Unary,
                req@,
            ),
            match r {
                Ok(id) => old(conn)@.open_call_error(publish_name(), req@) is None && id
                    == old(conn)@.registry.next_id,
                Err(e) => old(conn)@.open_call_error(publish_name(), req@) == Some(e),
            },
    {
        conn.open_call("/broker.Broker/Publish".as_bytes(), CallKind::Unary, req)
    }

    /// Opens a call of `Subscribe`, which has one request and a stream of responses, with `req`
    /// as its request, and gives the id of the call. The frame that opens the
    /// call also closes its request direction.
    pub fn subscribe(&self, conn: &mut Connection, req: Vec<u8>) -> (r: Result<u64, MuxError>)
        requires
            old(conn).wf(),
        ensures
            final(conn).wf(),
            final(conn)@ == old(conn)@.after_open_call(
                subscribe_name(),
                CallKind::ServerStreaming,
                req@,
            ),
            match r {
                Ok(id) => old(conn)@.open_call_error(subscribe_name(), req@) is None && id
                    == old(conn)@.registry.next_id,
                Err(e) => old(conn)@.open_call_error(subscribe_name(), req@) == Some(e),
            },
    {
        conn.open_call("/broker.Broker/Subscribe".as_bytes(), CallKind::ServerStreaming, req)
    }
}

/// The server's side of the broker service.
pub struct BrokerServer;

impl BrokerServer {
    /// The prefix of the names of the service's methods.
    pub fn prefix() -> (prefix: Vec<u8>)
        ensures
            prefix@ == service_name(),
    {
        let name = "/broker.Broker".as_bytes();
        let prefix = copy_range(name, 0, name.len());
        prefix
    }

    /// The methods of the service, in the order of its definition.
    pub fn methods() -> (methods: Vec<MethodDescriptor>)
        ensures
            method_views(methods@) == service_methods(),
    {
        let mut methods: Vec<MethodDescriptor> = Vec::new();
        methods.push(MethodDescriptor::new("/broker.Broker/Publish", CallKind::Unary));
        methods.push(MethodDescriptor::new("/broker.Broker/Subscribe", CallKind::ServerStreaming));
        methods
    }

    /// The definition of the service, with `handler` to serve it.
    pub fn new_service_def<H: Broker>(handler: H) -> (def: ServerServiceDefinition<H>)
        ensures
            def.prefix@ == service_name(),
            method_views(def.methods@) == service_methods(),
            def.handler == handler,
    {
        ServerServiceDefinition { prefix: Self::prefix(), methods: Self::methods(), handler }
    }

    /// Runs the handler of the method called `method` on what has arrived for
    /// a call, and gives the handler's reply. A method that is none of the
    /// service's gets no reply, and no handler runs.
    ///
    /// The reply to a method is made from one run of the handler's function
    /// of that name, on the request as it came and an empty sink: it holds
    /// what that run left in the sink and how it came back. So whatever a
    /// handler does, its reply has the shape that the kind of its method asks
    /// for, and ends the call: with the responses it gave, or with its
    /// failure.
    pub fn dispatch<H: Broker>(
        def: &ServerServiceDefinition<H>,
        o: ServerHandlerContext,
        method: &[u8],
        request: ServerRequest,
    ) -> (reply: Option<Reply>)
        ensures
            reply is Some <==> (method@ == publish_name() || method@ == subscribe_name()),
            reply matches Some(r) ==> (method@ == publish_name() ==> r@.unary_shaped()),
            reply matches Some(r) ==> (method@ == subscribe_name() ==> r@.stream_shaped(true)),
            reply matches Some(r) ==> (method@ == publish_name() ==> exists|
                single: ServerRequestSingle,
                sink: &mut ServerResponseUnarySink,
                outcome: Result<(), HandlerError>,
            |
                single.message@ == request.spec_single()
                    && (*sink).view() is None
                    && #[trigger] call_ensures(H::publish, (&def.handler, o, single, sink), outcome)
                    && r@ == ReplyView::of_unary((*final(sink)).view(), outcome_view(outcome))),
            reply matches Some(r) ==> (method@ == subscribe_name() ==> exists|
                single: ServerRequestSingle,
                sink: &mut ServerResponseSink,
                outcome: Result<(), HandlerError>,
            |
                single.message@ == request.spec_single()
                    && (*sink).messages() == Seq::<Seq<u8>>::empty()
                    && !(*sink).is_closed()
                    && #[trigger] call_ensures(H::subscribe, (&def.handler, o, single, sink), outcome)
                    && r@ == ReplyView::of_stream(
                    (*final(sink)).messages(),
                    (*final(sink)).is_closed(),
                    true,
                    outcome_view(outcome),
                )),
    {
        proof {
            lemma_method_names();
        }
        if bytes_eq(method, "/broker.Broker/Publish".as_bytes()) {
            let mut sink = ServerResponseUnarySink::new();
            let outcome = def.handler.publish(o, request.into_single(), &mut sink);
            Some(Reply::from_unary(sink, outcome))
        } else if bytes_eq(method, "/broker.Broker/Subscribe".as_bytes()) {
            let mut sink = ServerResponseSink::new();
            let outcome = def.handler.subscribe(o, request.into_single(), &mut sink);
            Some(Reply::from_stream(sink, true, outcome))
        } else {
            None
        }
    }
}

} // verus!
