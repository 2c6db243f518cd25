//! The alert service: one method, `ReportEvent`, with one request and one
//! response.

use vstd::prelude::*;
use vstd::string::StringSliceAdditionalSpecFns;
use crate::bytes::{bytes_eq, copy_range};
use crate::call::CallKind;
use crate::connection::Connection;
use crate::dispatch::{method_views, table_wf, MethodDescriptor, MethodView};
use crate::error::MuxError;
use crate::service::{
    outcome_view, HandlerError, Reply, ReplyView, ServerHandlerContext, ServerRequest,
    ServerRequestSingle, ServerResponseUnarySink, ServerServiceDefinition,
};

verus! {

/// The prefix of the names of the methods of the alert service.
pub open spec fn service_name() -> Seq<u8> {
    "/alert.Alert".spec_bytes()
}

/// The name of the method `ReportEvent` of the alert service.
pub open spec fn report_event_name() -> Seq<u8> {
    "/alert.Alert/ReportEvent".spec_bytes()
}

/// The methods of the alert service, in the order of its definition.
pub open spec fn service_methods() -> Seq<MethodView> {
    seq![
        MethodView { name: report_event_name(), streaming: CallKind::Unary },
    ]
}

/// The name of the method of the alert service is one that a frame can
/// carry.
pub proof fn lemma_method_names()
    ensures
        table_wf(service_methods()),
        report_event_name().len() == 24,
{
    reveal_strlit("/alert.Alert/ReportEvent");
    vstd::string::is_ascii_spec_bytes("/alert.Alert/ReportEvent");
}

/// What a server of the alert service implements: one handler for each
/// method, here the only one.
pub trait Alert {
    fn report_event(
        &self,
        o: ServerHandlerContext,
        req: ServerRequestSingle,
        resp: &mut ServerResponseUnarySink,
    ) -> Result<(), HandlerError>;
}

/// The client's side of the alert service.
pub struct AlertClient;

impl AlertClient {
    /// Opens a call of `ReportEvent`, which has one request and one response, with `req`
    /// as its request, and gives the id of the call. The frame that opens the
    /// call also closes its request direction.
    pub fn report_event(&self, conn: &mut Connection, req: Vec<u8>) -> (r: Result<u64, MuxError>)
        requires
            old(conn).wf(),
        ensures
            final(conn).wf(),
            final(conn)@ == old(conn)@.after_open_call(
                report_event_name(),
                CallKind::Unary,
                req@,
            ),
            match r {
                Ok(id) => old(conn)@.open_call_error(report_event_name(), req@) is None && id
                    == old(conn)@.registry.next_id,
                Err(e) => old(conn)@.open_call_error(report_event_name(), req@) == Some(e),
            },
    {
        conn.open_call("/alert.Alert/ReportEvent".as_bytes(), CallKind::Unary, req)
    }
}

/// The server's side of the alert service.
pub struct AlertServer;

impl AlertServer {
    /// The prefix of the names of the service's methods.
    pub fn prefix() -> (prefix: Vec<u8>)
        ensures
            prefix@ == service_name(),
    {
        let name = "/alert.Alert".as_bytes();
        let prefix = copy_range(name, 0, name.len());
        prefix
    }

    /// The methods of the service, in the order of its definition.
    pub fn methods() -> (methods: Vec<MethodDescriptor>)
        ensures
            method_views(methods@) == service_methods(),
    {
        let mut methods: Vec<MethodDescriptor> = Vec::new();
        methods.push(MethodDescriptor::new("/alert.Alert/ReportEvent", CallKind::Unary));
        methods
    }

    /// The definition of the service, with `handler` to serve it.
    pub fn new_service_def<H: Alert>(handler: H) -> (def: ServerServiceDefinition<H>)
        ensures
            def.prefix@ == service_name(),
            method_views(def.methods@) == service_methods(),
            def.handler == handler,
    {
        ServerServiceDefinition { prefix: Self::prefix(), methods: Self::methods(), handler }
    }

    /// Runs the handler of the method called `method` on what has arrived for
    /// a call, and gives the handler's reply. A method that is none of the
    /// service's gets no reply, and no handler runs.
    ///
    /// The reply to a method is made from one run of the handler's function
    /// of that name, on the request as it came and an empty sink: it holds
    /// what that run left in the sink and how it came back. So whatever a
    /// handler does, its reply has the shape that the kind of its method asks
    /// for, and ends the call: with the responses it gave, or with its
    /// failure.
    pub fn dispatch<H: Alert>(
        def: &ServerServiceDefinition<H>,
        o: ServerHandlerContext,
        method: &[u8],
        request: ServerRequest,
    ) -> (reply: Option<Reply>)
        ensures
            reply is Some <==> method@ == report_event_name(),
            reply matches Some(r) ==> r@.unary_shaped(),
            reply matches Some(r) ==> exists|
                single: ServerRequestSingle,
                sink: &mut ServerResponseUnarySink,
                outcome: Result<(), HandlerError>,
            |
                single.message@ == request.spec_single()
                    && (*sink).view() is None
                    && #[trigger] call_ensures(H::report_event, (&def.handler, o, single, sink), outcome)
                    && r@ == ReplyView::of_unary((*final(sink)).view(), outcome_view(outcome)),
    {
        if bytes_eq(method, "/alert.Alert/ReportEvent".as_bytes()) {
            let mut sink = ServerResponseUnarySink::new();
            let outcome = def.handler.report_event(o, request.into_single(), &mut sink);
            Some(Reply::from_unary(sink, outcome))
        } else {
            None
        }
    }
}

} // verus!
