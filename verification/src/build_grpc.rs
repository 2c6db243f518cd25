//! The build service: `Build` is one conversation, requests and results
//! streaming both ways.

use vstd::prelude::*;
use vstd::string::StringSliceAdditionalSpecFns;
use crate::bytes::{bytes_eq, copy_range};
use crate::call::CallKind;
use crate::connection::Connection;
use crate::dispatch::{method_views, table_wf, MethodDescriptor, MethodView};
use crate::error::MuxError;
use crate::service::{
    outcome_view, HandlerError, Reply, ReplyView, ServerHandlerContext, ServerRequest,
    ServerResponseSink, ServerServiceDefinition,
};

verus! {

/// The prefix of the names of the methods of the build service.
pub open spec fn service_name() -> Seq<u8> {
    "/build.Build".spec_bytes()
}

/// The name of the method `Build` of the build service.
pub open spec fn build_name() -> Seq<u8> {
    "/build.Build/Build".spec_bytes()
}

/// The methods of the build service, in the order of its definition.
pub open spec fn service_methods() -> Seq<MethodView> {
    seq![
        MethodView { name: build_name(), streaming: CallKind::Bidi },
    ]
}

/// The name of the method of the build service is one that a frame can
/// carry.
pub proof fn lemma_method_names()
    ensures
        table_wf(service_methods()),
        build_name().len() == 18,
{
    reveal_strlit("/build.Build/Build");
    vstd::string::is_ascii_spec_bytes("/build.Build/Build");
}

/// What a server of the build service implements: one handler for each
/// method, here the only one.
pub trait Build {
    fn build(
        &self,
        o: ServerHandlerContext,
        req: ServerRequest,
        resp: &mut ServerResponseSink,
    ) -> Result<(), HandlerError>;
}

/// The client's side of the build service.
pub struct BuildClient;

impl BuildClient {
    /// Opens a call of `Build`, which has a stream of requests and a stream of responses,
    /// and gives the id of the call. The requests are sent on the call
    /// afterwards; its request direction stays open until it is closed.
    pub fn build(&self, conn: &mut Connection) -> (r: Result<u64, MuxError>)
        requires
            old(conn).wf(),
        ensures
            final(conn).wf(),
            final(conn)@ == old(conn)@.after_open_call(
                build_name(),
                CallKind::Bidi,
                Seq::<u8>::empty(),
            ),
            match r {
                Ok(id) => old(conn)@.open_call_error(build_name(), Seq::<u8>::empty()) is None && id
                    == old(conn)@.registry.next_id,
                Err(e) => old(conn)@.open_call_error(build_name(), Seq::<u8>::empty()) == Some(e),
            },
    {
        conn.open_call("/build.Build/Build".as_bytes(), CallKind::Bidi, Vec::new())
    }
}

/// The server's side of the build service.
pub struct BuildServer;

impl BuildServer {
    /// The prefix of the names of the service's methods.
    pub fn prefix() -> (prefix: Vec<u8>)
        ensures
            prefix@ == service_name(),
    {
        let name = "/build.Build".as_bytes();
        let prefix = copy_range(name, 0, name.len());
        prefix
    }

    /// The methods of the service, in the order of its definition.
    pub fn methods() -> (methods: Vec<MethodDescriptor>)
        ensures
            method_views(methods@) == service_methods(),
    {
        let mut methods: Vec<MethodDescriptor> = Vec::new();
        methods.push(MethodDescriptor::new("/build.Build/Build", CallKind::Bidi));
        methods
    }

    /// The definition of the service, with `handler` to serve it.
    pub fn new_service_def<H: Build>(handler: H) -> (def: ServerServiceDefinition<H>)
        ensures
            def.prefix@ == service_name(),
            method_views(def.methods@) == service_methods(),
            def.handler == handler,
    {
        ServerServiceDefinition { prefix: Self::prefix(), methods: Self::methods(), handler }
    }

    /// Runs the handler of the method called `method` on what has arrived for
    /// a call, and gives the handler's reply. A method that is none of the
    /// service's gets no reply, and no handler runs.
    ///
    /// The handler runs each time something has arrived. The reply is made
    /// from that one run, on the requests as they came and an empty sink: it
    /// holds what the run left in the sink and how it came back. So whatever
    /// the handler does, its reply has the shape of a stream, and its reply to
    /// the run that saw the end of the requests ends the call.
    pub fn dispatch<H: Build>(
        def: &ServerServiceDefinition<H>,
        o: ServerHandlerContext,
        method: &[u8],
        request: ServerRequest,
    ) -> (reply: Option<Reply>)
        ensures
            reply is Some <==> method@ == build_name(),
            reply matches Some(r) ==> r@.stream_shaped(request.finished),
            reply matches Some(r) ==> exists|
                sink: &mut ServerResponseSink,
                outcome: Result<(), HandlerError>,
            |
                (*sink).messages() == Seq::<Seq<u8>>::empty()
                    && !(*sink).is_closed()
                    && #[trigger] call_ensures(H::build, (&def.handler, o, request, sink), outcome)
                    && r@ == ReplyView::of_stream(
                    (*final(sink)).messages(),
                    (*final(sink)).is_closed(),
                    request.finished,
                    outcome_view(outcome),
                ),
    {
        if bytes_eq(method, "/build.Build/Build".as_bytes()) {
            let last_run = request.finished;
            let mut sink = ServerResponseSink::new();
            let outcome = def.handler.build(o, request, &mut sink);
            Some(Reply::from_stream(sink, last_run, outcome))
        } else {
            None
        }
    }
}

} // verus!
