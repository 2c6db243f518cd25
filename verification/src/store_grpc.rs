//! The storage services: `Store`, a store of keys and values in tables and
//! databases, and `BlobStore`, a store of blobs that are read and written as
//! streams.

use vstd::prelude::*;
use vstd::string::StringSliceAdditionalSpecFns;
use crate::bytes::{bytes_eq, copy_range};
use crate::call::CallKind;
use crate::connection::Connection;
use crate::dispatch::{method_views, table_wf, MethodDescriptor, MethodView};
use crate::error::MuxError;
use crate::service::{
    outcome_view, HandlerError, Reply, ReplyView, ServerHandlerContext, ServerRequest,
    ServerRequestSingle, ServerResponseSink, ServerResponseUnarySink, ServerServiceDefinition,
};

verus! {

/// The prefix of the names of the methods of the store service.
pub open spec fn store_service_name() -> Seq<u8> {
    "/store.Store".spec_bytes()
}

/// The name of the method `Read` of the store service.
pub open spec fn store_read_name() -> Seq<u8> {
    "/store.Store/Read".spec_bytes()
}

/// The name of the method `Write` of the store service.
pub open spec fn store_write_name() -> Seq<u8> {
    "/store.Store/Write".spec_bytes()
}

/// The name of the method `Delete` of the store service.
pub open spec fn store_delete_name() -> Seq<u8> {
    "/store.Store/Delete".spec_bytes()
}

/// The name of the method `List` of the store service.
pub open spec fn store_list_name() -> Seq<u8> {
    "/store.Store/List".spec_bytes()
}

/// The name of the method `Databases` of the store service.
pub open spec fn store_databases_name() -> Seq<u8> {
    "/store.Store/Databases".spec_bytes()
}

/// The name of the method `Tables` of the store service.
pub open spec fn store_tables_name() -> Seq<u8> {
    "/store.Store/Tables".spec_bytes()
}

/// The methods of the store service, in the order of its definition.
pub open spec fn store_service_methods() -> Seq<MethodView> {
    seq![
        MethodView { name: store_read_name(), streaming: CallKind::Unary },
        MethodView { name: store_write_name(), streaming: CallKind::Unary },
        MethodView { name: store_delete_name(), streaming: CallKind::Unary },
        MethodView { name: store_list_name(), streaming: CallKind::ServerStreaming },
        MethodView { name: store_databases_name(), streaming: CallKind::Unary },
        MethodView { name: store_tables_name(), streaming: CallKind::Unary },
    ]
}

/// The names of the methods of the store service are names that a frame
/// can carry, and no two of them are the same.
pub proof fn lemma_store_method_names()
    ensures
        table_wf(store_service_methods()),
        store_read_name().len() == 17,
        store_write_name().len() == 18,
        store_delete_name().len() == 19,
        store_list_name().len() == 17,
        store_databases_name().len() == 22,
        store_tables_name().len() == 19,
{
    reveal_strlit("/store.Store/Read");
    vstd::string::is_ascii_spec_bytes("/store.Store/Read");
    reveal_strlit("/store.Store/Write");
    vstd::string::is_ascii_spec_bytes("/store.Store/Write");
    reveal_strlit("/store.Store/Delete");
    vstd::string::is_ascii_spec_bytes("/store.Store/Delete");
    reveal_strlit("/store.Store/List");
    vstd::string::is_ascii_spec_bytes("/store.Store/List");
    reveal_strlit("/store.Store/Databases");
    vstd::string::is_ascii_spec_bytes("/store.Store/Databases");
    reveal_strlit("/store.Store/Tables");
    vstd::string::is_ascii_spec_bytes("/store.Store/Tables");
    assert(store_read_name()[13] != store_list_name()[13]);
    assert(store_delete_name()[13] != store_tables_name()[13]);
}

/// What a server of the store service implements: one handler for each
/// method.
pub trait Store {
    fn read(
        &self,
        o: ServerHandlerContext,
        req: ServerRequestSingle,
        resp: &mut ServerResponseUnarySink,
    ) -> Result<(), HandlerError>;

    fn write(
        &self,
        o: ServerHandlerContext,
        req: ServerRequestSingle,
        resp: &mut ServerResponseUnarySink,
    ) -> Result<(), HandlerError>;

    fn delete(
        &self,
        o: ServerHandlerContext,
        req: ServerRequestSingle,
        resp: &mut ServerResponseUnarySink,
    ) -> Result<(), HandlerError>;

    fn list(
        &self,
        o: ServerHandlerContext,
        req: ServerRequestSingle,
        resp: &mut ServerResponseSink,
    ) -> Result<(), HandlerError>;

    fn databases(
        &self,
        o: ServerHandlerContext,
        req: ServerRequestSingle,
        resp: &mut ServerResponseUnarySink,
    ) -> Result<(), HandlerError>;

    fn tables(
        &self,
        o: ServerHandlerContext,
        req: ServerRequestSingle,
        resp: &mut ServerResponseUnarySink,
    ) -> Result<(), HandlerError>;
}

/// The client's side of the store service.
pub struct StoreClient;

impl StoreClient {
    /// Opens a call of `Read`, which has one request and one response, with `req`
    /// as its request, and gives the id of the call. The frame that opens the
    /// call also closes its request direction.
    pub fn read(&self, conn: &mut Connection, req: Vec<u8>) -> (r: Result<u64, MuxError>)
        requires
            old(conn).wf(),
        ensures
            final(conn).wf(),
            final(conn)@ == old(conn)@.after_open_call(
                store_read_name(),
                CallKind::Unary,
                req@,
            ),
            match r {
                Ok(id) => old(conn)@.open_call_error(store_read_name(), req@) is None && id
                    == old(conn)@.registry.next_id,
                Err(e) => old(conn)@.open_call_error(store_read_name(), req@) == Some(e),
            },
    {
        conn.open_call("/store.Store/Read".as_bytes(), CallKind::Unary, req)
    }

    /// Opens a call of `Write`, which has one request and one response, with `req`
    /// as its request, and gives the id of the call. The frame that opens the
    /// call also closes its request direction.
    pub fn write(&self, conn: &mut Connection, req: Vec<u8>) -> (r: Result<u64, MuxError>)
        requires
            old(conn).wf(),
        ensures
            final(conn).wf(),
            final(conn)@ == old(conn)@.after_open_call(
                store_write_name(),
                CallKind::Unary,
                req@,
            ),
            match r {
                Ok(id) => old(conn)@.open_call_error(store_write_name(), req@) is None && id
                    == old(conn)@.registry.next_id,
                Err(e) => old(conn)@.open_call_error(store_write_name(), req@) == Some(e),
            },
    {
        conn.open_call("/store.Store/Write".as_bytes(), CallKind::Unary, req)
    }

    /// Opens a call of `Delete`, which has one request and one response, with `req`
    /// as its request, and gives the id of the call. The frame that opens the
    /// call also closes its request direction.
    pub fn delete(&self, conn: &mut Connection, req: Vec<u8>) -> (r: Result<u64, MuxError>)
        requires
            old(conn).wf(),
        ensures
            final(conn).wf(),
            final(conn)@ == old(conn)@.after_open_call(
                store_delete_name(),
                CallKind::Unary,
                req@,
            ),
            match r {
                Ok(id) => old(conn)@.open_call_error(store_delete_name(), req@) is None && id
                    == old(conn)@.registry.next_id,
                Err(e) => old(conn)@.open_call_error(store_delete_name(), req@) == Some(e),
            },
    {
        conn.open_call("/store.Store/Delete".as_bytes(), CallKind::Unary, req)
    }

    /// Opens a call of `List`, which has one request and a stream of responses, with `req`
    /// as its request, and gives the id of the call. The frame that opens the
    /// call also closes its request direction.
    pub fn list(&self, conn: &mut Connection, req: Vec<u8>) -> (r: Result<u64, MuxError>)
        requires
            old(conn).wf(),
        ensures
            final(conn).wf(),
            final(conn)@ == old(conn)@.after_open_call(
                store_list_name(),
                CallKind::ServerStreaming,
                req@,
            ),
            match r {
                Ok(id) => old(conn)@.open_call_error(store_list_name(), req@) is None && id
                    == old(conn)@.registry.next_id,
                Err(e) => old(conn)@.open_call_error(store_list_name(), req@) == Some(e),
            },
    {
        conn.open_call("/store.Store/List".as_bytes(), CallKind::ServerStreaming, req)
    }

    /// Opens a call of `Databases`, which has one request and one response, with `req`
    /// as its request, and gives the id of the call. The frame that opens the
    /// call also closes its request direction.
    pub fn databases(&self, conn: &mut Connection, req: Vec<u8>) -> (r: Result<u64, MuxError>)
        requires
            old(conn).wf(),
        ensures
            final(conn).wf(),
            final(conn)@ == old(conn)@.after_open_call(
                store_databases_name(),
                CallKind::Unary,
                req@,
            ),
            match r {
                Ok(id) => old(conn)@.open_call_error(store_databases_name(), req@) is None && id
                    == old(conn)@.registry.next_id,
                Err(e) => old(conn)@.open_call_error(store_databases_name(), req@) == Some(e),
            },
    {
        conn.open_call("/store.Store/Databases".as_bytes(), CallKind::Unary, req)
    }

    /// Opens a call of `Tables`, which has one request and one response, with `req`
    /// as its request, and gives the id of the call. The frame that opens the
    /// call also closes its request direction.
    pub fn tables(&self, conn: &mut Connection, req: Vec<u8>) -> (r: Result<u64, MuxError>)
        requires
            old(conn).wf(),
        ensures
            final(conn).wf(),
            final(conn)@ == old(conn)@.after_open_call(
                store_tables_name(),
                CallKind::Unary,
                req@,
            ),
            match r {
                Ok(id) => old(conn)@.open_call_error(store_tables_name(), req@) is None && id
                    == old(conn)@.registry.next_id,
                Err(e) => old(conn)@.open_call_error(store_tables_name(), req@) == Some(e),
            },
    {
        conn.open_call("/store.Store/Tables".as_bytes(), CallKind::Unary, req)
    }
}

/// The server's side of the store service.
pub struct StoreServer;

impl StoreServer {
    /// The prefix of the names of the service's methods.
    pub fn prefix() -> (prefix: Vec<u8>)
        ensures
            prefix@ == store_service_name(),
    {
        let name = "/store.Store".as_bytes();
        let prefix = copy_range(name, 0, name.len());
        prefix
    }

    /// The methods of the service, in the order of its definition.
    pub fn methods() -> (methods: Vec<MethodDescriptor>)
        ensures
            method_views(methods@) == store_service_methods(),
    {
        let mut methods: Vec<MethodDescriptor> = Vec::new();
        methods.push(MethodDescriptor::new("/store.Store/Read", CallKind::Unary));
        methods.push(MethodDescriptor::new("/store.Store/Write", CallKind::Unary));
        methods.push(MethodDescriptor::new("/store.Store/Delete", CallKind::Unary));
        methods.push(MethodDescriptor::new("/store.Store/List", CallKind::ServerStreaming));
        methods.push(MethodDescriptor::new("/store.Store/Databases", CallKind::Unary));
        methods.push(MethodDescriptor::new("/store.Store/Tables", CallKind::Unary));
        methods
    }

    /// The definition of the service, with `handler` to serve it.
    pub fn new_service_def<H: Store>(handler: H) -> (def: ServerServiceDefinition<H>)
        ensures
            def.prefix@ == store_service_name(),
            method_views(def.methods@) == store_service_methods(),
            def.handler == handler,
    {
        ServerServiceDefinition { prefix: Self::prefix(), methods: Self::methods(), handler }
    }

    /// Runs the handler of the method called `method` on what has arrived for
    /// a call, and gives the handler's reply. A method that is none of the
    /// service's gets no reply, and no handler runs.
    ///
    /// The reply to a method is made from one run of the handler's function
    /// of that name, on the request as it came and an empty sink: it holds
    /// what that run left in the sink and how it came back. So whatever a
    /// handler does, its reply has the shape that the kind of its method asks
    /// for, and ends the call: with the responses it gave, or with its
    /// failure.
    pub fn dispatch<H: Store>(
        def: &ServerServiceDefinition<H>,
        o: ServerHandlerContext,
        method: &[u8],
        request: ServerRequest,
    ) -> (reply: Option<Reply>)
        ensures
            reply is Some <==> (method@ == store_read_name()
                || method@ == store_write_name()
                || method@ == store_delete_name()
                || method@ == store_list_name()
                || method@ == store_databases_name()
                || method@ == store_tables_name()),
            reply matches Some(r) ==> (method@ == store_read_name() ==> r@.unary_shaped()),
            reply matches Some(r) ==> (method@ == store_write_name() ==> r@.unary_shaped()),
            reply matches Some(r) ==> (method@ == store_delete_name() ==> r@.unary_shaped()),
            reply matches Some(r) ==> (method@ == store_list_name() ==> r@.stream_shaped(true)),
            reply matches Some(r) ==> (method@ == store_databases_name() ==> r@.unary_shaped()),
            reply matches Some(r) ==> (method@ == store_tables_name() ==> r@.unary_shaped()),
            reply matches Some(r) ==> (method@ == store_read_name() ==> exists|
                single: ServerRequestSingle,
                sink: &mut ServerResponseUnarySink,
                outcome: Result<(), HandlerError>,
            |
                single.message@ == request.spec_single()
                    && (*sink).view() is None
                    && #[trigger] call_ensures(H::read, (&def.handler, o, single, sink), outcome)
                    && r@ == ReplyView::of_unary((*final(sink)).view(), outcome_view(outcome))),
            reply matches Some(r) ==> (method@ == store_write_name() ==> exists|
                single: ServerRequestSingle,
                sink: &mut ServerResponseUnarySink,
                outcome: Result<(), HandlerError>,
            |
                single.message@ == request.spec_single()
                    && (*sink).view() is None
                    && #[trigger] call_ensures(H::write, (&def.handler, o, single, sink), outcome)
                    && r@ == ReplyView::of_unary((*final(sink)).view(), outcome_view(outcome))),
            reply matches Some(r) ==> (method@ == store_delete_name() ==> exists|
                single: ServerRequestSingle,
                sink: &mut ServerResponseUnarySink,
                outcome: Result<(), HandlerError>,
            |
                single.message@ == request.spec_single()
                    && (*sink).view() is None
                    && #[trigger] call_ensures(H::delete, (&def.handler, o, single, sink), outcome)
                    && r@ == ReplyView::of_unary((*final(sink)).view(), outcome_view(outcome))),
            reply matches Some(r) ==> (method@ == store_list_name() ==> exists|
                single: ServerRequestSingle,
                sink: &mut ServerResponseSink,
                outcome: Result<(), HandlerError>,
            |
                single.message@ == request.spec_single()
                    && (*sink).messages() == Seq::<Seq<u8>>::empty()
                    && !(*sink).is_closed()
                    && #[trigger] call_ensures(H::list, (&def.handler, o, single, sink), outcome)
                    && r@ == ReplyView::of_stream(
                    (*final(sink)).messages(),
                    (*final(sink)).is_closed(),
                    true,
                    outcome_view(outcome),
                )),
            reply matches Some(r) ==> (method@ == store_databases_name() ==> exists|
                single: ServerRequestSingle,
                sink: &mut ServerResponseUnarySink,
                outcome: Result<(), HandlerError>,
            |
                single.message@ == request.spec_single()
                    && (*sink).view() is None
                    && #[trigger] call_ensures(H::databases, (&def.handler, o, single, sink), outcome)
                    && r@ == ReplyView::of_unary((*final(sink)).view(), outcome_view(outcome))),
            reply matches Some(r) ==> (method@ == store_tables_name() ==> exists|
                single: ServerRequestSingle,
                sink: &mut ServerResponseUnarySink,
                outcome: Result<(), HandlerError>,
            |
                single.message@ == request.spec_single()
                    && (*sink).view() is None
                    && #[trigger] call_ensures(H::tables, (&def.handler, o, single, sink), outcome)
                    && r@ == ReplyView::of_unary((*final(sink)).view(), outcome_view(outcome))),
    {
        proof {
            lemma_store_method_names();
        }
        if bytes_eq(method, "/store.Store/Read".as_bytes()) {
            let mut sink = ServerResponseUnarySink::new();
            let outcome = def.handler.read(o, request.into_single(), &mut sink);
            Some(Reply::from_unary(sink, outcome))
        } else if bytes_eq(method, "/store.Store/Write".as_bytes()) {
            let mut sink = ServerResponseUnarySink::new();
            let outcome = def.handler.write(o, request.into_single(), &mut sink);
            Some(Reply::from_unary(sink, outcome))
        } else if bytes_eq(method, "/store.Store/Delete".as_bytes()) {
            let mut sink = ServerResponseUnarySink::new();
            let outcome = def.handler.delete(o, request.into_single(), &mut sink);
            Some(Reply::from_unary(sink, outcome))
        } else if bytes_eq(method, "/store.Store/List".as_bytes()) {
            let mut sink = ServerResponseSink::new();
            let outcome = def.handler.list(o, request.into_single(), &mut sink);
            Some(Reply::from_stream(sink, true, outcome))
        } else if bytes_eq(method, "/store.Store/Databases".as_bytes()) {
            let mut sink = ServerResponseUnarySink::new();
            let outcome = def.handler.databases(o, request.into_single(), &mut sink);
            Some(Reply::from_unary(sink, outcome))
        } else if bytes_eq(method, "/store.Store/Tables".as_bytes()) {
            let mut sink = ServerResponseUnarySink::new();
            let outcome = def.handler.tables(o, request.into_single(), &mut sink);
            Some(Reply::from_unary(sink, outcome))
        } else {
            None
        }
    }
}

/// The prefix of the names of the methods of the blob store service.
pub open spec fn blob_service_name() -> Seq<u8> {
    "/store.BlobStore".spec_bytes()
}

/// The name of the method `Read` of the blob store service.
pub open spec fn blob_read_name() -> Seq<u8> {
    "/store.BlobStore/Read".spec_bytes()
}

/// The name of the method `Write` of the blob store service.
pub open spec fn blob_write_name() -> Seq<u8> {
    "/store.BlobStore/Write".spec_bytes()
}

/// The name of the method `Delete` of the blob store service.
pub open spec fn blob_delete_name() -> Seq<u8> {
    "/store.BlobStore/Delete".spec_bytes()
}

/// The methods of the blob store service, in the order of its definition.
pub open spec fn blob_service_methods() -> Seq<MethodView> {
    seq![
        MethodView { name: blob_read_name(), streaming: CallKind::ServerStreaming },
        MethodView { name: blob_write_name(), streaming: CallKind::ClientStreaming },
        MethodView { name: blob_delete_name(), streaming: CallKind::Unary },
    ]
}

/// The names of the methods of the blob store service are names that a frame
/// can carry, and no two of them are the same.
pub proof fn lemma_blob_method_names()
    ensures
        table_wf(blob_service_methods()),
        blob_read_name().len() == 21,
        blob_write_name().len() == 22,
        blob_delete_name().len() == 23,
{
    reveal_strlit("/store.BlobStore/Read");
    vstd::string::is_ascii_spec_bytes("/store.BlobStore/Read");
    reveal_strlit("/store.BlobStore/Write");
    vstd::string::is_ascii_spec_bytes("/store.BlobStore/Write");
    reveal_strlit("/store.BlobStore/Delete");
    vstd::string::is_ascii_spec_bytes("/store.BlobStore/Delete");
}

/// What a server of the blob store service implements: one handler for each
/// method.
pub trait BlobStore {
    fn read(
        &self,
        o: ServerHandlerContext,
        req: ServerRequestSingle,
        resp: &mut ServerResponseSink,
    ) -> Result<(), HandlerError>;

    fn write(
        &self,
        o: ServerHandlerContext,
        req: ServerRequest,
        resp: &mut ServerResponseUnarySink,
    ) -> Result<(), HandlerError>;

    fn delete(
        &self,
        o: ServerHandlerContext,
        req: ServerRequestSingle,
        resp: &mut ServerResponseUnarySink,
    ) -> Result<(), HandlerError>;
}

/// The client's side of the blob store service.
pub struct BlobStoreClient;

impl BlobStoreClient {
    /// Opens a call of `Read`, which has one request and a stream of responses, with `req`
    /// as its request, and gives the id of the call. The frame that opens the
    /// call also closes its request direction.
    pub fn read(&self, conn: &mut Connection, req: Vec<u8>) -> (r: Result<u64, MuxError>)
        requires
            old(conn).wf(),
        ensures
            final(conn).wf(),
            final(conn)@ == old(conn)@.after_open_call(
                blob_read_name(),
                CallKind::ServerStreaming,
                req@,
            ),
            match r {
                Ok(id) => old(conn)@.open_call_error(blob_read_name(), req@) is None && id
                    == old(conn)@.registry.next_id,
                Err(e) => old(conn)@.open_call_error(blob_read_name(), req@) == Some(e),
            },
    {
        conn.open_call("/store.BlobStore/Read".as_bytes(), CallKind::ServerStreaming, req)
    }

    /// Opens a call of `Write`, which has a stream of requests and one response,
    /// and gives the id of the call. The requests are sent on the call
    /// afterwards; its request direction stays open until it is closed.
    pub fn write(&self, conn: &mut Connection) -> (r: Result<u64, MuxError>)
        requires
            old(conn).wf(),
        ensures
            final(conn).wf(),
            final(conn)@ == old(conn)@.after_open_call(
                blob_write_name(),
                CallKind::ClientStreaming,
                Seq::<u8>::empty(),
            ),
            match r {
                Ok(id) => old(conn)@.open_call_error(blob_write_name(), Seq::<u8>::empty()) is None && id
                    == old(conn)@.registry.next_id,
                Err(e) => old(conn)@.open_call_error(blob_write_name(), Seq::<u8>::empty()) == Some(e),
            },
    {
        conn.open_call("/store.BlobStore/Write".as_bytes(), CallKind::ClientStreaming, Vec::new())
    }

    /// Opens a call of `Delete`, which has one request and one response, with `req`
    /// as its request, and gives the id of the call. The frame that opens the
    /// call also closes its request direction.
    pub fn delete(&self, conn: &mut Connection, req: Vec<u8>) -> (r: Result<u64, MuxError>)
        requires
            old(conn).wf(),
        ensures
            final(conn).wf(),
            final(conn)@ == old(conn)@.after_open_call(
                blob_delete_name(),
                CallKind::Unary,
                req@,
            ),
            match r {
                Ok(id) => old(conn)@.open_call_error(blob_delete_name(), req@) is None && id
                    == old(conn)@.registry.next_id,
                Err(e) => old(conn)@.open_call_error(blob_delete_name(), req@) == Some(e),
            },
    {
        conn.open_call("/store.BlobStore/Delete".as_bytes(), CallKind::Unary, req)
    }
}

/// The server's side of the blob store service.
pub struct BlobStoreServer;

impl BlobStoreServer {
    /// The prefix of the names of the service's methods.
    pub fn prefix() -> (prefix: Vec<u8>)
        ensures
            prefix@ == blob_service_name(),
    {
        let name = "/store.BlobStore".as_bytes();
        let prefix = copy_range(name, 0, name.len());
        prefix
    }

    /// The methods of the service, in the order of its definition.
    pub fn methods() -> (methods: Vec<MethodDescriptor>)
        ensures
            method_views(methods@) == blob_service_methods(),
    {
        let mut methods: Vec<MethodDescriptor> = Vec::new();
        methods.push(MethodDescriptor::new("/store.BlobStore/Read", CallKind::ServerStreaming));
        methods.push(MethodDescriptor::new("/store.BlobStore/Write", CallKind::ClientStreaming));
        methods.push(MethodDescriptor::new("/store.BlobStore/Delete", CallKind::Unary));
        methods
    }

    /// The definition of the service, with `handler` to serve it.
    pub fn new_service_def<H: BlobStore>(handler: H) -> (def: ServerServiceDefinition<H>)
        ensures
            def.prefix@ == blob_service_name(),
            method_views(def.methods@) == blob_service_methods(),
            def.handler == handler,
    {
        ServerServiceDefinition { prefix: Self::prefix(), methods: Self::methods(), handler }
    }

    /// Runs the handler of the method called `method` on what has arrived for
    /// a call, and gives the handler's reply. A method that is none of the
    /// service's gets no reply, and no handler runs.
    ///
    /// The reply to a method is made from one run of the handler's function
    /// of that name, on the request as it came and an empty sink: it holds
    /// what that run left in the sink and how it came back. So whatever a
    /// handler does, its reply has the shape that the kind of its method asks
    /// for, and ends the call: with the responses it gave, or with its
    /// failure.
    pub fn dispatch<H: BlobStore>(
        def: &ServerServiceDefinition<H>,
        o: ServerHandlerContext,
        method: &[u8],
        request: ServerRequest,
    ) -> (reply: Option<Reply>)
        ensures
            reply is Some <==> (method@ == blob_read_name()
                || method@ == blob_write_name()
                || method@ == blob_delete_name()),
            reply matches Some(r) ==> (method@ == blob_read_name() ==> r@.stream_shaped(true)),
            reply matches Some(r) ==> (method@ == blob_write_name() ==> r@.unary_shaped()),
            reply matches Some(r) ==> (method@ == blob_delete_name() ==> r@.unary_shaped()),
            reply matches Some(r) ==> (method@ == blob_read_name() ==> exists|
                single: ServerRequestSingle,
                sink: &mut ServerResponseSink,
                outcome: Result<(), HandlerError>,
            |
                single.message@ == request.spec_single()
                    && (*sink).messages() == Seq::<Seq<u8>>::empty()
                    && !(*sink).is_closed()
                    && #[trigger] call_ensures(H::read, (&def.handler, o, single, sink), outcome)
                    && r@ == ReplyView::of_stream(
                    (*final(sink)).messages(),
                    (*final(sink)).is_closed(),
                    true,
                    outcome_view(outcome),
                )),
            reply matches Some(r) ==> (method@ == blob_write_name() ==> exists|
                sink: &mut ServerResponseUnarySink,
                outcome: Result<(), HandlerError>,
            |
                (*sink).view() is None
                    && #[trigger] call_ensures(H::write, (&def.handler, o, request, sink), outcome)
                    && r@ == ReplyView::of_unary((*final(sink)).view(), outcome_view(outcome))),
            reply matches Some(r) ==> (method@ == blob_delete_name() ==> exists|
                single: ServerRequestSingle,
                sink: &mut ServerResponseUnarySink,
                outcome: Result<(), HandlerError>,
            |
                single.message@ == request.spec_single()
                    && (*sink).view() is None
                    && #[trigger] call_ensures(H::delete, (&def.handler, o, single, sink), outcome)
                    && r@ == ReplyView::of_unary((*final(sink)).view(), outcome_view(outcome))),
    {
        proof {
            lemma_blob_method_names();
        }
        if bytes_eq(method, "/store.BlobStore/Read".as_bytes()) {
            let mut sink = ServerResponseSink::new();
            let outcome = def.handler.read(o, request.into_single(), &mut sink);
            Some(Reply::from_stream(sink, true, outcome))
        } else if bytes_eq(method, "/store.BlobStore/Write".as_bytes()) {
            let mut sink = ServerResponseUnarySink::new();
            let outcome = def.handler.write(o, request, &mut sink);
            Some(Reply::from_unary(sink, outcome))
        } else if bytes_eq(method, "/store.BlobStore/Delete".as_bytes()) {
            let mut sink = ServerResponseUnarySink::new();
            let outcome = def.handler.delete(o, request.into_single(), &mut sink);
            Some(Reply::from_unary(sink, outcome))
        } else {
            None
        }
    }
}

} // verus!
