use rpcmux::alert_grpc::{Alert, AlertClient, AlertServer};
use rpcmux::broker_grpc::{Broker, BrokerClient, BrokerServer};
use rpcmux::build_grpc::{Build, BuildClient, BuildServer};
use rpcmux::call::{CallKind, Received, SideState};
use rpcmux::connection::{Admission, Connection, Delivery};
use rpcmux::dispatch::MethodDescriptor;
use rpcmux::error::MuxError;
use rpcmux::events_grpc;
use rpcmux::frame::Frame;
use rpcmux::service::{
    HandlerError, Reply, ServerHandlerContext, ServerRequest, ServerRequestSingle,
    ServerResponseSink, ServerResponseUnarySink,
};
use rpcmux::store_grpc;
use rpcmux::transport_grpc::{Transport, TransportClient, TransportServer};

fn shuttle(from: &mut Connection, to: &mut Connection) -> Vec<Result<Delivery, MuxError>> {
    let mut out = Vec::new();
    while let Some(frame) = from.poll_transmit() {
        out.push(to.on_frame(frame));
    }
    out
}

fn only_frame(conn: &mut Connection) -> Frame {
    let frame = conn.poll_transmit().unwrap();
    assert!(conn.poll_transmit().is_none());
    frame
}

fn names(methods: &[MethodDescriptor]) -> Vec<(String, CallKind)> {
    methods
        .iter()
        .map(|m| (String::from_utf8(m.name.clone()).unwrap(), m.streaming))
        .collect()
}

fn ctx() -> ServerHandlerContext {
    ServerHandlerContext { call_id: 1, method: 0 }
}

fn request(messages: &[&[u8]], finished: bool) -> ServerRequest {
    ServerRequest { messages: messages.iter().map(|m| m.to_vec()).collect(), finished }
}

struct Echo;

struct Failing;

struct Silent;

impl Alert for Echo {
    fn report_event(
        &self,
        _o: ServerHandlerContext,
        req: ServerRequestSingle,
        resp: &mut ServerResponseUnarySink,
    ) -> Result<(), HandlerError> {
        resp.finish(req.message);
        Ok(())
    }
}

impl Alert for Failing {
    fn report_event(
        &self,
        _o: ServerHandlerContext,
        _req: ServerRequestSingle,
        resp: &mut ServerResponseUnarySink,
    ) -> Result<(), HandlerError> {
        resp.finish(b"ignored".to_vec());
        Err(HandlerError { detail: b"no".to_vec() })
    }
}

impl Alert for Silent {
    fn report_event(
        &self,
        _o: ServerHandlerContext,
        _req: ServerRequestSingle,
        _resp: &mut ServerResponseUnarySink,
    ) -> Result<(), HandlerError> {
        Ok(())
    }
}

impl Broker for Echo {
    fn publish(
        &self,
        _o: ServerHandlerContext,
        _req: ServerRequestSingle,
        resp: &mut ServerResponseUnarySink,
    ) -> Result<(), HandlerError> {
        resp.finish(Vec::new());
        Ok(())
    }

    fn subscribe(
        &self,
        _o: ServerHandlerContext,
        req: ServerRequestSingle,
        resp: &mut ServerResponseSink,
    ) -> Result<(), HandlerError> {
        for i in 0..3u8 {
            let mut m = req.message.clone();
            m.push(b'0' + i);
            assert!(resp.send(m));
        }
        Ok(())
    }
}

impl Broker for Failing {
    fn publish(
        &self,
        _o: ServerHandlerContext,
        _req: ServerRequestSingle,
        _resp: &mut ServerResponseUnarySink,
    ) -> Result<(), HandlerError> {
        Err(HandlerError { detail: Vec::new() })
    }

    fn subscribe(
        &self,
        _o: ServerHandlerContext,
        _req: ServerRequestSingle,
        resp: &mut ServerResponseSink,
    ) -> Result<(), HandlerError> {
        resp.send(b"one".to_vec());
        Err(HandlerError { detail: b"broke".to_vec() })
    }
}

impl Build for Echo {
    fn build(
        &self,
        _o: ServerHandlerContext,
        req: ServerRequest,
        resp: &mut ServerResponseSink,
    ) -> Result<(), HandlerError> {
        for m in req.messages {
            resp.send(m.to_ascii_uppercase());
        }
        if req.finished {
            resp.close();
        }
        Ok(())
    }
}

impl Transport for Echo {
    fn stream(
        &self,
        _o: ServerHandlerContext,
        req: ServerRequest,
        resp: &mut ServerResponseSink,
    ) -> Result<(), HandlerError> {
        for m in req.messages {
            resp.send(m);
        }
        Ok(())
    }
}

impl events_grpc::Stream for Echo {
    fn publish(
        &self,
        _o: ServerHandlerContext,
        req: ServerRequestSingle,
        resp: &mut ServerResponseUnarySink,
    ) -> Result<(), HandlerError> {
        resp.finish(req.message);
        Ok(())
    }

    fn consume(
        &self,
        _o: ServerHandlerContext,
        req: ServerRequestSingle,
        resp: &mut ServerResponseSink,
    ) -> Result<(), HandlerError> {
        resp.send(req.message);
        resp.close();
        assert!(!resp.send(b"after close".to_vec()));
        Ok(())
    }
}

impl events_grpc::Store for Echo {
    fn read(
        &self,
        _o: ServerHandlerContext,
        _req: ServerRequestSingle,
        resp: &mut ServerResponseUnarySink,
    ) -> Result<(), HandlerError> {
        resp.finish(b"read".to_vec());
        Ok(())
    }

    fn write(
        &self,
        _o: ServerHandlerContext,
        _req: ServerRequestSingle,
        resp: &mut ServerResponseUnarySink,
    ) -> Result<(), HandlerError> {
        resp.finish(b"written".to_vec());
        Ok(())
    }
}

impl store_grpc::Store for Echo {
    fn read(
        &self,
        _o: ServerHandlerContext,
        _req: ServerRequestSingle,
        resp: &mut ServerResponseUnarySink,
    ) -> Result<(), HandlerError> {
        resp.finish(b"read".to_vec());
        Ok(())
    }

    fn write(
        &self,
        _o: ServerHandlerContext,
        _req: ServerRequestSingle,
        resp: &mut ServerResponseUnarySink,
    ) -> Result<(), HandlerError> {
        resp.finish(b"write".to_vec());
        Ok(())
    }

    fn delete(
        &self,
        _o: ServerHandlerContext,
        _req: ServerRequestSingle,
        resp: &mut ServerResponseUnarySink,
    ) -> Result<(), HandlerError> {
        resp.finish(b"delete".to_vec());
        Ok(())
    }

    fn list(
        &self,
        _o: ServerHandlerContext,
        _req: ServerRequestSingle,
        resp: &mut ServerResponseSink,
    ) -> Result<(), HandlerError> {
        resp.send(b"k1".to_vec());
        resp.send(b"k2".to_vec());
        Ok(())
    }

    fn databases(
        &self,
        _o: ServerHandlerContext,
        _req: ServerRequestSingle,
        resp: &mut ServerResponseUnarySink,
    ) -> Result<(), HandlerError> {
        resp.finish(b"databases".to_vec());
        Ok(())
    }

    fn tables(
        &self,
        _o: ServerHandlerContext,
        _req: ServerRequestSingle,
        resp: &mut ServerResponseUnarySink,
    ) -> Result<(), HandlerError> {
        resp.finish(b"tables".to_vec());
        Ok(())
    }
}

impl store_grpc::BlobStore for Echo {
    fn read(
        &self,
        _o: ServerHandlerContext,
        req: ServerRequestSingle,
        resp: &mut ServerResponseSink,
    ) -> Result<(), HandlerError> {
        for chunk in req.message.chunks(2) {
            resp.send(chunk.to_vec());
        }
        Ok(())
    }

    fn write(
        &self,
        _o: ServerHandlerContext,
        req: ServerRequest,
        resp: &mut ServerResponseUnarySink,
    ) -> Result<(), HandlerError> {
        resp.finish(req.messages.concat());
        Ok(())
    }

    fn delete(
        &self,
        _o: ServerHandlerContext,
        _req: ServerRequestSingle,
        resp: &mut ServerResponseUnarySink,
    ) -> Result<(), HandlerError> {
        resp.finish(b"deleted".to_vec());
        Ok(())
    }
}

#[test]
fn alert_client_opens_a_unary_call() {
    let mut conn = Connection::new(true, 4, 2);
    assert_eq!(AlertClient.report_event(&mut conn, b"event".to_vec()), Ok(1));
    assert_eq!(
        only_frame(&mut conn),
        Frame::open(1, b"/alert.Alert/ReportEvent".to_vec(), b"event".to_vec(), true)
    );
    assert_eq!(conn.lookup(1).unwrap().kind, CallKind::Unary);
    assert_eq!(conn.lookup(1).unwrap().request, SideState::HalfClosed);
}

#[test]
fn broker_client_opens_publish_and_subscribe() {
    let mut conn = Connection::new(true, 4, 2);
    assert_eq!(BrokerClient.publish(&mut conn, b"m".to_vec()), Ok(1));
    assert_eq!(BrokerClient.subscribe(&mut conn, b"topic".to_vec()), Ok(3));
    assert_eq!(
        conn.poll_transmit().unwrap(),
        Frame::open(1, b"/broker.Broker/Publish".to_vec(), b"m".to_vec(), true)
    );
    assert_eq!(
        only_frame(&mut conn),
        Frame::open(3, b"/broker.Broker/Subscribe".to_vec(), b"topic".to_vec(), true)
    );
    assert_eq!(conn.lookup(1).unwrap().kind, CallKind::Unary);
    assert_eq!(conn.lookup(3).unwrap().kind, CallKind::ServerStreaming);
}

#[test]
fn build_and_transport_clients_open_bidi_calls() {
    let mut conn = Connection::new(true, 4, 2);
    assert_eq!(BuildClient.build(&mut conn), Ok(1));
    assert_eq!(TransportClient.stream(&mut conn), Ok(3));
    assert_eq!(
        conn.poll_transmit().unwrap(),
        Frame::open(1, b"/build.Build/Build".to_vec(), Vec::new(), false)
    );
    assert_eq!(
        only_frame(&mut conn),
        Frame::open(3, b"/transport.Transport/Stream".to_vec(), Vec::new(), false)
    );
    assert_eq!(conn.lookup(1).unwrap().kind, CallKind::Bidi);
    assert_eq!(conn.lookup(3).unwrap().request, SideState::Open);
    assert_eq!(conn.send(3, b"x".to_vec()), Ok(Admission::Queued));
}

#[test]
fn events_clients_open_their_methods() {
    let mut conn = Connection::new(true, 4, 2);
    assert_eq!(events_grpc::StreamClient.publish(&mut conn, b"1".to_vec()), Ok(1));
    assert_eq!(events_grpc::StreamClient.consume(&mut conn, b"2".to_vec()), Ok(3));
    assert_eq!(events_grpc::StoreClient.read(&mut conn, b"3".to_vec()), Ok(5));
    assert_eq!(events_grpc::StoreClient.write(&mut conn, b"4".to_vec()), Ok(7));
    let expected = vec![
        Frame::open(1, b"/events.Stream/Publish".to_vec(), b"1".to_vec(), true),
        Frame::open(3, b"/events.Stream/Consume".to_vec(), b"2".to_vec(), true),
        Frame::open(5, b"/events.Store/Read".to_vec(), b"3".to_vec(), true),
        Frame::open(7, b"/events.Store/Write".to_vec(), b"4".to_vec(), true),
    ];
    for frame in expected {
        assert_eq!(conn.poll_transmit(), Some(frame));
    }
    assert_eq!(conn.lookup(3).unwrap().kind, CallKind::ServerStreaming);
    assert_eq!(conn.lookup(5).unwrap().kind, CallKind::Unary);
}

#[test]
fn store_client_opens_its_six_methods() {
    let mut conn = Connection::new(true, 4, 2);
    let client = store_grpc::StoreClient;
    assert_eq!(client.read(&mut conn, b"r".to_vec()), Ok(1));
    assert_eq!(client.write(&mut conn, b"w".to_vec()), Ok(3));
    assert_eq!(client.delete(&mut conn, b"d".to_vec()), Ok(5));
    assert_eq!(client.list(&mut conn, b"l".to_vec()), Ok(7));
    assert_eq!(client.databases(&mut conn, b"b".to_vec()), Ok(9));
    assert_eq!(client.tables(&mut conn, b"t".to_vec()), Ok(11));
    let expected: Vec<(&[u8], &[u8])> = vec![
        (b"/store.Store/Read", b"r"),
        (b"/store.Store/Write", b"w"),
        (b"/store.Store/Delete", b"d"),
        (b"/store.Store/List", b"l"),
        (b"/store.Store/Databases", b"b"),
        (b"/store.Store/Tables", b"t"),
    ];
    let mut id = 1;
    for (name, payload) in expected {
        assert_eq!(
            conn.poll_transmit(),
            Some(Frame::open(id, name.to_vec(), payload.to_vec(), true))
        );
        id += 2;
    }
    assert_eq!(conn.lookup(7).unwrap().kind, CallKind::ServerStreaming);
    assert_eq!(conn.lookup(9).unwrap().kind, CallKind::Unary);
}

#[test]
fn blob_store_client_opens_its_three_methods() {
    let mut conn = Connection::new(true, 4, 2);
    let client = store_grpc::BlobStoreClient;
    assert_eq!(client.read(&mut conn, b"key".to_vec()), Ok(1));
    assert_eq!(client.write(&mut conn), Ok(3));
    assert_eq!(client.delete(&mut conn, b"key".to_vec()), Ok(5));
    assert_eq!(
        conn.poll_transmit(),
        Some(Frame::open(1, b"/store.BlobStore/Read".to_vec(), b"key".to_vec(), true))
    );
    assert_eq!(
        conn.poll_transmit(),
        Some(Frame::open(3, b"/store.BlobStore/Write".to_vec(), Vec::new(), false))
    );
    assert_eq!(
        conn.poll_transmit(),
        Some(Frame::open(5, b"/store.BlobStore/Delete".to_vec(), b"key".to_vec(), true))
    );
    assert_eq!(conn.lookup(1).unwrap().kind, CallKind::ServerStreaming);
    assert_eq!(conn.lookup(3).unwrap().kind, CallKind::ClientStreaming);
    assert_eq!(conn.lookup(3).unwrap().request, SideState::Open);
    assert_eq!(conn.lookup(5).unwrap().kind, CallKind::Unary);
}

#[test]
fn a_client_stub_fails_as_the_connection_does() {
    let mut conn = Connection::new(true, 4, 2);
    conn.close();
    assert_eq!(AlertClient.report_event(&mut conn, Vec::new()), Err(MuxError::ConnectionClosed));
    assert_eq!(BuildClient.build(&mut conn), Err(MuxError::ConnectionClosed));
    assert_eq!(conn.call_count(), 0);
}

#[test]
fn service_definitions_list_their_methods_in_order() {
    let alert = AlertServer::new_service_def(Echo);
    assert_eq!(alert.prefix, b"/alert.Alert".to_vec());
    assert_eq!(names(&alert.methods), vec![("/alert.Alert/ReportEvent".to_string(), CallKind::Unary)]);
    let broker = BrokerServer::new_service_def(Echo);
    assert_eq!(broker.prefix, b"/broker.Broker".to_vec());
    assert_eq!(
        names(&broker.methods),
        vec![
            ("/broker.Broker/Publish".to_string(), CallKind::Unary),
            ("/broker.Broker/Subscribe".to_string(), CallKind::ServerStreaming),
        ]
    );
    let build = BuildServer::new_service_def(Echo);
    assert_eq!(build.prefix, b"/build.Build".to_vec());
    assert_eq!(names(&build.methods), vec![("/build.Build/Build".to_string(), CallKind::Bidi)]);
    let transport = TransportServer::new_service_def(Echo);
    assert_eq!(transport.prefix, b"/transport.Transport".to_vec());
    assert_eq!(
        names(&transport.methods),
        vec![("/transport.Transport/Stream".to_string(), CallKind::Bidi)]
    );
}

#[test]
fn events_definitions_list_their_methods_in_order() {
    let stream = events_grpc::StreamServer::new_service_def(Echo);
    assert_eq!(stream.prefix, b"/events.Stream".to_vec());
    assert_eq!(
        names(&stream.methods),
        vec![
            ("/events.Stream/Publish".to_string(), CallKind::Unary),
            ("/events.Stream/Consume".to_string(), CallKind::ServerStreaming),
        ]
    );
    let store = events_grpc::StoreServer::new_service_def(Echo);
    assert_eq!(store.prefix, b"/events.Store".to_vec());
    assert_eq!(
        names(&store.methods),
        vec![
            ("/events.Store/Read".to_string(), CallKind::Unary),
            ("/events.Store/Write".to_string(), CallKind::Unary),
        ]
    );
}

#[test]
fn store_definitions_list_their_methods_in_order() {
    let store = store_grpc::StoreServer::new_service_def(Echo);
    assert_eq!(store.prefix, b"/store.Store".to_vec());
    assert_eq!(
        names(&store.methods),
        vec![
            ("/store.Store/Read".to_string(), CallKind::Unary),
            ("/store.Store/Write".to_string(), CallKind::Unary),
            ("/store.Store/Delete".to_string(), CallKind::Unary),
            ("/store.Store/List".to_string(), CallKind::ServerStreaming),
            ("/store.Store/Databases".to_string(), CallKind::Unary),
            ("/store.Store/Tables".to_string(), CallKind::Unary),
        ]
    );
    let blob = store_grpc::BlobStoreServer::new_service_def(Echo);
    assert_eq!(blob.prefix, b"/store.BlobStore".to_vec());
    assert_eq!(
        names(&blob.methods),
        vec![
            ("/store.BlobStore/Read".to_string(), CallKind::ServerStreaming),
            ("/store.BlobStore/Write".to_string(), CallKind::ClientStreaming),
            ("/store.BlobStore/Delete".to_string(), CallKind::Unary),
        ]
    );
    assert_eq!(blob.find_method(b"/store.BlobStore/Write"), Some(1));
    assert_eq!(blob.find_method(b"/store.Store/Write"), None);
}

#[test]
fn a_unary_handler_replies_with_its_one_response() {
    let def = AlertServer::new_service_def(Echo);
    let reply = AlertServer::dispatch(&def, ctx(), b"/alert.Alert/ReportEvent", request(&[b"ev"], true));
    assert_eq!(
        reply,
        Some(Reply { messages: vec![b"ev".to_vec()], finished: true, failure: None })
    );
}

#[test]
fn a_method_of_another_service_gets_no_reply() {
    let def = AlertServer::new_service_def(Echo);
    assert_eq!(AlertServer::dispatch(&def, ctx(), b"/alert.Alert/Other", request(&[], true)), None);
    assert_eq!(AlertServer::dispatch(&def, ctx(), b"", request(&[], true)), None);
    let broker = BrokerServer::new_service_def(Echo);
    assert_eq!(
        BrokerServer::dispatch(&broker, ctx(), b"/alert.Alert/ReportEvent", request(&[], true)),
        None
    );
}

#[test]
fn a_failing_unary_handler_replies_with_its_failure() {
    let def = AlertServer::new_service_def(Failing);
    let reply = AlertServer::dispatch(&def, ctx(), b"/alert.Alert/ReportEvent", request(&[b"ev"], true));
    assert_eq!(
        reply,
        Some(Reply { messages: Vec::new(), finished: false, failure: Some(b"no".to_vec()) })
    );
}

#[test]
fn a_unary_handler_that_gives_no_response_has_failed() {
    let def = AlertServer::new_service_def(Silent);
    let reply = AlertServer::dispatch(&def, ctx(), b"/alert.Alert/ReportEvent", request(&[b"ev"], true));
    assert_eq!(
        reply,
        Some(Reply { messages: Vec::new(), finished: false, failure: Some(Vec::new()) })
    );
}

#[test]
fn a_server_streaming_handler_replies_with_its_stream() {
    let def = BrokerServer::new_service_def(Echo);
    let reply = BrokerServer::dispatch(&def, ctx(), b"/broker.Broker/Subscribe", request(&[b"t"], true));
    assert_eq!(
        reply,
        Some(Reply {
            messages: vec![b"t0".to_vec(), b"t1".to_vec(), b"t2".to_vec()],
            finished: true,
            failure: None,
        })
    );
    let empty = BrokerServer::dispatch(&def, ctx(), b"/broker.Broker/Publish", request(&[b"m"], true));
    assert_eq!(empty, Some(Reply { messages: vec![Vec::new()], finished: true, failure: None }));
}

#[test]
fn a_stream_that_fails_midway_keeps_what_it_produced() {
    let def = BrokerServer::new_service_def(Failing);
    let reply = BrokerServer::dispatch(&def, ctx(), b"/broker.Broker/Subscribe", request(&[b"t"], true));
    assert_eq!(
        reply,
        Some(Reply {
            messages: vec![b"one".to_vec()],
            finished: false,
            failure: Some(b"broke".to_vec()),
        })
    );
    let publish = BrokerServer::dispatch(&def, ctx(), b"/broker.Broker/Publish", request(&[], true));
    assert_eq!(
        publish,
        Some(Reply { messages: Vec::new(), finished: false, failure: Some(Vec::new()) })
    );
}

#[test]
fn a_bidi_handler_runs_on_what_has_arrived() {
    let def = BuildServer::new_service_def(Echo);
    let first = BuildServer::dispatch(&def, ctx(), b"/build.Build/Build", request(&[b"a", b"b"], false));
    assert_eq!(
        first,
        Some(Reply { messages: vec![b"A".to_vec(), b"B".to_vec()], finished: false, failure: None })
    );
    let last = BuildServer::dispatch(&def, ctx(), b"/build.Build/Build", request(&[], true));
    assert_eq!(last, Some(Reply { messages: Vec::new(), finished: true, failure: None }));
}

#[test]
fn a_bidi_handler_that_does_not_close_is_closed_at_the_end() {
    let def = TransportServer::new_service_def(Echo);
    let open = TransportServer::dispatch(&def, ctx(), b"/transport.Transport/Stream", request(&[b"m"], false));
    assert_eq!(open, Some(Reply { messages: vec![b"m".to_vec()], finished: false, failure: None }));
    let end = TransportServer::dispatch(&def, ctx(), b"/transport.Transport/Stream", request(&[b"n"], true));
    assert_eq!(end, Some(Reply { messages: vec![b"n".to_vec()], finished: true, failure: None }));
}

#[test]
fn events_services_dispatch_by_name() {
    let stream = events_grpc::StreamServer::new_service_def(Echo);
    assert_eq!(
        events_grpc::StreamServer::dispatch(&stream, ctx(), b"/events.Stream/Publish", request(&[b"e"], true)),
        Some(Reply { messages: vec![b"e".to_vec()], finished: true, failure: None })
    );
    assert_eq!(
        events_grpc::StreamServer::dispatch(&stream, ctx(), b"/events.Stream/Consume", request(&[b"c"], true)),
        Some(Reply { messages: vec![b"c".to_vec()], finished: true, failure: None })
    );
    assert_eq!(
        events_grpc::StreamServer::dispatch(&stream, ctx(), b"/events.Store/Read", request(&[], true)),
        None
    );
    let store = events_grpc::StoreServer::new_service_def(Echo);
    assert_eq!(
        events_grpc::StoreServer::dispatch(&store, ctx(), b"/events.Store/Read", request(&[], true)),
        Some(Reply { messages: vec![b"read".to_vec()], finished: true, failure: None })
    );
    assert_eq!(
        events_grpc::StoreServer::dispatch(&store, ctx(), b"/events.Store/Write", request(&[], true)),
        Some(Reply { messages: vec![b"written".to_vec()], finished: true, failure: None })
    );
}

#[test]
fn store_service_dispatches_each_method_to_its_handler() {
    let def = store_grpc::StoreServer::new_service_def(Echo);
    for (name, answer) in [
        ("/store.Store/Read", "read"),
        ("/store.Store/Write", "write"),
        ("/store.Store/Delete", "delete"),
        ("/store.Store/Databases", "databases"),
        ("/store.Store/Tables", "tables"),
    ] {
        assert_eq!(
            store_grpc::StoreServer::dispatch(&def, ctx(), name.as_bytes(), request(&[b"q"], true)),
            Some(Reply { messages: vec![answer.as_bytes().to_vec()], finished: true, failure: None })
        );
    }
    assert_eq!(
        store_grpc::StoreServer::dispatch(&def, ctx(), b"/store.Store/List", request(&[b"q"], true)),
        Some(Reply { messages: vec![b"k1".to_vec(), b"k2".to_vec()], finished: true, failure: None })
    );
    assert_eq!(
        store_grpc::StoreServer::dispatch(&def, ctx(), b"/store.BlobStore/Read", request(&[], true)),
        None
    );
}

#[test]
fn blob_store_reads_and_writes_streams() {
    let def = store_grpc::BlobStoreServer::new_service_def(Echo);
    assert_eq!(
        store_grpc::BlobStoreServer::dispatch(&def, ctx(), b"/store.BlobStore/Read", request(&[b"abcde"], true)),
        Some(Reply {
            messages: vec![b"ab".to_vec(), b"cd".to_vec(), b"e".to_vec()],
            finished: true,
            failure: None,
        })
    );
    assert_eq!(
        store_grpc::BlobStoreServer::dispatch(&def, ctx(), b"/store.BlobStore/Write", request(&[b"ab", b"cd"], true)),
        Some(Reply { messages: vec![b"abcd".to_vec()], finished: true, failure: None })
    );
    assert_eq!(
        store_grpc::BlobStoreServer::dispatch(&def, ctx(), b"/store.BlobStore/Delete", request(&[b"k"], true)),
        Some(Reply { messages: vec![b"deleted".to_vec()], finished: true, failure: None })
    );
}

#[test]
fn a_service_is_registered_method_by_method() {
    let mut server = Connection::new(false, 4, 2);
    let store = store_grpc::StoreServer::new_service_def(Echo);
    let blob = store_grpc::BlobStoreServer::new_service_def(Echo);
    assert_eq!(server.add_service(&store.methods), 6);
    assert_eq!(server.add_service(&blob.methods), 3);
    assert_eq!(server.add_service(&store.methods), 0);
    let open = Frame::open(1, b"/store.BlobStore/Write".to_vec(), Vec::new(), false);
    assert_eq!(server.on_frame(open), Ok(Delivery::Opened(7)));
    assert_eq!(server.lookup(1).unwrap().kind, CallKind::ClientStreaming);
}

#[test]
fn a_unary_call_is_served_end_to_end() {
    let mut client = Connection::new(true, 4, 2);
    let mut server = Connection::new(false, 4, 2);
    let def = AlertServer::new_service_def(Echo);
    assert_eq!(server.add_service(&def.methods), 1);
    let id = AlertClient.report_event(&mut client, b"fire".to_vec()).unwrap();
    assert_eq!(shuttle(&mut client, &mut server), vec![Ok(Delivery::Opened(0))]);
    let (o, req) = server.take_request(id).unwrap().unwrap();
    assert_eq!(o, ServerHandlerContext { call_id: id, method: 0 });
    let reply = AlertServer::dispatch(&def, o, &def.methods[o.method].name, req).unwrap();
    assert_eq!(server.respond(id, reply), Ok(Admission::Queued));
    assert!(!server.has_call(id));
    let frame = only_frame(&mut server);
    assert_eq!(frame, Frame::last_data(id, b"fire".to_vec()));
    assert_eq!(client.on_frame(frame), Ok(Delivery::Applied));
    assert_eq!(client.poll_unary(id), Ok(Some(b"fire".to_vec())));
}

#[test]
fn a_failing_handler_fails_the_call_at_the_client() {
    let mut client = Connection::new(true, 4, 2);
    let mut server = Connection::new(false, 4, 2);
    let def = BrokerServer::new_service_def(Failing);
    server.add_service(&def.methods);
    let id = BrokerClient.subscribe(&mut client, b"t".to_vec()).unwrap();
    assert_eq!(shuttle(&mut client, &mut server), vec![Ok(Delivery::Opened(1))]);
    let (o, req) = server.take_request(id).unwrap().unwrap();
    let reply = BrokerServer::dispatch(&def, o, &def.methods[o.method].name, req).unwrap();
    assert_eq!(server.respond(id, reply), Ok(Admission::Queued));
    assert!(!server.has_call(id));
    assert_eq!(
        server.poll_transmit(),
        Some(Frame::data(id, b"one".to_vec()))
    );
    let failure = only_frame(&mut server);
    assert_eq!(failure, Frame::error(id, MuxError::HandlerFailed, b"broke"));
    assert_eq!(client.on_frame(Frame::data(id, b"one".to_vec())), Ok(Delivery::Applied));
    assert_eq!(client.on_frame(failure), Ok(Delivery::Applied));
    assert_eq!(client.recv(id), Err(MuxError::HandlerFailed));
}

#[test]
fn a_server_stream_is_read_to_its_end() {
    let mut client = Connection::new(true, 4, 2);
    let mut server = Connection::new(false, 4, 2);
    let def = store_grpc::StoreServer::new_service_def(Echo);
    server.add_service(&def.methods);
    let id = store_grpc::StoreClient.list(&mut client, b"all".to_vec()).unwrap();
    assert_eq!(shuttle(&mut client, &mut server), vec![Ok(Delivery::Opened(3))]);
    let (o, req) = server.take_request(id).unwrap().unwrap();
    let reply = store_grpc::StoreServer::dispatch(&def, o, &def.methods[o.method].name, req).unwrap();
    assert_eq!(server.respond(id, reply), Ok(Admission::Queued));
    assert_eq!(shuttle(&mut server, &mut client), vec![Ok(Delivery::Applied), Ok(Delivery::Applied)]);
    assert_eq!(client.recv(id), Ok(Received::Data(b"k1".to_vec())));
    assert_eq!(client.recv(id), Ok(Received::Data(b"k2".to_vec())));
    assert_eq!(client.recv(id), Ok(Received::EndOfStream));
    assert!(!client.has_call(id));
}

#[test]
fn a_client_stream_is_handed_over_when_it_has_ended() {
    let mut client = Connection::new(true, 4, 2);
    let mut server = Connection::new(false, 4, 2);
    let def = store_grpc::BlobStoreServer::new_service_def(Echo);
    server.add_service(&def.methods);
    let id = store_grpc::BlobStoreClient.write(&mut client).unwrap();
    client.send(id, b"ab".to_vec()).unwrap();
    shuttle(&mut client, &mut server);
    assert_eq!(server.take_request(id), Ok(None));
    assert_eq!(server.lookup(id).unwrap().inbox, vec![b"ab".to_vec()]);
    client.send(id, b"cd".to_vec()).unwrap();
    client.close_send(id).unwrap();
    shuttle(&mut client, &mut server);
    let (o, req) = server.take_request(id).unwrap().unwrap();
    assert_eq!(req, request(&[b"ab", b"cd"], true));
    assert!(server.lookup(id).unwrap().inbox.is_empty());
    let reply = store_grpc::BlobStoreServer::dispatch(&def, o, &def.methods[o.method].name, req).unwrap();
    server.respond(id, reply).unwrap();
    shuttle(&mut server, &mut client);
    assert_eq!(client.poll_unary(id), Ok(Some(b"abcd".to_vec())));
}

#[test]
fn a_request_is_not_handed_out_for_calls_that_have_none() {
    let mut server = Connection::new(false, 4, 2);
    server.register(b"echo", CallKind::Unary).unwrap();
    let own = server.open_call(b"push", CallKind::Bidi, Vec::new()).unwrap();
    assert_eq!(server.take_request(own), Err(MuxError::UnknownCall));
    assert!(server.has_call(own));
    server.on_frame(Frame::open(1, b"echo".to_vec(), b"x".to_vec(), false)).unwrap();
    assert_eq!(server.take_request(1), Ok(None));
    server.on_frame(Frame::cancel(1)).unwrap();
    assert_eq!(server.take_request(1), Err(MuxError::Cancelled));
    assert!(!server.has_call(1));
    server.on_frame(Frame::open(3, b"echo".to_vec(), b"x".to_vec(), true)).unwrap();
    server.expire(3).unwrap();
    assert_eq!(server.take_request(3), Err(MuxError::Timeout));
    assert!(!server.has_call(3));
}

#[test]
fn a_reply_is_queued_whole_or_not_at_all() {
    let mut server = Connection::new(false, 2, 2);
    server.register(b"list", CallKind::ServerStreaming).unwrap();
    server.on_frame(Frame::open(1, b"list".to_vec(), b"q".to_vec(), true)).unwrap();
    let three = Reply {
        messages: vec![b"1".to_vec(), b"2".to_vec(), b"3".to_vec()],
        finished: true,
        failure: None,
    };
    assert_eq!(server.respond(1, three), Err(MuxError::ReplyTooLong));
    assert_eq!(server.pending_frames(), 0);
    assert!(server.lookup(1).unwrap().is_live());
    let two = Reply { messages: vec![b"1".to_vec(), b"2".to_vec()], finished: false, failure: None };
    assert_eq!(server.respond(1, two), Ok(Admission::Queued));
    let one = Reply { messages: vec![b"3".to_vec()], finished: true, failure: None };
    assert_eq!(server.respond(1, one.clone()), Ok(Admission::Full));
    assert_eq!(server.poll_transmit(), Some(Frame::data(1, b"1".to_vec())));
    assert_eq!(server.respond(1, one), Ok(Admission::Queued));
    assert_eq!(server.poll_transmit(), Some(Frame::data(1, b"2".to_vec())));
    assert_eq!(server.poll_transmit(), Some(Frame::last_data(1, b"3".to_vec())));
    assert!(!server.has_call(1));
}

#[test]
fn a_reply_without_responses_ends_the_call_with_a_half_close() {
    let mut server = Connection::new(false, 2, 2);
    server.register(b"list", CallKind::ServerStreaming).unwrap();
    server.on_frame(Frame::open(1, b"list".to_vec(), b"q".to_vec(), true)).unwrap();
    let none = Reply { messages: Vec::new(), finished: true, failure: None };
    assert_eq!(server.respond(1, none), Ok(Admission::Queued));
    assert_eq!(only_frame(&mut server), Frame::half_close(1));
    assert!(!server.has_call(1));
}

#[test]
fn a_reply_is_refused_on_calls_that_cannot_take_it() {
    let mut server = Connection::new(false, 4, 2);
    server.register(b"Stream", CallKind::Bidi).unwrap();
    let reply = Reply { messages: vec![b"r".to_vec()], finished: false, failure: None };
    assert_eq!(server.respond(1, reply.clone()), Err(MuxError::UnknownCall));
    let own = server.open_call(b"push", CallKind::Bidi, Vec::new()).unwrap();
    assert_eq!(server.respond(own, reply.clone()), Err(MuxError::UnknownCall));
    server.on_frame(Frame::open(1, b"Stream".to_vec(), Vec::new(), false)).unwrap();
    server.close_send(1).unwrap();
    assert_eq!(server.respond(1, reply.clone()), Err(MuxError::SendClosed));
    server.on_frame(Frame::open(3, b"Stream".to_vec(), Vec::new(), false)).unwrap();
    server.on_frame(Frame::cancel(3)).unwrap();
    assert_eq!(server.respond(3, reply.clone()), Err(MuxError::Cancelled));
    server.close();
    assert_eq!(server.respond(1, reply), Err(MuxError::ConnectionClosed));
}

#[test]
fn a_unary_response_is_not_handed_out_before_the_peer_has_finished() {
    let mut client = Connection::new(true, 4, 2);
    let id = client.open_call(b"echo", CallKind::Unary, Vec::new()).unwrap();
    assert_eq!(client.poll_unary(id), Ok(None));
    client.on_frame(Frame::data(id, b"part".to_vec())).unwrap();
    assert_eq!(client.poll_unary(id), Ok(None));
    assert!(client.has_call(id));
    client.on_frame(Frame::half_close(id)).unwrap();
    assert_eq!(client.poll_unary(id), Ok(Some(b"part".to_vec())));
    assert_eq!(client.poll_unary(id), Err(MuxError::UnknownCall));
    let gone = client.open_call(b"echo", CallKind::Unary, Vec::new()).unwrap();
    client.cancel(gone).unwrap();
    assert_eq!(client.poll_unary(gone), Err(MuxError::Cancelled));
    assert!(!client.has_call(gone));
}

#[test]
fn a_reply_that_no_wait_can_make_room_for_is_refused() {
    let mut server = Connection::new(false, 2, 2);
    server.register(b"list", CallKind::ServerStreaming).unwrap();
    server.on_frame(Frame::open(1, b"list".to_vec(), b"q".to_vec(), true)).unwrap();
    assert_eq!(server.queued(1), 0);
    let three = Reply {
        messages: vec![b"1".to_vec(), b"2".to_vec(), b"3".to_vec()],
        finished: false,
        failure: None,
    };
    assert_eq!(server.respond(1, three), Err(MuxError::ReplyTooLong));
    let two = Reply { messages: vec![b"1".to_vec(), b"2".to_vec()], finished: false, failure: None };
    assert_eq!(server.respond(1, two.clone()), Ok(Admission::Queued));
    assert_eq!(server.respond(1, two.clone()), Ok(Admission::Full));
    server.poll_transmit().unwrap();
    assert_eq!(server.respond(1, two.clone()), Ok(Admission::Full));
    server.poll_transmit().unwrap();
    assert_eq!(server.respond(1, two), Ok(Admission::Queued));
}

#[test]
fn a_call_with_one_response_takes_no_other_reply() {
    let mut server = Connection::new(false, 8, 2);
    server.register(b"echo", CallKind::Unary).unwrap();
    server.register(b"upload", CallKind::ClientStreaming).unwrap();
    server.on_frame(Frame::open(1, b"echo".to_vec(), b"x".to_vec(), true)).unwrap();
    server.on_frame(Frame::open(3, b"upload".to_vec(), b"x".to_vec(), true)).unwrap();
    let several = Reply { messages: vec![b"a".to_vec(), b"b".to_vec()], finished: true, failure: None };
    let unfinished = Reply { messages: vec![b"a".to_vec()], finished: false, failure: None };
    let nothing = Reply { messages: Vec::new(), finished: true, failure: None };
    let both = Reply { messages: vec![b"a".to_vec()], finished: false, failure: Some(b"no".to_vec()) };
    let ended_failure = Reply { messages: Vec::new(), finished: true, failure: Some(Vec::new()) };
    for id in [1u64, 3] {
        for reply in [&several, &unfinished, &nothing, &both, &ended_failure] {
            assert_eq!(server.respond(id, reply.clone()), Err(MuxError::ReplyShape));
            assert!(server.lookup(id).unwrap().is_live());
        }
    }
    assert_eq!(server.pending_frames(), 0);
    let one = Reply { messages: vec![b"a".to_vec()], finished: true, failure: None };
    assert_eq!(server.respond(1, one), Ok(Admission::Queued));
    assert_eq!(only_frame(&mut server), Frame::last_data(1, b"a".to_vec()));
    let failure = Reply { messages: Vec::new(), finished: false, failure: Some(b"no".to_vec()) };
    assert_eq!(server.respond(3, failure), Ok(Admission::Queued));
    assert_eq!(only_frame(&mut server), Frame::error(3, MuxError::HandlerFailed, b"no"));
    assert_eq!(server.call_count(), 0);
}

#[test]
fn a_call_whose_responses_stream_takes_any_number_of_them() {
    let mut server = Connection::new(false, 8, 2);
    server.register(b"list", CallKind::ServerStreaming).unwrap();
    server.register(b"Stream", CallKind::Bidi).unwrap();
    server.on_frame(Frame::open(1, b"list".to_vec(), b"q".to_vec(), true)).unwrap();
    server.on_frame(Frame::open(3, b"Stream".to_vec(), Vec::new(), false)).unwrap();
    let several = Reply { messages: vec![b"a".to_vec(), b"b".to_vec()], finished: false, failure: None };
    let nothing = Reply { messages: Vec::new(), finished: false, failure: None };
    for id in [1u64, 3] {
        assert_eq!(server.respond(id, nothing.clone()), Ok(Admission::Queued));
        assert_eq!(server.respond(id, several.clone()), Ok(Admission::Queued));
    }
    assert_eq!(server.pending_frames(), 4);
}
