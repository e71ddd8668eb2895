use tarpc::client::{take_ready, ClientAction, ClientConn};
use tarpc::codec::{encode_frame, split_frame, Config};
use tarpc::envelope::{Body, Envelope};
use tarpc::errors::{Error, ServiceError};
use tarpc::registry::Registry;
use tarpc::server::{ServerAction, ServerConn};

fn config() -> Config {
    Config::new(4096)
}

/// Runs one frame from the client through the server: split, judge, and —
/// for an `Invoke` — apply `handler` and encode the reply frame.
fn serve_one(
    server: &mut ServerConn,
    wire: &mut Vec<u8>,
    handler: impl Fn(&[u8], &[u8]) -> Result<Vec<u8>, ServiceError>,
) -> Vec<u8> {
    let payload = split_frame(wire, &config()).unwrap().unwrap();
    match server.on_payload(&payload) {
        ServerAction::Invoke { id, method, args } => {
            let outcome = handler(&method, &args);
            server.encode_reply(id, outcome).unwrap()
        }
        ServerAction::Close { err } => panic!("server closed: {:?}", err),
    }
}

/// Hands one reply frame back to the client and returns its action.
fn resolve_one(client: &mut ClientConn, mut wire: Vec<u8>) -> ClientAction {
    let payload = split_frame(&mut wire, &config()).unwrap().unwrap();
    client.on_payload(&payload)
}

#[test]
fn hello_end_to_end() {
    let mut client = ClientConn::new(config());
    let mut server = ServerConn::new(config());

    let (id, mut wire) = client
        .send_request(b"hello".to_vec(), b"Mom".to_vec())
        .unwrap();
    assert_eq!(id, 1);

    let reply = serve_one(&mut server, &mut wire, |method, args| {
        assert_eq!(method, b"hello");
        assert_eq!(args, b"Mom");
        let mut greeting = b"Hello, ".to_vec();
        greeting.extend_from_slice(args);
        greeting.push(b'!');
        Ok(greeting)
    });

    match resolve_one(&mut client, reply) {
        ClientAction::Resolved { id, result } => {
            assert_eq!(id, 1);
            assert_eq!(result.unwrap(), b"Hello, Mom!");
        }
        other => panic!("unexpected action: {:?}", action_name(&other)),
    }
    assert!(client.is_open());
    assert!(server.is_open());
}

#[test]
fn service_error_leaves_connection_usable() {
    let mut client = ClientConn::new(config());
    let mut server = ServerConn::new(config());

    // First call: the handler fails with a typed application error.
    let (failing_id, mut wire) = client
        .send_request(b"divide".to_vec(), b"1,0".to_vec())
        .unwrap();
    let reply = serve_one(&mut server, &mut wire, |_, _| {
        Err(ServiceError::new(b"division by zero".to_vec()))
    });
    match resolve_one(&mut client, reply) {
        ClientAction::Resolved { id, result } => {
            assert_eq!(id, failing_id);
            assert_eq!(result.unwrap_err().detail, b"division by zero");
        }
        other => panic!("unexpected action: {:?}", action_name(&other)),
    }

    // The error was data: both ends stay open and an unrelated call works.
    assert!(client.is_open());
    assert!(server.is_open());
    let (ok_id, mut wire) = client
        .send_request(b"divide".to_vec(), b"6,3".to_vec())
        .unwrap();
    assert_ne!(ok_id, failing_id);
    let reply = serve_one(&mut server, &mut wire, |_, _| Ok(b"2".to_vec()));
    match resolve_one(&mut client, reply) {
        ClientAction::Resolved { id, result } => {
            assert_eq!(id, ok_id);
            assert_eq!(result.unwrap(), b"2");
        }
        other => panic!("unexpected action: {:?}", action_name(&other)),
    }
}

#[test]
fn unknown_response_id_closes_connection() {
    let mut client = ClientConn::new(config());
    let (_id, _wire) = client
        .send_request(b"hello".to_vec(), b"x".to_vec())
        .unwrap();

    // A response for an id that was never issued arrives.
    let rogue = Envelope { id: 99, body: Body::Response { result: Ok(b"?".to_vec()) } };
    let frame = encode_frame(&rogue, &config()).unwrap();
    match resolve_one(&mut client, frame) {
        ClientAction::Close { err } => assert_eq!(err, Error::UnknownRequestId),
        other => panic!("unexpected action: {:?}", action_name(&other)),
    }
    assert!(!client.is_open());
    // The waiter of the real request is still recorded, and learns of the
    // failure from the closed connection; new calls are refused.
    assert!(client.is_pending(1));
    assert_eq!(
        client.send_request(b"hello".to_vec(), b"y".to_vec()),
        Err(Error::Connection)
    );
}

#[test]
fn cancelled_response_is_dropped_silently() {
    let mut client = ClientConn::new(config());
    let mut server = ServerConn::new(config());

    let (first, mut wire_a) = client.send_request(b"a".to_vec(), b"".to_vec()).unwrap();
    let (second, mut wire_b) = client.send_request(b"b".to_vec(), b"".to_vec()).unwrap();
    assert!(client.cancel(second));

    // The server still answers both; the cancelled reply is dropped.
    let reply_b = serve_one(&mut server, &mut wire_b, |_, _| Ok(b"late".to_vec()));
    match resolve_one(&mut client, reply_b) {
        ClientAction::Dropped { id } => assert_eq!(id, second),
        other => panic!("unexpected action: {:?}", action_name(&other)),
    }
    assert!(client.is_open());

    let reply_a = serve_one(&mut server, &mut wire_a, |_, _| Ok(b"fine".to_vec()));
    match resolve_one(&mut client, reply_a) {
        ClientAction::Resolved { id, result } => {
            assert_eq!(id, first);
            assert_eq!(result.unwrap(), b"fine");
        }
        other => panic!("unexpected action: {:?}", action_name(&other)),
    }
}

#[test]
fn wrong_direction_envelopes_are_a_desync() {
    // A request arriving at a client closes it.
    let mut client = ClientConn::new(config());
    let stray = Envelope {
        id: 1,
        body: Body::Request { method: b"hello".to_vec(), args: b"".to_vec() },
    };
    let frame = encode_frame(&stray, &config()).unwrap();
    match resolve_one(&mut client, frame) {
        ClientAction::Close { err } => assert_eq!(err, Error::Serialization),
        other => panic!("unexpected action: {:?}", action_name(&other)),
    }
    assert!(!client.is_open());

    // A response arriving at a server closes it.
    let mut server = ServerConn::new(config());
    let stray = Envelope { id: 1, body: Body::Response { result: Ok(b"".to_vec()) } };
    let mut wire = encode_frame(&stray, &config()).unwrap();
    let payload = split_frame(&mut wire, &config()).unwrap().unwrap();
    match server.on_payload(&payload) {
        ServerAction::Close { err } => assert_eq!(err, Error::Serialization),
        ServerAction::Invoke { .. } => panic!("unexpected dispatch"),
    }
    assert!(!server.is_open());
}

#[test]
fn garbage_payload_closes_client() {
    let mut client = ClientConn::new(config());
    let action = client.on_payload(&[1, 2, 3]);
    match action {
        ClientAction::Close { err } => assert_eq!(err, Error::Serialization),
        other => panic!("unexpected action: {:?}", action_name(&other)),
    }
    assert!(!client.is_open());
}

#[test]
fn oversized_request_fails_without_side_effects() {
    let mut client = ClientConn::new(Config::new(16));
    let r = client.send_request(b"m".to_vec(), vec![0u8; 64]);
    assert_eq!(r, Err(Error::Framing(tarpc::errors::FramingError::TooLarge)));
    assert!(client.is_open());
    assert!(!client.is_pending(1));
    // The connection is unharmed and a small request still goes out under
    // the id the oversized attempt did not consume.
    let (id, _wire) = client.send_request(b"m".to_vec(), b"".to_vec()).unwrap();
    assert_eq!(id, 1);
}

#[test]
fn pipelined_responses_resolve_out_of_order() {
    let mut client = ClientConn::new(config());
    let mut server = ServerConn::new(config());

    let mut replies: Vec<(u64, Vec<u8>)> = Vec::new();
    for i in 1..=5u64 {
        let (id, mut wire) = client
            .send_request(b"echo".to_vec(), vec![i as u8])
            .unwrap();
        assert_eq!(id, i);
        let reply = serve_one(&mut server, &mut wire, |_, args| Ok(args.to_vec()));
        replies.push((id, reply));
    }

    // Deliver the five replies in a scrambled order: each resolves its own
    // id with its own body, never another's.
    for wanted in [5u64, 3, 1, 4, 2] {
        let slot = replies.iter().position(|(id, _)| *id == wanted).unwrap();
        let (_, reply) = replies.swap_remove(slot);
        match resolve_one(&mut client, reply) {
            ClientAction::Resolved { id, result } => {
                assert_eq!(id, wanted);
                assert_eq!(result.unwrap(), vec![wanted as u8]);
            }
            other => panic!("unexpected action: {:?}", action_name(&other)),
        }
        for (id, _) in &replies {
            assert!(client.is_pending(*id));
        }
    }
    assert!(client.is_open());
}

#[test]
fn take_ready_picks_only_the_matching_id() {
    let mut ready: Vec<(u64, Result<Vec<u8>, ServiceError>)> = vec![
        (5, Ok(b"five".to_vec())),
        (3, Err(ServiceError::new(b"e".to_vec()))),
        (4, Ok(b"four".to_vec())),
    ];
    assert!(take_ready(&mut ready, 2).is_none());
    assert_eq!(ready.len(), 3);
    let (id, result) = take_ready(&mut ready, 3).unwrap();
    assert_eq!(id, 3);
    assert_eq!(result.unwrap_err().detail, b"e");
    // The others keep their order.
    assert_eq!(ready[0].0, 5);
    assert_eq!(ready[1].0, 4);
}

#[test]
fn registry_finds_first_registration() {
    let mut registry = Registry::new();
    assert_eq!(registry.len(), 0);
    let hello = registry.register(b"hello".to_vec());
    let add = registry.register(b"add".to_vec());
    let shadowed = registry.register(b"hello".to_vec());
    assert_eq!((hello, add, shadowed), (0, 1, 2));
    assert_eq!(registry.lookup(b"hello"), Some(0));
    assert_eq!(registry.lookup(b"add"), Some(1));
    assert_eq!(registry.lookup(b"absent"), None);
}

fn action_name(action: &ClientAction) -> &'static str {
    match action {
        ClientAction::Resolved { .. } => "resolved",
        ClientAction::Dropped { .. } => "dropped",
        ClientAction::Close { .. } => "close",
    }
}
