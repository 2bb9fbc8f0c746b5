use yprox::broadcaster::{BroadcastRequest, Broadcaster, Dispatch};
use yprox::client::{connected, on_read};
use yprox::endpoint::{Endpoint, Host};
use yprox::error::Error;
use yprox::hooks::{Direction, Hook, HookRequest, HookResponse, TriggerOutput};
use yprox::server::{Action, Message, Server, Step};
use yprox::target::{LinkNext, Target, BUFFER_SIZE, RETRY_DELAY_SECS};

type Trigger = Box<dyn Fn(HookRequest) -> TriggerOutput>;

fn client_addr() -> Endpoint {
    Endpoint::v4(0x7f00_0001, 40000)
}

fn addr_a() -> Endpoint {
    Endpoint::v4(0x7f00_0001, 8081)
}

fn addr_b() -> Endpoint {
    Endpoint::v4(0x7f00_0001, 8082)
}

fn two_targets() -> Broadcaster {
    let mut broadcaster = Broadcaster::new();
    broadcaster.connect("A".to_string(), addr_a(), Ok(addr_a())).unwrap();
    broadcaster.connect("B".to_string(), addr_b(), Ok(addr_b())).unwrap();
    broadcaster
}

fn sent(dispatch: &Dispatch) -> Option<(&str, &[u8])> {
    match dispatch {
        Dispatch::Send { target, bytes } => Some((target.as_str(), bytes.as_slice())),
        _ => None,
    }
}

#[test]
fn endpoints_are_equal_by_host_and_port() {
    assert_eq!(Endpoint::v4(1, 2), Endpoint { host: Host::V4(1), port: 2 });
    assert_eq!(Endpoint::v6(1, 2), Endpoint { host: Host::V6(1), port: 2 });
    assert_ne!(Endpoint::v4(1, 2), Endpoint::v6(1, 2));
    assert_ne!(Endpoint::v4(1, 2), Endpoint::v4(1, 3));
}

#[test]
fn the_reader_announces_the_client() {
    match connected(client_addr()) {
        Message::ClientConnected { addr } => assert_eq!(addr, client_addr()),
        other => panic!("unexpected: {:?}", other),
    }
}

#[test]
fn a_read_with_bytes_is_one_client_message() {
    let step = on_read(client_addr(), b"PING\n");
    assert!(step.go_on);
    match step.message {
        Message::NewClientMessage { addr, bytes } => {
            assert_eq!(addr, client_addr());
            assert_eq!(bytes, b"PING\n".to_vec());
        }
        other => panic!("unexpected: {:?}", other),
    }
}

#[test]
fn a_read_without_bytes_disconnects_the_client() {
    let step = on_read(client_addr(), b"");
    assert!(!step.go_on);
    match step.message {
        Message::ClientDisconnected { addr } => assert_eq!(addr, client_addr()),
        other => panic!("unexpected: {:?}", other),
    }
}

#[test]
fn a_disconnect_stops_the_session_and_never_broadcasts() {
    let mut server = Server::new("A".to_string());
    server.handle(connected(client_addr()));
    assert!(server.has_client(client_addr()));
    let step = server.handle(on_read(client_addr(), b"").message);
    assert!(matches!(step, Step::Done(Action::Stop)));
    assert!(!server.has_client(client_addr()));
}

#[test]
fn the_server_keeps_track_of_clients() {
    let mut server = Server::new("A".to_string());
    let other = Endpoint::v4(0x0a00_0001, 1234);
    assert!(!server.has_client(client_addr()));
    assert!(matches!(
        server.handle(Message::ClientConnected { addr: client_addr() }),
        Step::Done(Action::Noted)
    ));
    server.client_connected(client_addr());
    server.client_connected(other);
    assert!(server.has_client(client_addr()));
    assert!(server.has_client(other));
    assert_eq!(server.clients.len(), 2);
    server.client_disconnected(client_addr());
    assert!(!server.has_client(client_addr()));
    assert!(server.has_client(other));
}

#[test]
fn the_server_keeps_track_of_targets() {
    let mut server = Server::new("A".to_string());
    assert!(matches!(
        server.handle(Message::TargetConnected { name: "A".to_string(), addr: addr_a() }),
        Step::Done(Action::Noted)
    ));
    assert!(server.offline.is_empty());
    assert!(matches!(
        server.handle(Message::TargetDisconnected { name: "B".to_string(), addr: addr_b() }),
        Step::Done(Action::Noted)
    ));
    assert_eq!(server.offline, vec!["B".to_string()]);
    server.target_disconnected("B".to_string(), addr_b());
    assert_eq!(server.offline, vec!["B".to_string()]);
    assert!(matches!(
        server.handle(Message::TargetReconnected { name: "B".to_string(), addr: addr_b() }),
        Step::Done(Action::Noted)
    ));
    assert!(server.offline.is_empty());
}

#[test]
fn a_failed_write_to_the_client_ends_the_session() {
    let mut server = Server::new("A".to_string());
    server.client_connected(client_addr());
    assert!(matches!(server.write_failed(client_addr()), Action::Stop));
    assert!(!server.has_client(client_addr()));
}

#[test]
fn a_client_payload_is_handed_to_the_broadcaster() {
    let mut server = Server::new("A".to_string());
    let step = server.handle(Message::NewClientMessage {
        addr: client_addr(),
        bytes: b"hello".to_vec(),
    });
    match step {
        Step::Done(Action::Broadcast(request)) => {
            assert_eq!(request.bytes, b"hello".to_vec());
            assert_eq!(request.from_addr, client_addr());
        }
        other => panic!("unexpected: {:?}", other),
    }
}

#[test]
fn a_broadcast_request_holds_the_payload_and_its_sender() {
    let server = Server::new("A".to_string());
    let request = server.new_message(client_addr(), b"hey".to_vec());
    assert_eq!(request.bytes, b"hey".to_vec());
    assert_eq!(request.from_addr, client_addr());
    let copy = request.clone();
    assert_eq!(copy.bytes, request.bytes);
    assert_eq!(copy.from_addr, request.from_addr);
}

#[test]
fn a_target_response_is_put_to_the_hooks_first() {
    let mut server = Server::new("A".to_string());
    let step = server.handle(Message::NewTargetMessage {
        from_target: "B".to_string(),
        to_addr: client_addr(),
        bytes: b"PONG\n".to_vec(),
    });
    match step {
        Step::Ask { request, to_addr } => {
            assert_eq!(request.direction, Direction::TargetToClient);
            assert_eq!(request.target_name, "B");
            assert_eq!(request.data, b"PONG\n".to_vec());
            assert_eq!(to_addr, client_addr());
        }
        other => panic!("unexpected: {:?}", other),
    }
}

#[test]
fn only_the_designated_target_reaches_the_client() {
    let mut server = Server::new("A".to_string());
    server.client_connected(client_addr());
    let from_a = server.new_response(
        &"A".to_string(),
        client_addr(),
        Ok(HookResponse::new(b"PONG\n".to_vec())),
    );
    match from_a {
        Action::Respond { to_addr, bytes } => {
            assert_eq!(to_addr, client_addr());
            assert_eq!(bytes, b"PONG\n".to_vec());
        }
        other => panic!("unexpected: {:?}", other),
    }
    let from_b = server.new_response(
        &"B".to_string(),
        client_addr(),
        Ok(HookResponse::new(b"PONG2\n".to_vec())),
    );
    assert!(matches!(from_b, Action::Discard));
}

#[test]
fn a_response_for_an_unknown_client_is_dropped() {
    let server = Server::new("A".to_string());
    let action = server.new_response(
        &"A".to_string(),
        client_addr(),
        Ok(HookResponse::new(b"PONG\n".to_vec())),
    );
    assert!(matches!(action, Action::Discard));
}

#[test]
fn a_response_that_a_hook_rejected_is_dropped() {
    let mut server = Server::new("A".to_string());
    server.client_connected(client_addr());
    let action = server.new_response(
        &"A".to_string(),
        client_addr(),
        Err(Error::ScriptError { target: "A".to_string(), cause: "boom".to_string() }),
    );
    assert!(matches!(action, Action::Discard));
}

#[test]
fn responses_reach_the_client_in_order() {
    let mut server = Server::new("A".to_string());
    server.client_connected(client_addr());
    let mut stream: Vec<u8> = Vec::new();
    for (from, bytes) in [("A", "one"), ("B", "noise"), ("A", "two"), ("A", "three")] {
        let action = server.new_response(
            &from.to_string(),
            client_addr(),
            Ok(HookResponse::new(bytes.as_bytes().to_vec())),
        );
        if let Action::Respond { bytes, .. } = action {
            stream.extend(bytes);
        }
    }
    assert_eq!(stream, b"onetwothree".to_vec());
}

#[test]
fn connecting_makes_links_in_order() {
    let mut broadcaster = Broadcaster::new();
    assert!(broadcaster.targets.is_empty());
    let peer = Endpoint::v4(0x7f00_0001, 9999);
    match broadcaster.connect("A".to_string(), addr_a(), Ok(peer)) {
        Ok(Message::TargetConnected { name, addr }) => {
            assert_eq!(name, "A");
            assert_eq!(addr, peer);
        }
        other => panic!("unexpected: {:?}", other),
    }
    broadcaster.connect("B".to_string(), addr_b(), Ok(addr_b())).unwrap();
    assert_eq!(broadcaster.targets.len(), 2);
    assert_eq!(broadcaster.targets[0].name, "A");
    assert_eq!(broadcaster.targets[0].addr, peer);
    assert!(broadcaster.targets[0].connected);
    assert_eq!(broadcaster.targets[1].name, "B");
}

#[test]
fn a_failed_connection_is_a_connection_error() {
    let mut broadcaster = Broadcaster::new();
    broadcaster.connect("A".to_string(), addr_a(), Ok(addr_a())).unwrap();
    match broadcaster.connect("B".to_string(), addr_b(), Err("refused".to_string())) {
        Err(Error::ConnectionError { target, cause }) => {
            assert_eq!(target, addr_b());
            assert_eq!(cause, "refused");
        }
        other => panic!("unexpected: {:?}", other),
    }
    assert_eq!(broadcaster.targets.len(), 1);
}

#[test]
fn every_target_gets_the_payload() {
    let broadcaster = two_targets();
    let hooks: Vec<Hook<Trigger>> = vec![];
    let request = BroadcastRequest { bytes: b"PING\n".to_vec(), from_addr: client_addr() };
    let dispatches = broadcaster.new_broadcast(&request, &hooks);
    assert_eq!(dispatches.len(), 2);
    assert_eq!(sent(&dispatches[0]), Some(("A", &b"PING\n"[..])));
    assert_eq!(sent(&dispatches[1]), Some(("B", &b"PING\n"[..])));
}

#[test]
fn a_broadcast_without_targets_sends_nothing() {
    let broadcaster = Broadcaster::new();
    let hooks: Vec<Hook<Trigger>> = vec![];
    let request = BroadcastRequest { bytes: b"x".to_vec(), from_addr: client_addr() };
    assert!(broadcaster.new_broadcast(&request, &hooks).is_empty());
}

#[test]
fn a_disconnected_target_gets_nothing() {
    let mut broadcaster = two_targets();
    match broadcaster.write_failed(1) {
        Some(Message::TargetDisconnected { name, addr }) => {
            assert_eq!(name, "B");
            assert_eq!(addr, addr_b());
        }
        other => panic!("unexpected: {:?}", other),
    }
    assert!(broadcaster.write_failed(1).is_none());
    assert!(broadcaster.write_failed(7).is_none());
    assert!(broadcaster.targets[0].connected);
    assert!(!broadcaster.targets[1].connected);
    let hooks: Vec<Hook<Trigger>> = vec![];
    let request = BroadcastRequest { bytes: b"x".to_vec(), from_addr: client_addr() };
    let dispatches = broadcaster.new_broadcast(&request, &hooks);
    assert_eq!(sent(&dispatches[0]), Some(("A", &b"x"[..])));
    assert!(matches!(&dispatches[1], Dispatch::Offline { target } if target == "B"));
}

#[test]
fn a_replayed_payload_is_the_same_after_a_reconnect() {
    let mut broadcaster = two_targets();
    let upper: Trigger = Box::new(|request: HookRequest| {
        Ok(Some(HookResponse::new(request.data.to_ascii_uppercase())))
    });
    let hooks = vec![Hook::builder(upper).target_name("B".to_string()).build()];
    let request = BroadcastRequest { bytes: b"replay".to_vec(), from_addr: client_addr() };
    let before = broadcaster.new_broadcast(&request, &hooks);
    broadcaster.write_failed(1);
    let new_peer = Endpoint::v4(0x7f00_0001, 8083);
    match broadcaster.reconnected(1, Some(new_peer)) {
        Some(Message::TargetReconnected { name, addr }) => {
            assert_eq!(name, "B");
            assert_eq!(addr, new_peer);
        }
        other => panic!("unexpected: {:?}", other),
    }
    assert!(broadcaster.reconnected(9, Some(new_peer)).is_none());
    let after = broadcaster.new_broadcast(&request.clone(), &hooks);
    assert_eq!(sent(&before[1]), Some(("B", &b"REPLAY"[..])));
    assert_eq!(sent(&after[1]), sent(&before[1]));
    assert_eq!(sent(&after[0]), sent(&before[0]));
}

#[test]
fn the_dispatch_follows_the_chain_and_the_link() {
    let mut link = Target::new("A".to_string(), addr_a());
    let send = Broadcaster::dispatch(&link, Ok(HookResponse::new(b"x".to_vec())));
    assert_eq!(sent(&send), Some(("A", &b"x"[..])));
    let skip = Broadcaster::dispatch(&link, Err(Error::UnexpectedError("boom".to_string())));
    match skip {
        Dispatch::Skip { target, cause: Error::UnexpectedError(message) } => {
            assert_eq!(target, "A");
            assert_eq!(message, "boom");
        }
        other => panic!("unexpected: {:?}", other),
    }
    link.on_write_error();
    let offline = Broadcaster::dispatch(&link, Ok(HookResponse::new(b"x".to_vec())));
    assert!(matches!(offline, Dispatch::Offline { target } if target == "A"));
}

#[test]
fn a_target_read_with_bytes_is_one_target_message() {
    let mut link = Target::new("B".to_string(), addr_b());
    let step = link.on_read(client_addr(), b"fromB");
    assert_eq!(step.next, LinkNext::Read);
    assert!(link.connected);
    match step.message {
        Some(Message::NewTargetMessage { from_target, to_addr, bytes }) => {
            assert_eq!(from_target, "B");
            assert_eq!(to_addr, client_addr());
            assert_eq!(bytes, b"fromB".to_vec());
        }
        other => panic!("unexpected: {:?}", other),
    }
}

#[test]
fn the_end_of_a_target_stream_starts_the_reconnection() {
    let mut link = Target::new("B".to_string(), addr_b());
    let step = link.on_read(client_addr(), b"");
    assert!(!link.connected);
    assert_eq!(step.next, LinkNext::Retry { after_secs: 1 });
    assert_eq!(RETRY_DELAY_SECS, 1);
    match step.message {
        Some(Message::TargetDisconnected { name, addr }) => {
            assert_eq!(name, "B");
            assert_eq!(addr, addr_b());
        }
        other => panic!("unexpected: {:?}", other),
    }
    let again = link.on_read(client_addr(), b"");
    assert!(again.message.is_none());
    assert_eq!(again.next, LinkNext::Retry { after_secs: 1 });
}

#[test]
fn a_failed_read_disconnects_the_link() {
    let mut link = Target::new("B".to_string(), addr_b());
    let step = link.on_read_error();
    assert!(!link.connected);
    assert_eq!(step.next, LinkNext::Retry { after_secs: 1 });
    match step.message {
        Some(Message::TargetDisconnected { name, addr }) => {
            assert_eq!(name, "B");
            assert_eq!(addr, addr_b());
        }
        other => panic!("unexpected: {:?}", other),
    }
    let again = link.on_read_error();
    assert!(again.message.is_none());
    assert_eq!(again.next, LinkNext::Retry { after_secs: 1 });
}

#[test]
fn a_client_that_connects_twice_is_known_once() {
    let mut server = Server::new("A".to_string());
    server.client_connected(client_addr());
    server.client_connected(client_addr());
    assert_eq!(server.clients.len(), 1);
    server.target_disconnected("B".to_string(), addr_b());
    server.target_disconnected("B".to_string(), addr_b());
    assert_eq!(server.offline.len(), 1);
    server.client_disconnected(client_addr());
    assert!(server.clients.is_empty());
}

#[test]
fn a_link_retries_until_it_is_connected() {
    let mut link = Target::new("B".to_string(), addr_b());
    link.on_write_error();
    for _ in 0..5 {
        let step = link.on_connect(None);
        assert!(step.message.is_none());
        assert_eq!(step.next, LinkNext::Retry { after_secs: 1 });
        assert!(!link.connected);
    }
    let peer = Endpoint::v4(0x7f00_0001, 8090);
    let step = link.on_connect(Some(peer));
    assert_eq!(step.next, LinkNext::Read);
    assert!(link.connected);
    assert_eq!(link.addr, peer);
    match step.message {
        Some(Message::TargetReconnected { name, addr }) => {
            assert_eq!(name, "B");
            assert_eq!(addr, peer);
        }
        other => panic!("unexpected: {:?}", other),
    }
}

#[test]
fn reads_are_at_most_four_kibibytes() {
    assert_eq!(BUFFER_SIZE, 4096);
}

#[test]
fn a_long_input_is_broadcast_in_pieces_in_order() {
    let data: Vec<u8> = (0..10_000u32).map(|i| (i % 251) as u8).collect();
    let mut server = Server::new("A".to_string());
    let mut stream: Vec<u8> = Vec::new();
    let mut broadcasts = 0;
    for chunk in data.chunks(BUFFER_SIZE) {
        let step = on_read(client_addr(), chunk);
        assert!(step.go_on);
        if let Step::Done(Action::Broadcast(request)) = server.handle(step.message) {
            assert!(request.bytes.len() <= BUFFER_SIZE);
            stream.extend(request.bytes);
            broadcasts += 1;
        }
    }
    assert_eq!(broadcasts, 3);
    assert_eq!(stream, data);
}
