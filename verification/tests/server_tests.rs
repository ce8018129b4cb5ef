use cloudcafe::info_server::{
    send_connect_message, send_disconnect_message, send_server_info, InfoAction, InfoEvent, RegistryChange,
};
use cloudcafe::net::{address_from_echo, socket_v4, SocketAddress};
use cloudcafe::packet::{Client, ClientAddresses, ClientData, ClientStatus, ServerStatus};
use cloudcafe::ports::{ServerInfo, WorldMap};
use cloudcafe::registry::ClientRegistry;
use cloudcafe::relay::{relay_targets, BroadcastHub, RelayChannel};

fn client(name: &str, uuid: u128, port: u16) -> Client {
    Client::new(
        ClientData { name: name.to_string(), uuid },
        ClientAddresses {
            info_addr: socket_v4(127, 0, 0, 1, port),
            avatar_networking_addr: socket_v4(127, 0, 0, 1, port + 1),
            audio_addr: socket_v4(127, 0, 0, 1, port + 2),
        },
    )
}

fn server() -> ServerInfo {
    ServerInfo { name: "malek's server".to_string(), ip: 0x7f00_0001, players: ClientRegistry::new(), map: WorldMap::FlatGrass }
}

fn connect(info: &mut ServerInfo, c: Client) -> cloudcafe::info_server::InfoOutcome {
    let from = c.addrs.info_addr;
    info.handle_info_event(InfoEvent::Packet { from, payload_len: 10, status: Some(ClientStatus::Connect(c)) })
}

fn uuids(r: &ClientRegistry) -> Vec<u128> {
    (0..r.len()).map(|i| r.get(i).data.uuid).collect()
}

#[test]
fn registry_insert_replaces_in_place() {
    let mut r = ClientRegistry::new();
    r.insert(client("a", 1, 1000));
    r.insert(client("b", 2, 2000));
    r.insert(client("a2", 1, 3000));
    assert_eq!(uuids(&r), vec![1, 2]);
    assert_eq!(r.get(0).data.name, "a2");
    assert!(r.contains(2));
    assert!(!r.contains(3));
}

#[test]
fn registry_remove_keeps_order() {
    let mut r = ClientRegistry::new();
    for (i, u) in [5u128, 6, 7].iter().enumerate() {
        r.insert(client("x", *u, 1000 + 10 * i as u16));
    }
    let removed = r.remove(6).unwrap();
    assert_eq!(removed.data.uuid, 6);
    assert_eq!(uuids(&r), vec![5, 7]);
    assert!(r.remove(6).is_none());
    r.clear();
    assert_eq!(r.len(), 0);
}

#[test]
fn registry_finds_last_client_at_info_addr() {
    let mut r = ClientRegistry::new();
    r.insert(client("a", 1, 1000));
    r.insert(client("b", 2, 1000));
    r.insert(client("c", 3, 2000));
    assert_eq!(r.find_by_info_addr(socket_v4(127, 0, 0, 1, 1000)), Some(2));
    assert_eq!(r.find_by_info_addr(socket_v4(127, 0, 0, 1, 2000)), Some(3));
    assert_eq!(r.find_by_info_addr(socket_v4(127, 0, 0, 1, 3000)), None);
    assert_eq!(
        r.info_addrs(),
        vec![socket_v4(127, 0, 0, 1, 1000), socket_v4(127, 0, 0, 1, 1000), socket_v4(127, 0, 0, 1, 2000)]
    );
}

#[test]
fn empty_packet_gets_sender_address_back() {
    let mut info = server();
    let from = socket_v4(192, 168, 1, 9, 51000);
    let out = info.handle_info_event(InfoEvent::Packet { from, payload_len: 0, status: None });
    assert!(matches!(out.change, RegistryChange::Unchanged));
    assert_eq!(out.actions.len(), 1);
    match &out.actions[0] {
        InfoAction::Reply { to, payload } => {
            assert_eq!(*to, from);
            assert_eq!(address_from_echo(payload), Ok(from));
        }
        _ => panic!("expected a reply"),
    }
}

#[test]
fn connect_registers_announces_and_describes() {
    let mut info = server();
    connect(&mut info, client("first", 1, 1000));
    let out = connect(&mut info, client("second", 2, 2000));
    assert_eq!(uuids(&info.players), vec![1, 2]);
    assert!(matches!(out.change, RegistryChange::Registered(ref c) if c.data.uuid == 2));
    assert_eq!(out.actions.len(), 2);
    match &out.actions[0] {
        InfoAction::Broadcast { to, status: ServerStatus::ClientConnected(c) } => {
            assert_eq!(*to, vec![socket_v4(127, 0, 0, 1, 1000), socket_v4(127, 0, 0, 1, 2000)]);
            assert_eq!(c.data.name, "second");
        }
        _ => panic!("expected the announcement"),
    }
    match &out.actions[1] {
        InfoAction::Broadcast { to, status: ServerStatus::ServerInfo(s) } => {
            assert_eq!(*to, vec![socket_v4(127, 0, 0, 1, 2000)]);
            assert_eq!(uuids(&s.players), vec![1, 2]);
            assert_eq!(s.name, "malek's server");
        }
        _ => panic!("expected the description"),
    }
}

#[test]
fn goodbye_unregisters_and_tells_the_rest() {
    let mut info = server();
    connect(&mut info, client("a", 1, 1000));
    connect(&mut info, client("b", 2, 2000));
    let from = socket_v4(127, 0, 0, 1, 1000);
    let out = info.handle_info_event(InfoEvent::Packet { from, payload_len: 20, status: Some(ClientStatus::Disconnect(1)) });
    assert_eq!(uuids(&info.players), vec![2]);
    assert!(matches!(out.change, RegistryChange::Unregistered(1)));
    match &out.actions[..] {
        [InfoAction::Broadcast { to, status: ServerStatus::ClientDisconnected(1) }] => {
            assert_eq!(*to, vec![socket_v4(127, 0, 0, 1, 2000)]);
        }
        _ => panic!("expected one announcement"),
    }
    // saying goodbye twice changes nothing
    let out = info.handle_info_event(InfoEvent::Packet { from, payload_len: 20, status: Some(ClientStatus::Disconnect(1)) });
    assert!(out.actions.is_empty());
    assert!(matches!(out.change, RegistryChange::Unchanged));
}

#[test]
fn heartbeat_and_client_info_change_nothing() {
    let mut info = server();
    connect(&mut info, client("a", 1, 1000));
    let from = socket_v4(127, 0, 0, 1, 1000);
    let out = info.handle_info_event(InfoEvent::Packet { from, payload_len: 4, status: Some(ClientStatus::Heartbeat) });
    assert!(out.actions.is_empty());
    let out = info.handle_info_event(InfoEvent::Packet {
        from,
        payload_len: 4,
        status: Some(ClientStatus::ClientInfo(client("z", 9, 9000))),
    });
    assert!(out.actions.is_empty());
    assert_eq!(uuids(&info.players), vec![1]);
    let out = info.handle_info_event(InfoEvent::Connect(from));
    assert!(out.actions.is_empty());
}

#[test]
fn timeout_forgets_client_at_that_address() {
    let mut info = server();
    connect(&mut info, client("a", 1, 1000));
    connect(&mut info, client("b", 2, 2000));
    let out = info.handle_info_event(InfoEvent::Timeout(socket_v4(127, 0, 0, 1, 2000)));
    assert!(out.actions.is_empty());
    assert!(matches!(out.change, RegistryChange::Unregistered(2)));
    assert_eq!(uuids(&info.players), vec![1]);
    let out = info.handle_info_event(InfoEvent::Disconnect(socket_v4(127, 0, 0, 1, 1000)));
    assert!(matches!(out.change, RegistryChange::Unregistered(1)));
    let out = info.handle_info_event(InfoEvent::Disconnect(socket_v4(127, 0, 0, 1, 1000)));
    assert!(matches!(out.change, RegistryChange::Unchanged));
}

#[test]
fn message_helpers_address_the_registry() {
    let mut r = ClientRegistry::new();
    r.insert(client("a", 1, 1000));
    r.insert(client("b", 2, 2000));
    match send_connect_message(&r, client("c", 3, 3000)) {
        InfoAction::Broadcast { to, status: ServerStatus::ClientConnected(c) } => {
            assert_eq!(to.len(), 2);
            assert_eq!(c.data.uuid, 3);
        }
        _ => panic!(),
    }
    match send_disconnect_message(&r, 7) {
        InfoAction::Broadcast { to, status: ServerStatus::ClientDisconnected(7) } => assert_eq!(to.len(), 2),
        _ => panic!(),
    }
    match send_server_info(socket_v4(1, 1, 1, 1, 1), &server()) {
        InfoAction::Broadcast { to, status: ServerStatus::ServerInfo(_) } => assert_eq!(to, vec![socket_v4(1, 1, 1, 1, 1)]),
        _ => panic!(),
    }
}

#[test]
fn relay_skips_the_sender() {
    let mut r = ClientRegistry::new();
    r.insert(client("a", 1, 1000));
    r.insert(client("b", 2, 2000));
    r.insert(client("c", 3, 3000));
    let from = socket_v4(127, 0, 0, 1, 2001);
    assert_eq!(
        relay_targets(&r, from, RelayChannel::Avatar),
        vec![socket_v4(127, 0, 0, 1, 1001), socket_v4(127, 0, 0, 1, 3001)]
    );
    // on the voice channel the sender's avatar address is just another peer
    assert_eq!(relay_targets(&r, from, RelayChannel::Audio).len(), 3);
    let from = socket_v4(127, 0, 0, 1, 3002);
    assert_eq!(
        relay_targets(&r, from, RelayChannel::Audio),
        vec![socket_v4(127, 0, 0, 1, 1002), socket_v4(127, 0, 0, 1, 2002)]
    );
}

#[test]
fn broadcast_hub_sends_to_everyone_including_sender() {
    let mut hub = BroadcastHub::new();
    let a = socket_v4(1, 1, 1, 1, 1);
    let b = socket_v4(2, 2, 2, 2, 2);
    hub.on_connect(a);
    hub.on_connect(b);
    hub.on_connect(a);
    assert_eq!(hub.len(), 3);
    assert_eq!(hub.targets(), vec![a, b, a]);
    assert_eq!(hub.channel_targets(), vec![(a, 0), (b, 1), (a, 2)]);
}

#[test]
fn v6_clients_relay_too() {
    let mut r = ClientRegistry::new();
    let v6 = SocketAddress::V6 { ip: 1, port: 9, flowinfo: 0, scope_id: 0 };
    r.insert(Client::new(
        ClientData { name: "six".to_string(), uuid: 66 },
        ClientAddresses { info_addr: v6, avatar_networking_addr: v6, audio_addr: v6 },
    ));
    assert_eq!(relay_targets(&r, socket_v4(1, 1, 1, 1, 1), RelayChannel::Avatar), vec![v6]);
}
