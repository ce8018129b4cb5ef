use cloudcafe::net::socket_v4;
use cloudcafe::position::{
    apply_client_packet, handle_server_packet, players_from_handshake, PacketType, PlayerData, PlayerPosition,
    PlayersData,
};

fn pos(x: f32, y: f32, z: f32) -> PlayerPosition {
    PlayerPosition { x: x.to_bits(), y: y.to_bits(), z: z.to_bits() }
}

#[test]
fn joining_player_gets_the_table() {
    let mut players = PlayersData::new();
    let a = socket_v4(127, 0, 0, 1, 12352);
    let out = handle_server_packet(&mut players, PacketType::GibData(a)).unwrap();
    assert_eq!(out.to, vec![a]);
    match out.packet {
        PacketType::PlayersData(d) => {
            assert_eq!(d.len(), 1);
            assert_eq!(d.get(0), (a, PlayerData::default()));
        }
        _ => panic!(),
    }
    assert_eq!(PlayerData::default().player_position, pos(0.0, 0.0, 0.0));
}

#[test]
fn position_update_is_stored_and_relayed_to_all() {
    let mut players = PlayersData::new();
    let a = socket_v4(127, 0, 0, 1, 12352);
    let b = socket_v4(127, 0, 0, 1, 12353);
    handle_server_packet(&mut players, PacketType::GibData(a));
    handle_server_packet(&mut players, PacketType::GibData(b));
    let out = handle_server_packet(&mut players, PacketType::PlayerPosition { socket_addr: b, position: pos(1.0, 1.5, -2.0) })
        .unwrap();
    assert_eq!(out.to, vec![a, b]);
    assert!(matches!(out.packet, PacketType::PlayerPosition { socket_addr, position } if socket_addr == b && position == pos(1.0, 1.5, -2.0)));
    assert_eq!(players.get(1).1.player_position, pos(1.0, 1.5, -2.0));
    // rejoining resets the player to the origin
    handle_server_packet(&mut players, PacketType::GibData(b));
    assert_eq!(players.get(1).1, PlayerData::default());
    assert!(handle_server_packet(&mut players, PacketType::PlayersData(PlayersData::new())).is_none());
    assert_eq!(players.len(), 2);
}

#[test]
fn client_mirrors_updates() {
    let a = socket_v4(127, 0, 0, 1, 12352);
    let c = socket_v4(127, 0, 0, 1, 12360);
    let mut table = PlayersData::new();
    table.insert(a, PlayerData::default());
    let mut players = players_from_handshake(PacketType::PlayersData(table)).unwrap();
    apply_client_packet(&mut players, &PacketType::PlayerPosition { socket_addr: c, position: pos(0.5, 0.0, 0.0) });
    apply_client_packet(&mut players, &PacketType::PlayerPosition { socket_addr: a, position: pos(2.0, 0.0, 0.0) });
    apply_client_packet(&mut players, &PacketType::GibData(a));
    assert_eq!(players.len(), 2);
    assert_eq!(players.get(0), (a, PlayerData { player_position: pos(2.0, 0.0, 0.0) }));
    assert_eq!(players.get(1), (c, PlayerData { player_position: pos(0.5, 0.0, 0.0) }));
    assert!(players.contains(c));
    assert!(players_from_handshake(PacketType::GibData(a)).is_none());
    assert_eq!(players.addresses(), vec![a, c]);
}
