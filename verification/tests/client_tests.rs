use cloudcafe::avatar::SidedNodes;
use cloudcafe::laminar_helper::ConnectionTrigger;
use cloudcafe::net::socket_v4;
use cloudcafe::pacing::FrameCounter;
use cloudcafe::packet::{Client, ClientAddresses, ClientData, ClientStatus, ServerStatus};
use cloudcafe::ports::{ServerInfo, WorldMap};
use cloudcafe::registry::ClientRegistry;
use cloudcafe::resources::{AppSettings, Resources};
use cloudcafe::roster::{PlayerAction, Roster};
use cloudcafe::session::{info_pass_messages, opening_message};

fn client(uuid: u128, port: u16) -> Client {
    Client::new(
        ClientData { name: format!("player{}", uuid), uuid },
        ClientAddresses {
            info_addr: socket_v4(127, 0, 0, 1, port),
            avatar_networking_addr: socket_v4(127, 0, 0, 1, port + 1),
            audio_addr: socket_v4(127, 0, 0, 1, port + 2),
        },
    )
}

fn info_with(players: &[u128]) -> ServerInfo {
    let mut r = ClientRegistry::new();
    for (i, u) in players.iter().enumerate() {
        r.insert(client(*u, 1000 + 10 * i as u16));
    }
    ServerInfo { name: "s".to_string(), ip: 0x7f00_0001, players: r, map: WorldMap::FlatGrass }
}

fn shown(r: &Roster) -> Vec<u128> {
    (0..r.clients.len()).map(|i| r.clients.get(i).data.uuid).collect()
}

#[test]
fn server_info_shows_everyone_but_me() {
    let mut roster = Roster::new(2);
    roster.connected(info_with(&[]));
    let actions = roster.apply_server_status(ServerStatus::ServerInfo(info_with(&[1, 2, 3])));
    assert_eq!(shown(&roster), vec![1, 3]);
    assert_eq!(actions.len(), 3);
    assert!(matches!(actions[0], PlayerAction::ClearAll));
    assert!(matches!(actions[1], PlayerAction::Add(ref c) if c.data.uuid == 1));
    assert!(matches!(actions[2], PlayerAction::Add(ref c) if c.data.uuid == 3));
    assert_eq!(roster.connected_server_info.as_ref().unwrap().players.len(), 3);
}

#[test]
fn arrivals_and_departures_update_roster_and_server_list() {
    let mut roster = Roster::new(2);
    roster.apply_server_status(ServerStatus::ServerInfo(info_with(&[1, 2])));
    let a = roster.apply_server_status(ServerStatus::ClientConnected(client(5, 5000)));
    assert!(matches!(a[..], [PlayerAction::Add(ref c)] if c.data.uuid == 5));
    assert_eq!(shown(&roster), vec![1, 5]);
    assert_eq!(roster.connected_server_info.as_ref().unwrap().players.len(), 3);
    let a = roster.apply_server_status(ServerStatus::ClientDisconnected(1));
    assert!(matches!(a[..], [PlayerAction::Remove(1)]));
    assert_eq!(shown(&roster), vec![5]);
    assert_eq!(roster.connected_server_info.as_ref().unwrap().players.len(), 2);
    let a = roster.apply_server_status(ServerStatus::Heartbeat);
    assert!(a.is_empty());
    let a = roster.disconnected();
    assert!(matches!(a[..], [PlayerAction::ClearAll]));
    assert!(roster.connected_server_info.is_none());
    assert_eq!(shown(&roster), Vec::<u128>::new());
}

#[test]
fn a_newcomer_announcement_of_myself_is_shown_too() {
    let mut roster = Roster::new(9);
    roster.apply_server_status(ServerStatus::ServerInfo(info_with(&[])));
    roster.apply_server_status(ServerStatus::ClientConnected(client(9, 9000)));
    assert_eq!(shown(&roster), vec![9]);
}

#[test]
fn session_messages() {
    let c = client(4, 4000);
    assert!(matches!(opening_message(&c), ClientStatus::Connect(ref x) if x.data.uuid == 4));
    let m = info_pass_messages(&c, false);
    assert!(matches!(m[..], [ClientStatus::Heartbeat]));
    let m = info_pass_messages(&c, true);
    assert!(matches!(m[..], [ClientStatus::Heartbeat, ClientStatus::Disconnect(4)]));
}

#[test]
fn settings_default_and_parsed() {
    assert_eq!(AppSettings::default(), AppSettings { selected_mic: 0 });
    let (r, write) = Resources::init(None);
    assert!(write);
    assert_eq!(r.settings().selected_mic, 0);
    let (r, write) = Resources::init(Some(AppSettings { selected_mic: 3 }));
    assert!(!write);
    assert_eq!(r.settings(), AppSettings { selected_mic: 3 });
}

#[test]
fn selecting_a_microphone() {
    let (mut r, _) = Resources::init(Some(AppSettings { selected_mic: 1 }));
    assert!(!r.select_mic(1));
    assert_eq!(r.settings().selected_mic, 1);
    assert!(r.select_mic(4));
    assert_eq!(r.settings().selected_mic, 4);
}

#[test]
fn frame_counter_fires_every_period() {
    let mut c = FrameCounter::new(4);
    let fired: Vec<bool> = (0..9).map(|_| c.tick()).collect();
    assert_eq!(fired, vec![false, false, false, true, false, false, false, true, false]);
    let mut every = FrameCounter::new(1);
    assert!(every.tick() && every.tick());
    let mut fifty = FrameCounter::new(50);
    assert_eq!((0..100).filter(|_| fifty.tick()).count(), 2);
}

#[test]
fn connection_trigger_is_shared_between_clones() {
    let t = ConnectionTrigger::new();
    let other = t.clone();
    assert!(!t.disconnected());
    other.disconnect();
    assert!(t.disconnected());
    assert!(other.disconnected());
}

#[test]
fn sided_nodes_are_empty() {
    assert_eq!(SidedNodes::from_model(), SidedNodes {});
}
