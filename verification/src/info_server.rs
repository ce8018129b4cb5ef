//! The server side of the info channel: who is connected, and who is told.

use vstd::prelude::*;
use crate::net::{SocketAddress, socket_address_bytes, echo_address_payload};
use crate::packet::{Client, ClientView, ClientStatus, ClientStatusView, ServerStatus, ServerStatusView};
use crate::ports::{ServerInfo, ServerInfoView};
use crate::registry::{
    ClientRegistry, has_uuid, registry_insert, registry_remove, last_info_match, unique_uuids, by_uuid,
    index_of_uuid, lemma_insert_by_uuid, lemma_remove_by_uuid, is_last_info_match,
};

verus! {

/// Something that happened on the server's info socket.
pub enum InfoEvent {
    /// A packet from `from` with a payload of `payload_len` bytes, and the
    /// client status that payload decodes to (`None` where it does not
    /// decode; an empty payload asks for the sender's address).
    Packet { from: SocketAddress, payload_len: usize, status: Option<ClientStatus> },
    /// A peer opened a connection.
    Connect(SocketAddress),
    /// A peer stopped answering.
    Timeout(SocketAddress),
    /// A peer closed its connection.
    Disconnect(SocketAddress),
}

pub enum InfoEventView {
    Packet { from: SocketAddress, payload_len: usize, status: Option<ClientStatusView> },
    Connect(SocketAddress),
    Timeout(SocketAddress),
    Disconnect(SocketAddress),
}

impl View for InfoEvent {
    type V = InfoEventView;

    open spec fn view(&self) -> InfoEventView {
        match self {
            InfoEvent::Packet { from, payload_len, status } => InfoEventView::Packet {
                from: *from,
                payload_len: *payload_len,
                status: match status {
                    Some(s) => Some(s@),
                    None => None,
                },
            },
            InfoEvent::Connect(a) => InfoEventView::Connect(*a),
            InfoEvent::Timeout(a) => InfoEventView::Timeout(*a),
            InfoEvent::Disconnect(a) => InfoEventView::Disconnect(*a),
        }
    }
}

impl InfoEvent {
    /// Every non-empty packet decodes to a client status (the server gives
    /// up on one that does not).
    pub open spec fn decodable(&self) -> bool {
        self matches InfoEvent::Packet { payload_len, status, .. } ==> (payload_len > 0 ==> status is Some)
    }
}

/// What the server sends in answer.
#[allow(inconsistent_fields)]
pub enum InfoAction {
    /// `payload`, as it stands, to `to`.
    Reply { to: SocketAddress, payload: Vec<u8> },
    /// `status` to each address of `to`, in order.
    Broadcast { to: Vec<SocketAddress>, status: ServerStatus },
}

#[allow(inconsistent_fields)]
pub enum InfoActionView {
    Reply { to: SocketAddress, payload: Seq<u8> },
    Broadcast { to: Seq<SocketAddress>, status: ServerStatusView },
}

impl View for InfoAction {
    type V = InfoActionView;

    open spec fn view(&self) -> InfoActionView {
        match self {
            InfoAction::Reply { to, payload } => InfoActionView::Reply { to: *to, payload: payload@ },
            InfoAction::Broadcast { to, status } => InfoActionView::Broadcast { to: to@, status: status@ },
        }
    }
}

/// How the set of registered clients changed.
pub enum RegistryChange {
    Unchanged,
    Registered(Client),
    Unregistered(u128),
}

pub enum RegistryChangeView {
    Unchanged,
    Registered(ClientView),
    Unregistered(u128),
}

impl View for RegistryChange {
    type V = RegistryChangeView;

    open spec fn view(&self) -> RegistryChangeView {
        match self {
            RegistryChange::Unchanged => RegistryChangeView::Unchanged,
            RegistryChange::Registered(c) => RegistryChangeView::Registered(c@),
            RegistryChange::Unregistered(u) => RegistryChangeView::Unregistered(*u),
        }
    }
}

/// The server's answers to one event, and how its registry changed.
pub struct InfoOutcome {
    pub actions: Vec<InfoAction>,
    pub change: RegistryChange,
}

pub open spec fn actions_view(a: Seq<InfoAction>) -> Seq<InfoActionView> {
    a.map_values(|x: InfoAction| x@)
}

/// The info addresses of a sequence of clients, in order.
pub open spec fn info_addrs_of(s: Seq<ClientView>) -> Seq<SocketAddress> {
    s.map_values(|c: ClientView| c.addrs.info_addr)
}

pub open spec fn with_players(info: ServerInfoView, players: Seq<ClientView>) -> ServerInfoView {
    ServerInfoView { name: info.name, ip: info.ip, players, map: info.map }
}

/// The server's state after one info event, what it sends, and how its
/// registry changed.
pub open spec fn info_step(info: ServerInfoView, ev: InfoEventView) -> (
    ServerInfoView,
    Seq<InfoActionView>,
    RegistryChangeView,
) {
    let none = Seq::<InfoActionView>::empty();
    match ev {
        InfoEventView::Packet { from, payload_len, status } => {
            if payload_len == 0 {
                (
                    info,
                    seq![InfoActionView::Reply { to: from, payload: socket_address_bytes(from) }],
                    RegistryChangeView::Unchanged,
                )
            } else {
                match status {
                    Some(ClientStatusView::Connect(c)) => {
                        let after = with_players(info, registry_insert(info.players, c));
                        (
                            after,
                            seq![
                                InfoActionView::Broadcast {
                                    to: info_addrs_of(after.players),
                                    status: ServerStatusView::ClientConnected(c),
                                },
                                InfoActionView::Broadcast {
                                    to: seq![c.addrs.info_addr],
                                    status: ServerStatusView::ServerInfo(after),
                                },
                            ],
                            RegistryChangeView::Registered(c),
                        )
                    },
                    Some(ClientStatusView::Disconnect(u)) => {
                        if has_uuid(info.players, u) {
                            let after = with_players(info, registry_remove(info.players, u));
                            (
                                after,
                                seq![
                                    InfoActionView::Broadcast {
                                        to: info_addrs_of(after.players),
                                        status: ServerStatusView::ClientDisconnected(u),
                                    },
                                ],
                                RegistryChangeView::Unregistered(u),
                            )
                        } else {
                            (info, none, RegistryChangeView::Unchanged)
                        }
                    },
                    _ => (info, none, RegistryChangeView::Unchanged),
                }
            }
        },
        InfoEventView::Connect(_) => (info, none, RegistryChangeView::Unchanged),
        InfoEventView::Timeout(a) | InfoEventView::Disconnect(a) => match last_info_match(info.players, a) {
            Some(u) => (
                with_players(info, registry_remove(info.players, u)),
                none,
                RegistryChangeView::Unregistered(u),
            ),
            None => (info, none, RegistryChangeView::Unchanged),
        },
    }
}

/// Tells every registered client that `client` connected.
pub fn send_connect_message(clients: &ClientRegistry, client: Client) -> (r: InfoAction)
    ensures
        r@ == (InfoActionView::Broadcast {
            to: info_addrs_of(clients@),
            status: ServerStatusView::ClientConnected(client@),
        }),
{
    InfoAction::Broadcast { to: clients.info_addrs(), status: ServerStatus::ClientConnected(client) }
}

/// Sends the server's description, with its current players, to `client_addr`.
pub fn send_server_info(client_addr: SocketAddress, info: &ServerInfo) -> (r: InfoAction)
    ensures
        r@ == (InfoActionView::Broadcast { to: seq![client_addr], status: ServerStatusView::ServerInfo(info@) }),
{
    let mut to: Vec<SocketAddress> = Vec::new();
    to.push(client_addr);
    assert(to@ =~= seq![client_addr]);
    InfoAction::Broadcast { to, status: ServerStatus::ServerInfo(info.clone()) }
}

/// Tells every registered client that the client with id `disconnect_uuid` left.
pub fn send_disconnect_message(clients: &ClientRegistry, disconnect_uuid: u128) -> (r: InfoAction)
    ensures
        r@ == (InfoActionView::Broadcast {
            to: info_addrs_of(clients@),
            status: ServerStatusView::ClientDisconnected(disconnect_uuid),
        }),
{
    InfoAction::Broadcast { to: clients.info_addrs(), status: ServerStatus::ClientDisconnected(disconnect_uuid) }
}

impl ServerInfo {
    /// Handles one event on the info socket: answers an empty packet with the
    /// sender's address; registers a connecting client, announces it to every
    /// registered client (itself included) and sends it the server's
    /// description; unregisters a client that says goodbye and announces that
    /// to the others; forgets the last client listening at an address that
    /// timed out or disconnected.
    pub fn handle_info_event(&mut self, event: InfoEvent) -> (r: InfoOutcome)
        requires
            old(self).players.wf(),
            event.decodable(),
        ensures
            final(self).players.wf(),
            (final(self)@, actions_view(r.actions@), r.change@) == info_step(old(self)@, event@),
    {
        let ghost before = self@;
        let ghost ev = event@;
        let mut actions: Vec<InfoAction> = Vec::new();
        let mut change = RegistryChange::Unchanged;
        match event {
            InfoEvent::Packet { from, payload_len, status } => {
                if payload_len == 0 {
                    actions.push(InfoAction::Reply { to: from, payload: echo_address_payload(from) });
                } else {
                    match status {
                        Some(ClientStatus::Connect(client)) => {
                            let ghost c = client@;
                            let info_addr = client.addrs.info_addr;
                            self.players.insert(client.clone());
                            let announce = send_connect_message(&self.players, client.clone());
                            actions.push(announce);
                            actions.push(send_server_info(info_addr, self));
                            change = RegistryChange::Registered(client);
                            assert(self@ == with_players(before, registry_insert(before.players, c)));
                        },
                        Some(ClientStatus::Disconnect(uuid)) => {
                            if self.players.remove(uuid).is_some() {
                                actions.push(send_disconnect_message(&self.players, uuid));
                                change = RegistryChange::Unregistered(uuid);
                            }
                            assert(self@ == with_players(before, registry_remove(before.players, uuid)));
                        },
                        _ => {},
                    }
                }
            },
            InfoEvent::Connect(_) => {},
            InfoEvent::Timeout(addr) | InfoEvent::Disconnect(addr) => {
                if let Some(uuid) = self.players.find_by_info_addr(addr) {
                    self.players.remove(uuid);
                    change = RegistryChange::Unregistered(uuid);
                    assert(self@ == with_players(before, registry_remove(before.players, uuid)));
                }
            },
        }
        assert(actions_view(actions@) =~= info_step(before, ev).1);
        InfoOutcome { actions, change }
    }
}

/// Registering keeps ids unique, adds the client under its id and leaves
/// every other id as it was.
pub proof fn lemma_registry_insert(s: Seq<ClientView>, c: ClientView)
    requires
        unique_uuids(s),
    ensures
        unique_uuids(registry_insert(s, c)),
        by_uuid(registry_insert(s, c)) == by_uuid(s).insert(c.data.uuid, c),
{
    lemma_insert_by_uuid(s, c, registry_insert(s, c));
}

/// Unregistering keeps ids unique and drops exactly that id.
pub proof fn lemma_registry_remove(s: Seq<ClientView>, u: u128)
    requires
        unique_uuids(s),
    ensures
        unique_uuids(registry_remove(s, u)),
        by_uuid(registry_remove(s, u)) == by_uuid(s).remove(u),
        !has_uuid(registry_remove(s, u), u),
{
    if has_uuid(s, u) {
        let i = index_of_uuid(s, u);
        assert(s[i].data.uuid == u);
        lemma_remove_by_uuid(s, i, registry_remove(s, u));
    } else {
        assert(by_uuid(s) =~= by_uuid(s).remove(u));
    }
    assert(!by_uuid(registry_remove(s, u)).dom().contains(u));
}

/// Whatever happens on the info socket, no two registered clients share an id.
pub proof fn law_info_step_keeps_ids_unique(info: ServerInfoView, ev: InfoEventView)
    requires
        unique_uuids(info.players),
    ensures
        unique_uuids(info_step(info, ev).0.players),
{
    match ev {
        InfoEventView::Packet { status: Some(ClientStatusView::Connect(c)), .. } => lemma_registry_insert(info.players, c),
        InfoEventView::Packet { status: Some(ClientStatusView::Disconnect(u)), .. } => lemma_registry_remove(info.players, u),
        InfoEventView::Timeout(a) | InfoEventView::Disconnect(a) => {
            if let Some(u) = last_info_match(info.players, a) {
                lemma_registry_remove(info.players, u);
            }
        },
        _ => {},
    }
}

/// A connecting client is registered under its id, every other registration
/// stays, and the connection is announced to the info address of every
/// registered client, the newcomer included, which is then sent the server's
/// description with those same players.
pub proof fn law_connect_registers_and_announces(info: ServerInfoView, from: SocketAddress, payload_len: usize, c: ClientView)
    requires
        unique_uuids(info.players),
        payload_len > 0,
    ensures
        ({
            let (after, actions, change) = info_step(
                info,
                InfoEventView::Packet { from, payload_len, status: Some(ClientStatusView::Connect(c)) },
            );
            &&& by_uuid(after.players) == by_uuid(info.players).insert(c.data.uuid, c)
            &&& change == RegistryChangeView::Registered(c)
            &&& actions.len() == 2
            &&& actions[0] == InfoActionView::Broadcast {
                to: info_addrs_of(after.players),
                status: ServerStatusView::ClientConnected(c),
            }
            &&& info_addrs_of(after.players).contains(c.addrs.info_addr)
            &&& forall|i: int| 0 <= i < after.players.len() ==> info_addrs_of(after.players).contains(
                #[trigger] after.players[i].addrs.info_addr,
            )
            &&& actions[1] == InfoActionView::Broadcast {
                to: seq![c.addrs.info_addr],
                status: ServerStatusView::ServerInfo(after),
            }
        }),
{
    let after = with_players(info, registry_insert(info.players, c));
    lemma_registry_insert(info.players, c);
    let addrs = info_addrs_of(after.players);
    assert forall|i: int| 0 <= i < after.players.len() implies addrs.contains(
        #[trigger] after.players[i].addrs.info_addr,
    ) by {
        assert(addrs[i] == after.players[i].addrs.info_addr);
    }
    assert(by_uuid(after.players).dom().contains(c.data.uuid));
    let k = crate::registry::index_of_uuid(after.players, c.data.uuid);
    assert(after.players[k].data.uuid == c.data.uuid);
    crate::registry::lemma_index_of_unique(after.players, k);
    assert(after.players[k] == c);
    assert(addrs[k] == c.addrs.info_addr);
}

/// A client that says goodbye is no longer registered, the others stay, and
/// if it was registered its departure is announced to the info addresses of
/// the clients that remain.
pub proof fn law_goodbye_unregisters(info: ServerInfoView, from: SocketAddress, payload_len: usize, u: u128)
    requires
        unique_uuids(info.players),
        payload_len > 0,
    ensures
        ({
            let (after, actions, change) = info_step(
                info,
                InfoEventView::Packet { from, payload_len, status: Some(ClientStatusView::Disconnect(u)) },
            );
            &&& by_uuid(after.players) == by_uuid(info.players).remove(u)
            &&& !has_uuid(after.players, u)
            &&& has_uuid(info.players, u) ==> change == RegistryChangeView::Unregistered(u) && actions == seq![
                InfoActionView::Broadcast {
                    to: info_addrs_of(after.players),
                    status: ServerStatusView::ClientDisconnected(u),
                },
            ]
            &&& !has_uuid(info.players, u) ==> change == RegistryChangeView::Unchanged && actions.len() == 0
        }),
{
    lemma_registry_remove(info.players, u);
    if !has_uuid(info.players, u) {
        assert(registry_remove(info.players, u) == info.players);
    }
}

/// An empty packet is answered, to its sender alone, with bytes that decode
/// to the sender's address as the wire carries it.
pub proof fn law_address_probe_answered(info: ServerInfoView, from: SocketAddress)
    ensures
        ({
            let (after, actions, change) = info_step(
                info,
                InfoEventView::Packet { from, payload_len: 0, status: None },
            );
            &&& after == info
            &&& change == RegistryChangeView::Unchanged
            &&& actions.len() == 1
            &&& actions[0] matches InfoActionView::Reply { to, payload } && to == from
                && crate::net::socket_address_of_bytes(payload) == Some(crate::net::wire_form(from))
        }),
{
    crate::net::lemma_socket_address_roundtrip(from);
}

/// Where some entry has info address `a`, there is a last such entry.
proof fn lemma_last_info_match_exists(s: Seq<ClientView>, a: SocketAddress, i: int)
    requires
        0 <= i < s.len(),
        s[i].addrs.info_addr == a,
    ensures
        exists|k: int| is_last_info_match(s, a, k),
    decreases s.len(),
{
    let n = s.len() - 1;
    if s[n].addrs.info_addr == a {
        assert(is_last_info_match(s, a, n));
    } else {
        let p = s.drop_last();
        assert(p[i] == s[i]);
        lemma_last_info_match_exists(p, a, i);
        let k = choose|k: int| is_last_info_match(p, a, k);
        assert forall|j: int| k < j < s.len() implies #[trigger] s[j].addrs.info_addr != a by {
            if j < n {
                assert(s[j] == p[j]);
            }
        }
        assert(s[k] == p[k]);
        assert(is_last_info_match(s, a, k));
    }
}

/// A peer that times out or disconnects at `a` takes off the roll the last
/// registered client whose info address is `a`: the others stay, in order,
/// the change names that client, and nothing is sent. Where no registered
/// client listens at `a`, nothing changes.
pub proof fn law_lost_peer_unregisters(info: ServerInfoView, a: SocketAddress, ev: InfoEventView)
    requires
        unique_uuids(info.players),
        ev == InfoEventView::Timeout(a) || ev == InfoEventView::Disconnect(a),
    ensures
        ({
            let (after, actions, change) = info_step(info, ev);
            let s = info.players;
            &&& actions.len() == 0
            &&& after == with_players(info, after.players)
            &&& unique_uuids(after.players)
            &&& (exists|i: int| 0 <= i < s.len() && #[trigger] s[i].addrs.info_addr == a) ==> exists|i: int|
                #![trigger s[i]]
                0 <= i < s.len() && s[i].addrs.info_addr == a
                    && (forall|j: int| i < j < s.len() ==> #[trigger] s[j].addrs.info_addr != a)
                    && change == RegistryChangeView::Unregistered(s[i].data.uuid)
                    && after.players == s.remove(i)
                    && by_uuid(after.players) == by_uuid(s).remove(s[i].data.uuid)
            &&& (forall|i: int| 0 <= i < s.len() ==> #[trigger] s[i].addrs.info_addr != a) ==> after == info
                && change == RegistryChangeView::Unchanged
        }),
{
    let s = info.players;
    if exists|i: int| 0 <= i < s.len() && #[trigger] s[i].addrs.info_addr == a {
        let i0 = choose|i: int| 0 <= i < s.len() && #[trigger] s[i].addrs.info_addr == a;
        lemma_last_info_match_exists(s, a, i0);
        let k = choose|k: int| is_last_info_match(s, a, k);
        let u = s[k].data.uuid;
        assert(last_info_match(s, a) == Some(u));
        crate::registry::lemma_index_of_unique(s, k);
        assert(registry_remove(s, u) == s.remove(k));
        lemma_registry_remove(s, u);
        assert(s[k].addrs.info_addr == a);
    } else {
        assert(!exists|k: int| is_last_info_match(s, a, k)) by {
            if exists|k: int| is_last_info_match(s, a, k) {
                let k = choose|k: int| is_last_info_match(s, a, k);
                assert(s[k].addrs.info_addr == a);
            }
        }
        assert(info.players =~= s);
    }
}

} // verus!
