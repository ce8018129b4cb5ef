//! The client side of the info channel: which other players to show.

use vstd::prelude::*;
use crate::packet::{Client, ClientView, ServerStatus, ServerStatusView};
use crate::ports::{ServerInfo, ServerInfoView};
use crate::registry::{ClientRegistry, unique_uuids, has_uuid, by_uuid, registry_insert, registry_remove};
use crate::info_server::{info_step, InfoEventView, InfoActionView, lemma_registry_insert, lemma_registry_remove};
use crate::packet::ClientStatusView;

verus! {

/// What the client must do to the avatars it shows.
pub enum PlayerAction {
    /// Show an avatar for this client (replacing one with the same id).
    Add(Client),
    /// Stop showing the avatar of the client with this id.
    Remove(u128),
    /// Stop showing every avatar.
    ClearAll,
}

pub enum PlayerActionView {
    Add(ClientView),
    Remove(u128),
    ClearAll,
}

impl View for PlayerAction {
    type V = PlayerActionView;

    open spec fn view(&self) -> PlayerActionView {
        match self {
            PlayerAction::Add(c) => PlayerActionView::Add(c@),
            PlayerAction::Remove(u) => PlayerActionView::Remove(*u),
            PlayerAction::ClearAll => PlayerActionView::ClearAll,
        }
    }
}

pub open spec fn player_actions_view(a: Seq<PlayerAction>) -> Seq<PlayerActionView> {
    a.map_values(|x: PlayerAction| x@)
}

/// Showing each client of `s`, in order.
pub open spec fn add_actions(s: Seq<ClientView>) -> Seq<PlayerActionView> {
    s.map_values(|c: ClientView| PlayerActionView::Add(c))
}

/// The entries of `s` whose id is not `u`, in order.
pub open spec fn without_uuid(s: Seq<ClientView>, u: u128) -> Seq<ClientView>
    decreases s.len(),
{
    if s.len() == 0 {
        Seq::empty()
    } else {
        let rest = without_uuid(s.drop_last(), u);
        if s.last().data.uuid == u {
            rest
        } else {
            rest.push(s.last())
        }
    }
}

/// What a connected client knows: its own id, the server it is connected to
/// (if any), and the other clients it shows.
pub struct Roster {
    pub own_uuid: u128,
    pub connected_server_info: Option<ServerInfo>,
    pub clients: ClientRegistry,
}

pub struct RosterView {
    pub own_uuid: u128,
    pub connected_server_info: Option<ServerInfoView>,
    pub clients: Seq<ClientView>,
}

impl View for Roster {
    type V = RosterView;

    open spec fn view(&self) -> RosterView {
        RosterView {
            own_uuid: self.own_uuid,
            connected_server_info: match &self.connected_server_info {
                Some(i) => Some(i@),
                None => None,
            },
            clients: self.clients@,
        }
    }
}

pub open spec fn with_info_players(info: ServerInfoView, players: Seq<ClientView>) -> ServerInfoView {
    ServerInfoView { name: info.name, ip: info.ip, players, map: info.map }
}

/// The roster after one status message from the server, and what to do to
/// the avatars.
pub open spec fn roster_step(r: RosterView, status: ServerStatusView) -> (RosterView, Seq<PlayerActionView>) {
    match status {
        ServerStatusView::ServerInfo(info) => {
            let others = without_uuid(info.players, r.own_uuid);
            (
                RosterView { own_uuid: r.own_uuid, connected_server_info: Some(info), clients: others },
                seq![PlayerActionView::ClearAll] + add_actions(others),
            )
        },
        ServerStatusView::ClientDisconnected(u) => (
            RosterView {
                own_uuid: r.own_uuid,
                connected_server_info: Some(
                    with_info_players(
                        r.connected_server_info.unwrap(),
                        registry_remove(r.connected_server_info.unwrap().players, u),
                    ),
                ),
                clients: registry_remove(r.clients, u),
            },
            seq![PlayerActionView::Remove(u)],
        ),
        ServerStatusView::ClientConnected(c) => (
            RosterView {
                own_uuid: r.own_uuid,
                connected_server_info: Some(
                    with_info_players(
                        r.connected_server_info.unwrap(),
                        registry_insert(r.connected_server_info.unwrap().players, c),
                    ),
                ),
                clients: registry_insert(r.clients, c),
            },
            seq![PlayerActionView::Add(c)],
        ),
        _ => (r, Seq::empty()),
    }
}

proof fn lemma_without_uuid_members(s: Seq<ClientView>, u: u128)
    ensures
        forall|k: int|
            #![trigger without_uuid(s, u)[k]]
            0 <= k < without_uuid(s, u).len() ==> without_uuid(s, u)[k].data.uuid != u && has_uuid(
                s,
                without_uuid(s, u)[k].data.uuid,
            ) && s.contains(without_uuid(s, u)[k]),
        unique_uuids(s) ==> unique_uuids(without_uuid(s, u)),
    decreases s.len(),
{
    if s.len() > 0 {
        let p = s.drop_last();
        lemma_without_uuid_members(p, u);
        let w = without_uuid(s, u);
        let rest = without_uuid(p, u);
        assert forall|k: int| #![trigger w[k]] 0 <= k < w.len() implies w[k].data.uuid != u && has_uuid(s, w[k].data.uuid)
            && s.contains(w[k]) by {
            if k < rest.len() {
                assert(w[k] == rest[k]);
                assert(p.contains(rest[k]));
                let j = choose|j: int| 0 <= j < p.len() && p[j] == rest[k];
                assert(s[j] == p[j]);
            } else {
                assert(w[k] == s.last());
                assert(s[s.len() - 1] == s.last());
                assert(has_uuid(s, s[s.len() - 1].data.uuid));
            }
        }
        if unique_uuids(s) {
            assert(unique_uuids(p)) by {
                assert forall|i: int, j: int|
                    0 <= i < p.len() && 0 <= j < p.len() && i != j implies #[trigger] p[i].data.uuid
                    != #[trigger] p[j].data.uuid by {
                    assert(p[i] == s[i] && p[j] == s[j]);
                }
            }
            if s.last().data.uuid != u {
                assert forall|i: int, j: int|
                    0 <= i < w.len() && 0 <= j < w.len() && i != j implies #[trigger] w[i].data.uuid
                    != #[trigger] w[j].data.uuid by {
                    if i < rest.len() && j < rest.len() {
                        assert(w[i] == rest[i] && w[j] == rest[j]);
                    } else if i < rest.len() {
                        assert(w[i] == rest[i]);
                        assert(p.contains(rest[i]));
                        let a = choose|a: int| 0 <= a < p.len() && p[a] == rest[i];
                        assert(s[a] == p[a]);
                        assert(s[s.len() - 1] == s.last());
                    } else if j < rest.len() {
                        assert(w[j] == rest[j]);
                        assert(p.contains(rest[j]));
                        let a = choose|a: int| 0 <= a < p.len() && p[a] == rest[j];
                        assert(s[a] == p[a]);
                        assert(s[s.len() - 1] == s.last());
                    }
                }
            }
        }
    }
}

/// The clients a roster shows after a server description are exactly the
/// described players other than the roster's own client.
pub proof fn law_server_info_shows_others(players: Seq<ClientView>, own: u128)
    requires
        unique_uuids(players),
    ensures
        by_uuid(without_uuid(players, own)) == by_uuid(players).remove(own),
    decreases players.len(),
{
    let w = without_uuid(players, own);
    lemma_without_uuid_members(players, own);
    assert(by_uuid(w) =~= by_uuid(players).remove(own)) by {
        assert forall|v: u128| #[trigger] has_uuid(w, v) == (v != own && has_uuid(players, v)) by {
            if v != own && has_uuid(players, v) {
                lemma_without_uuid_keeps(players, own, v);
            }
            if has_uuid(w, v) {
                let k = choose|k: int| 0 <= k < w.len() && #[trigger] w[k].data.uuid == v;
                assert(w[k].data.uuid != own);
            }
        }
        assert forall|v: u128| #[trigger] has_uuid(w, v) implies by_uuid(w)[v] == by_uuid(players)[v] by {
            let k = crate::registry::index_of_uuid(w, v);
            assert(w[k].data.uuid == v);
            assert(players.contains(w[k]));
            let j = choose|j: int| 0 <= j < players.len() && players[j] == w[k];
            crate::registry::lemma_index_of_unique(w, k);
            crate::registry::lemma_index_of_unique(players, j);
        }
    }
}

proof fn lemma_without_uuid_keeps(s: Seq<ClientView>, u: u128, v: u128)
    requires
        v != u,
        has_uuid(s, v),
    ensures
        has_uuid(without_uuid(s, u), v),
    decreases s.len(),
{
    let p = s.drop_last();
    if s.last().data.uuid == v {
        let w = without_uuid(s, u);
        assert(w.last().data.uuid == v);
    } else {
        let k = choose|k: int| 0 <= k < s.len() && #[trigger] s[k].data.uuid == v;
        assert(k < s.len() - 1);
        assert(p[k].data.uuid == v);
        lemma_without_uuid_keeps(p, u, v);
        let rest = without_uuid(p, u);
        let j = choose|j: int| 0 <= j < rest.len() && #[trigger] rest[j].data.uuid == v;
        if s.last().data.uuid != u {
            assert(rest.push(s.last())[j] == rest[j]);
        }
    }
}

impl Roster {
    /// A roster for the client with id `own_uuid`, connected nowhere.
    pub fn new(own_uuid: u128) -> (r: Roster)
        ensures
            r@ == (RosterView { own_uuid, connected_server_info: None, clients: Seq::empty() }),
            r.wf(),
    {
        Roster { own_uuid, connected_server_info: None, clients: ClientRegistry::new() }
    }

    /// Neither the shown clients nor the players of the server repeat an id.
    pub open spec fn wf(&self) -> bool {
        &&& self.clients.wf()
        &&& self.connected_server_info matches Some(info) ==> info.players.wf()
    }

    /// The roster may take this status message: the client gives up on a
    /// kick, and on news of a player before it has a server description.
    pub open spec fn accepts(&self, status: &ServerStatus) -> bool {
        match status {
            ServerStatus::Kick => false,
            ServerStatus::ClientDisconnected(_) | ServerStatus::ClientConnected(_) => self.connected_server_info is Some,
            ServerStatus::ServerInfo(info) => info.players.wf(),
            ServerStatus::Heartbeat => true,
        }
    }

    /// The user chose a server: remember its description.
    pub fn connected(&mut self, info: ServerInfo)
        requires
            info.players.wf(),
        ensures
            final(self)@ == (RosterView {
                own_uuid: old(self)@.own_uuid,
                connected_server_info: Some(info@),
                clients: old(self)@.clients,
            }),
            old(self).wf() ==> final(self).wf(),
    {
        self.connected_server_info = Some(info);
    }

    /// The user left the server: forget it and every other client.
    pub fn disconnected(&mut self) -> (r: Vec<PlayerAction>)
        ensures
            final(self)@ == (RosterView { own_uuid: old(self)@.own_uuid, connected_server_info: None, clients: Seq::empty() }),
            final(self).wf(),
            player_actions_view(r@) == seq![PlayerActionView::ClearAll],
    {
        self.connected_server_info = None;
        self.clients.clear();
        let mut r: Vec<PlayerAction> = Vec::new();
        r.push(PlayerAction::ClearAll);
        assert(player_actions_view(r@) =~= seq![PlayerActionView::ClearAll]);
        r
    }

    /// Takes one status message from the server: a server description
    /// replaces the shown clients with its players other than this client;
    /// news of a departure or an arrival updates both the shown clients and
    /// the server's player list.
    pub fn apply_server_status(&mut self, status: ServerStatus) -> (r: Vec<PlayerAction>)
        requires
            old(self).wf(),
            old(self).accepts(&status),
        ensures
            final(self).wf(),
            (final(self)@, player_actions_view(r@)) == roster_step(old(self)@, status@),
    {
        let ghost before = self@;
        let ghost st = status@;
        let mut actions: Vec<PlayerAction> = Vec::new();
        match status {
            ServerStatus::ServerInfo(info) => {
                let ghost players = info.players@;
                self.clients.clear();
                actions.push(PlayerAction::ClearAll);
                let mut i: usize = 0;
                proof {
                    lemma_without_uuid_members(players, before.own_uuid);
                }
                while i < info.players.len()
                    invariant
                        i <= players.len(),
                        players == info.players@,
                        unique_uuids(players),
                        self.own_uuid == before.own_uuid,
                        self.clients.wf(),
                        self.clients@ == without_uuid(players.subrange(0, i as int), self.own_uuid),
                        player_actions_view(actions@) == seq![PlayerActionView::ClearAll] + add_actions(self.clients@),
                    decreases players.len() - i,
                {
                    let ghost sub = players.subrange(0, i as int);
                    let ghost next = players.subrange(0, i + 1);
                    assert(next.drop_last() =~= sub);
                    proof {
                        lemma_without_uuid_members(sub, self.own_uuid);
                    }
                    let c = info.players.get(i);
                    assert(c@ == players[i as int]);
                    if c.data.uuid != self.own_uuid {
                        assert(!has_uuid(self.clients@, c.data.uuid)) by {
                            if has_uuid(self.clients@, c.data.uuid) {
                                let k = choose|k: int|
                                    0 <= k < self.clients@.len() && #[trigger] self.clients@[k].data.uuid == c.data.uuid;
                                assert(has_uuid(sub, self.clients@[k].data.uuid));
                                let j = choose|j: int| 0 <= j < sub.len() && #[trigger] sub[j].data.uuid == c.data.uuid;
                                assert(players[j] == sub[j]);
                                assert(players[j].data.uuid == players[i as int].data.uuid);
                            }
                        }
                        let ghost old_clients = self.clients@;
                        let ghost old_actions = actions@;
                        self.clients.insert(c.clone());
                        let added = c.clone();
                        assert(added@ == players[i as int]);
                        actions.push(PlayerAction::Add(added));
                        assert(self.clients@ == old_clients.push(players[i as int]));
                        assert(actions@ == old_actions.push(PlayerAction::Add(added)));
                        assert(player_actions_view(actions@) =~= player_actions_view(old_actions).push(
                            PlayerActionView::Add(players[i as int]),
                        ));
                        assert(add_actions(self.clients@) =~= add_actions(old_clients).push(
                            PlayerActionView::Add(players[i as int]),
                        ));
                        assert(player_actions_view(actions@) =~= seq![PlayerActionView::ClearAll] + add_actions(
                            self.clients@,
                        ));
                    }
                    i = i + 1;
                }
                assert(players.subrange(0, i as int) =~= players);
                self.connected_server_info = Some(info);
            },
            ServerStatus::ClientDisconnected(uuid) => {
                self.clients.remove(uuid);
                match &mut self.connected_server_info {
                    Some(info) => {
                        info.players.remove(uuid);
                    },
                    None => {},
                }
                actions.push(PlayerAction::Remove(uuid));
                assert(player_actions_view(actions@) =~= seq![PlayerActionView::Remove(uuid)]);
            },
            ServerStatus::ClientConnected(client) => {
                match &mut self.connected_server_info {
                    Some(info) => {
                        info.players.insert(client.clone());
                    },
                    None => {},
                }
                self.clients.insert(client.clone());
                actions.push(PlayerAction::Add(client));
                assert(player_actions_view(actions@) =~= seq![PlayerActionView::Add(st->ClientConnected_0)]);
            },
            _ => {
                assert(player_actions_view(actions@) =~= Seq::<PlayerActionView>::empty());
            },
        }
        actions
    }
}

/// A client that connects, and then takes the server's description that
/// the server sends it in answer, shows exactly the registered clients other
/// than itself.
pub proof fn law_newcomer_shows_everyone_else(
    info: ServerInfoView,
    from: crate::net::SocketAddress,
    payload_len: usize,
    c: ClientView,
    r: RosterView,
)
    requires
        unique_uuids(info.players),
        payload_len > 0,
        r.own_uuid == c.data.uuid,
    ensures
        ({
            let (after, actions, _) = info_step(
                info,
                InfoEventView::Packet { from, payload_len, status: Some(ClientStatusView::Connect(c)) },
            );
            actions[1] matches InfoActionView::Broadcast { status: ServerStatusView::ServerInfo(sent), .. }
                && by_uuid(roster_step(r, ServerStatusView::ServerInfo(sent)).0.clients) == by_uuid(
                after.players,
            ).remove(c.data.uuid)
        }),
{
    lemma_registry_insert(info.players, c);
    law_server_info_shows_others(registry_insert(info.players, c), c.data.uuid);
}

/// News that a client left takes it off the roster and keeps everyone else.
pub proof fn law_departure_unshown(r: RosterView, u: u128)
    requires
        unique_uuids(r.clients),
        r.connected_server_info is Some,
    ensures
        by_uuid(roster_step(r, ServerStatusView::ClientDisconnected(u)).0.clients) == by_uuid(r.clients).remove(u),
        roster_step(r, ServerStatusView::ClientDisconnected(u)).1 == seq![PlayerActionView::Remove(u)],
{
    lemma_registry_remove(r.clients, u);
}

/// News that a client arrived puts it on the roster under its id and keeps
/// everyone else.
pub proof fn law_arrival_shown(r: RosterView, c: ClientView)
    requires
        unique_uuids(r.clients),
        r.connected_server_info is Some,
    ensures
        by_uuid(roster_step(r, ServerStatusView::ClientConnected(c)).0.clients) == by_uuid(r.clients).insert(
            c.data.uuid,
            c,
        ),
        roster_step(r, ServerStatusView::ClientConnected(c)).1 == seq![PlayerActionView::Add(c)],
{
    lemma_registry_insert(r.clients, c);
}

/// A server description makes the client first stop showing every avatar,
/// whatever it showed before, then show, one action each and in the order
/// described, exactly the described players other than itself; the roster
/// then holds that server and those players.
pub proof fn law_server_info_starts_afresh(r: RosterView, info: ServerInfoView)
    requires
        unique_uuids(info.players),
    ensures
        ({
            let (after, actions) = roster_step(r, ServerStatusView::ServerInfo(info));
            &&& after.own_uuid == r.own_uuid
            &&& after.connected_server_info == Some(info)
            &&& actions.len() == after.clients.len() + 1
            &&& actions[0] == PlayerActionView::ClearAll
            &&& forall|k: int| 0 <= k < after.clients.len() ==> #[trigger] actions[k + 1] == PlayerActionView::Add(
                after.clients[k],
            )
            &&& forall|k: int|
                0 <= k < after.clients.len() ==> #[trigger] after.clients[k].data.uuid != r.own_uuid
                    && info.players.contains(after.clients[k])
            &&& unique_uuids(after.clients)
            &&& by_uuid(after.clients) == by_uuid(info.players).remove(r.own_uuid)
        }),
{
    let others = without_uuid(info.players, r.own_uuid);
    lemma_without_uuid_members(info.players, r.own_uuid);
    law_server_info_shows_others(info.players, r.own_uuid);
    let actions = seq![PlayerActionView::ClearAll] + add_actions(others);
    assert forall|k: int| 0 <= k < others.len() implies #[trigger] actions[k + 1] == PlayerActionView::Add(others[k]) by {
        assert(actions[k + 1] == add_actions(others)[k]);
    }
}

/// What a server description makes the client do to its avatars does not
/// depend on what it showed before.
pub proof fn law_server_info_ignores_history(r1: RosterView, r2: RosterView, info: ServerInfoView)
    requires
        r1.own_uuid == r2.own_uuid,
    ensures
        roster_step(r1, ServerStatusView::ServerInfo(info)).1 == roster_step(r2, ServerStatusView::ServerInfo(info)).1,
        roster_step(r1, ServerStatusView::ServerInfo(info)).0 == roster_step(r2, ServerStatusView::ServerInfo(info)).0,
{
}

} // verus!
