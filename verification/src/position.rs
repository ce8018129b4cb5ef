//! The player-position protocol: a server that keeps every player's head
//! position and relays updates, and the clients that mirror it.

use vstd::prelude::*;
use crate::net::SocketAddress;

verus! {

/// A head position: the bit patterns of its three `f32` coordinates.
#[derive(Copy, Clone, Debug, PartialEq, Eq, Structural)]
pub struct PlayerPosition {
    pub x: u32,
    pub y: u32,
    pub z: u32,
}

impl Default for PlayerPosition {
    /// The origin (every coordinate `0.0`).
    fn default() -> (r: Self)
        ensures
            r == (PlayerPosition { x: 0, y: 0, z: 0 }),
    {
        PlayerPosition { x: 0, y: 0, z: 0 }
    }
}

/// What the server knows of a player.
#[derive(Copy, Clone, Debug, PartialEq, Eq, Structural)]
pub struct PlayerData {
    pub player_position: PlayerPosition,
}

impl Default for PlayerData {
    /// A player at the origin.
    fn default() -> (r: Self)
        ensures
            r == (PlayerData { player_position: PlayerPosition { x: 0, y: 0, z: 0 } }),
    {
        PlayerData { player_position: PlayerPosition::default() }
    }
}

/// Some entry has address `a`.
pub open spec fn has_addr(s: Seq<(SocketAddress, PlayerData)>, a: SocketAddress) -> bool {
    exists|i: int| 0 <= i < s.len() && #[trigger] s[i].0 == a
}

/// The first position whose entry has address `a`.
pub open spec fn index_of_addr(s: Seq<(SocketAddress, PlayerData)>, a: SocketAddress) -> int {
    choose|i: int| 0 <= i < s.len() && #[trigger] s[i].0 == a && forall|j: int| 0 <= j < i ==> #[trigger] s[j].0 != a
}

/// No two entries share an address.
pub open spec fn unique_addrs(s: Seq<(SocketAddress, PlayerData)>) -> bool {
    forall|i: int, j: int| 0 <= i < s.len() && 0 <= j < s.len() && i != j ==> #[trigger] s[i].0 != #[trigger] s[j].0
}

/// `s` with the player at `a` set to `d`: in place, or last.
pub open spec fn players_insert(s: Seq<(SocketAddress, PlayerData)>, a: SocketAddress, d: PlayerData) -> Seq<
    (SocketAddress, PlayerData),
> {
    if has_addr(s, a) {
        s.update(index_of_addr(s, a), (a, d))
    } else {
        s.push((a, d))
    }
}

/// The players a server or client knows, each address at most once, in the
/// order they first appeared.
pub struct PlayersData {
    entries: Vec<(SocketAddress, PlayerData)>,
}

impl View for PlayersData {
    type V = Seq<(SocketAddress, PlayerData)>;

    closed spec fn view(&self) -> Seq<(SocketAddress, PlayerData)> {
        self.entries@
    }
}

impl Clone for PlayersData {
    fn clone(&self) -> (r: Self)
        ensures
            r@ == self@,
    {
        let mut entries: Vec<(SocketAddress, PlayerData)> = Vec::new();
        let mut i: usize = 0;
        while i < self.entries.len()
            invariant
                i <= self.entries.len(),
                entries@ == self@.subrange(0, i as int),
            decreases self.entries.len() - i,
        {
            entries.push(self.entries[i]);
            i = i + 1;
            assert(entries@ =~= self@.subrange(0, i as int));
        }
        assert(self@.subrange(0, i as int) =~= self@);
        PlayersData { entries }
    }
}

impl PlayersData {
    pub open spec fn wf(&self) -> bool {
        unique_addrs(self@)
    }

    pub fn new() -> (r: PlayersData)
        ensures
            r@ == Seq::<(SocketAddress, PlayerData)>::empty(),
            r.wf(),
    {
        PlayersData { entries: Vec::new() }
    }

    pub fn len(&self) -> (r: usize)
        ensures
            r == self@.len(),
    {
        self.entries.len()
    }

    /// The entry at position `i`.
    pub fn get(&self, i: usize) -> (r: (SocketAddress, PlayerData))
        requires
            i < self@.len(),
        ensures
            r == self@[i as int],
    {
        self.entries[i]
    }

    fn position(&self, a: SocketAddress) -> (r: Option<usize>)
        ensures
            match r {
                Some(i) => i < self@.len() && self@[i as int].0 == a && forall|j: int|
                    0 <= j < i ==> #[trigger] self@[j].0 != a,
                None => !has_addr(self@, a),
            },
    {
        let mut i: usize = 0;
        while i < self.entries.len()
            invariant
                i <= self.entries.len(),
                forall|j: int| 0 <= j < i ==> #[trigger] self@[j].0 != a,
            decreases self.entries.len() - i,
        {
            if self.entries[i].0 == a {
                return Some(i);
            }
            i = i + 1;
        }
        None
    }

    /// Whether a player at `a` is known.
    pub fn contains(&self, a: SocketAddress) -> (r: bool)
        ensures
            r == has_addr(self@, a),
    {
        self.position(a).is_some()
    }

    /// Sets what is known of the player at `a`, adding it last if new.
    pub fn insert(&mut self, a: SocketAddress, d: PlayerData)
        requires
            old(self).wf(),
        ensures
            final(self).wf(),
            final(self)@ == players_insert(old(self)@, a, d),
    {
        let ghost before = self@;
        match self.position(a) {
            Some(i) => {
                assert(i as int == index_of_addr(before, a)) by {
                    let k = index_of_addr(before, a);
                    assert(0 <= i < before.len() && before[i as int].0 == a && forall|j: int|
                        0 <= j < i ==> #[trigger] before[j].0 != a);
                    if k < i {
                        assert(before[k].0 == a);
                    } else if k > i {
                        assert(before[i as int].0 == a);
                    }
                }
                self.entries.set(i, (a, d));
                assert forall|x: int, y: int|
                    0 <= x < self@.len() && 0 <= y < self@.len() && x != y implies #[trigger] self@[x].0
                    != #[trigger] self@[y].0 by {
                    assert(self@[x].0 == before[x].0 && self@[y].0 == before[y].0);
                }
            },
            None => {
                self.entries.push((a, d));
                assert forall|x: int, y: int|
                    0 <= x < self@.len() && 0 <= y < self@.len() && x != y implies #[trigger] self@[x].0
                    != #[trigger] self@[y].0 by {
                    if x < before.len() && y < before.len() {
                        assert(self@[x] == before[x] && self@[y] == before[y]);
                    } else if x < before.len() {
                        assert(self@[x] == before[x]);
                    } else {
                        assert(self@[y] == before[y]);
                    }
                }
            },
        }
    }

    /// The addresses of the known players, in order.
    pub fn addresses(&self) -> (r: Vec<SocketAddress>)
        ensures
            r@ == self@.map_values(|e: (SocketAddress, PlayerData)| e.0),
    {
        let mut r: Vec<SocketAddress> = Vec::new();
        let mut i: usize = 0;
        while i < self.entries.len()
            invariant
                i <= self.entries.len(),
                r@ =~= self@.subrange(0, i as int).map_values(|e: (SocketAddress, PlayerData)| e.0),
            decreases self.entries.len() - i,
        {
            r.push(self.entries[i].0);
            i = i + 1;
            assert(self@.subrange(0, i as int).map_values(|e: (SocketAddress, PlayerData)| e.0) =~= self@.subrange(
                0,
                i - 1,
            ).map_values(|e: (SocketAddress, PlayerData)| e.0).push(self@[i - 1].0));
        }
        assert(self@.subrange(0, i as int) =~= self@);
        r
    }
}

/// A message of the position protocol.
pub enum PacketType {
    /// The player at `socket_addr` is now at `position`.
    PlayerPosition { socket_addr: SocketAddress, position: PlayerPosition },
    /// Every player the server knows.
    PlayersData(PlayersData),
    /// The player at this address joins and asks for every player.
    GibData(SocketAddress),
}

pub enum PacketTypeView {
    PlayerPosition { socket_addr: SocketAddress, position: PlayerPosition },
    PlayersData(Seq<(SocketAddress, PlayerData)>),
    GibData(SocketAddress),
}

impl View for PacketType {
    type V = PacketTypeView;

    open spec fn view(&self) -> PacketTypeView {
        match self {
            PacketType::PlayerPosition { socket_addr, position } => PacketTypeView::PlayerPosition {
                socket_addr: *socket_addr,
                position: *position,
            },
            PacketType::PlayersData(d) => PacketTypeView::PlayersData(d@),
            PacketType::GibData(a) => PacketTypeView::GibData(*a),
        }
    }
}

/// A message to send to each of some addresses, in order.
pub struct PositionBroadcast {
    pub to: Vec<SocketAddress>,
    pub packet: PacketType,
}

impl PacketType {
    /// The server can take this message: a position only for a player it
    /// knows (it gives up on any other).
    pub open spec fn known_to(&self, players: &PlayersData) -> bool {
        self matches PacketType::PlayerPosition { socket_addr, .. } ==> has_addr(players@, *socket_addr)
    }
}

/// The server takes one message: a position update is stored and sent to
/// every known player (the sender included); a joining player is stored at
/// the origin and sent the full table; a full table is ignored.
pub fn handle_server_packet(players: &mut PlayersData, packet: PacketType) -> (r: Option<PositionBroadcast>)
    requires
        old(players).wf(),
        packet.known_to(old(players)),
    ensures
        final(players).wf(),
        match packet@ {
            PacketTypeView::PlayerPosition { socket_addr, position } => {
                &&& final(players)@ == players_insert(
                    old(players)@,
                    socket_addr,
                    PlayerData { player_position: position },
                )
                &&& r matches Some(b) && b.to@ == final(players)@.map_values(
                    |e: (SocketAddress, PlayerData)| e.0,
                ) && b.packet@ == packet@
            },
            PacketTypeView::PlayersData(_) => final(players)@ == old(players)@ && r is None,
            PacketTypeView::GibData(a) => {
                &&& final(players)@ == players_insert(
                    old(players)@,
                    a,
                    PlayerData { player_position: PlayerPosition { x: 0, y: 0, z: 0 } },
                )
                &&& r matches Some(b) && b.to@ == seq![a] && b.packet@ == PacketTypeView::PlayersData(
                    final(players)@,
                )
            },
        },
{
    match packet {
        PacketType::PlayerPosition { socket_addr, position } => {
            players.insert(socket_addr, PlayerData { player_position: position });
            Some(
                PositionBroadcast {
                    to: players.addresses(),
                    packet: PacketType::PlayerPosition { socket_addr, position },
                },
            )
        },
        PacketType::PlayersData(_) => None,
        PacketType::GibData(addr) => {
            players.insert(addr, PlayerData::default());
            let mut to: Vec<SocketAddress> = Vec::new();
            to.push(addr);
            assert(to@ =~= seq![addr]);
            Some(PositionBroadcast { to, packet: PacketType::PlayersData(players.clone()) })
        },
    }
}

/// A client takes one message after joining: a position update is stored
/// (the player added if new); anything else is ignored.
pub fn apply_client_packet(players: &mut PlayersData, packet: &PacketType)
    requires
        old(players).wf(),
    ensures
        final(players).wf(),
        match packet@ {
            PacketTypeView::PlayerPosition { socket_addr, position } => final(players)@ == players_insert(
                old(players)@,
                socket_addr,
                PlayerData { player_position: position },
            ),
            _ => final(players)@ == old(players)@,
        },
{
    match packet {
        PacketType::PlayerPosition { socket_addr, position } => {
            players.insert(*socket_addr, PlayerData { player_position: *position });
        },
        _ => {},
    }
}

/// The table a joining client starts from: the server's answer to its
/// request; `None` for any other message (which the client does not expect).
pub fn players_from_handshake(packet: PacketType) -> (r: Option<PlayersData>)
    ensures
        match packet@ {
            PacketTypeView::PlayersData(d) => r matches Some(p) && p@ == d,
            _ => r is None,
        },
{
    match packet {
        PacketType::PlayersData(data) => Some(data),
        _ => None,
    }
}

/// After a player is set, the table holds that player exactly once, with
/// what was set, and every other player as before.
pub proof fn law_players_insert_sets(s: Seq<(SocketAddress, PlayerData)>, a: SocketAddress, d: PlayerData)
    requires
        unique_addrs(s),
    ensures
        has_addr(players_insert(s, a, d), a),
        players_insert(s, a, d)[index_of_addr(players_insert(s, a, d), a)] == (a, d),
        forall|i: int|
            0 <= i < s.len() && s[i].0 != a ==> players_insert(s, a, d).contains(#[trigger] s[i]),
{
    let t = players_insert(s, a, d);
    let pos = if has_addr(s, a) { index_of_addr(s, a) } else { s.len() as int };
    if has_addr(s, a) {
        let w = choose|i: int| 0 <= i < s.len() && #[trigger] s[i].0 == a;
        assert(exists|i: int|
            0 <= i < s.len() && #[trigger] s[i].0 == a && forall|j: int| 0 <= j < i ==> #[trigger] s[j].0 != a) by {
            assert forall|j: int| 0 <= j < w implies #[trigger] s[j].0 != a by {}
        }
    }
    assert(t[pos] == (a, d));
    assert(has_addr(t, a));
    let k = index_of_addr(t, a);
    assert(k == pos) by {
        assert(exists|i: int|
            0 <= i < t.len() && #[trigger] t[i].0 == a && forall|j: int| 0 <= j < i ==> #[trigger] t[j].0 != a) by {
            if has_addr(s, a) {
                assert forall|j: int| 0 <= j < pos implies #[trigger] t[j].0 != a by {
                    assert(t[j] == s[j]);
                }
            } else {
                assert forall|j: int| 0 <= j < pos implies #[trigger] t[j].0 != a by {
                    assert(t[j] == s[j]);
                }
            }
        }
        if k < pos {
            assert(t[k] == s[k]);
            if has_addr(s, a) {
                assert(s[k].0 == a);
            }
        } else if k > pos {
            assert(t[pos].0 == a);
        }
    }
    assert forall|i: int| 0 <= i < s.len() && s[i].0 != a implies t.contains(#[trigger] s[i]) by {
        assert(i != pos);
        assert(t[i] == s[i]);
    }
}

} // verus!
