//! The clients a server knows, each at most once per id.

use vstd::prelude::*;
use crate::net::SocketAddress;
use crate::packet::{Client, ClientView};

verus! {

/// No two entries share an id.
pub open spec fn unique_uuids(s: Seq<ClientView>) -> bool {
    forall|i: int, j: int|
        0 <= i < s.len() && 0 <= j < s.len() && i != j ==> #[trigger] s[i].data.uuid != #[trigger] s[j].data.uuid
}

/// Some entry has id `u`.
pub open spec fn has_uuid(s: Seq<ClientView>, u: u128) -> bool {
    exists|i: int| 0 <= i < s.len() && #[trigger] s[i].data.uuid == u
}

/// The position of an entry with id `u`.
pub open spec fn index_of_uuid(s: Seq<ClientView>, u: u128) -> int {
    choose|i: int| 0 <= i < s.len() && #[trigger] s[i].data.uuid == u
}

/// The entries keyed by id.
pub open spec fn by_uuid(s: Seq<ClientView>) -> Map<u128, ClientView> {
    Map::new(|u: u128| has_uuid(s, u), |u: u128| s[index_of_uuid(s, u)])
}

/// `s` with `c` registered: in place of the entry with the same id, or last.
pub open spec fn registry_insert(s: Seq<ClientView>, c: ClientView) -> Seq<ClientView> {
    if has_uuid(s, c.data.uuid) {
        s.update(index_of_uuid(s, c.data.uuid), c)
    } else {
        s.push(c)
    }
}

/// `s` without the entry with id `u`, the others in order.
pub open spec fn registry_remove(s: Seq<ClientView>, u: u128) -> Seq<ClientView> {
    if has_uuid(s, u) {
        s.remove(index_of_uuid(s, u))
    } else {
        s
    }
}

/// Position `i` holds the last entry whose info address is `a`.
pub open spec fn is_last_info_match(s: Seq<ClientView>, a: SocketAddress, i: int) -> bool {
    &&& 0 <= i < s.len()
    &&& s[i].addrs.info_addr == a
    &&& forall|j: int| i < j < s.len() ==> #[trigger] s[j].addrs.info_addr != a
}

/// The id of the last entry whose info address is `a`, if any has it.
pub open spec fn last_info_match(s: Seq<ClientView>, a: SocketAddress) -> Option<u128> {
    if exists|i: int| is_last_info_match(s, a, i) {
        Some(s[choose|i: int| is_last_info_match(s, a, i)].data.uuid)
    } else {
        None
    }
}

/// Where an entry sits in a sequence without repeated ids, that is the
/// position `index_of_uuid` names.
pub proof fn lemma_index_of_unique(s: Seq<ClientView>, i: int)
    requires
        unique_uuids(s),
        0 <= i < s.len(),
    ensures
        has_uuid(s, s[i].data.uuid),
        index_of_uuid(s, s[i].data.uuid) == i,
{
    let u = s[i].data.uuid;
    assert(has_uuid(s, u));
    let j = index_of_uuid(s, u);
    assert(s[j].data.uuid == u);
}

/// The clients a server knows, in the order they were first registered.
pub struct ClientRegistry {
    clients: Vec<Client>,
}

impl View for ClientRegistry {
    type V = Seq<ClientView>;

    closed spec fn view(&self) -> Seq<ClientView> {
        self.clients@.map_values(|c: Client| c@)
    }
}

impl Clone for ClientRegistry {
    fn clone(&self) -> (r: Self)
        ensures
            r@ == self@,
    {
        let mut clients: Vec<Client> = Vec::new();
        let mut i: usize = 0;
        while i < self.clients.len()
            invariant
                i <= self.clients.len(),
                clients@.len() == i,
                forall|k: int| 0 <= k < i ==> #[trigger] clients@[k]@ == self.clients@[k]@,
            decreases self.clients.len() - i,
        {
            clients.push(self.clients[i].clone());
            i = i + 1;
        }
        let r = ClientRegistry { clients };
        assert(r@ =~= self@);
        r
    }
}

impl ClientRegistry {
    /// No two registered clients share an id.
    pub open spec fn wf(&self) -> bool {
        unique_uuids(self@)
    }

    /// The registered clients keyed by id.
    pub open spec fn clients_by_uuid(&self) -> Map<u128, ClientView> {
        by_uuid(self@)
    }

    /// A registry with no clients.
    pub fn new() -> (r: ClientRegistry)
        ensures
            r@ == Seq::<ClientView>::empty(),
            r.wf(),
    {
        let r = ClientRegistry { clients: Vec::new() };
        assert(r@ =~= Seq::<ClientView>::empty());
        r
    }

    /// The number of registered clients.
    pub fn len(&self) -> (r: usize)
        ensures
            r == self@.len(),
    {
        self.clients.len()
    }

    /// The client at position `i`.
    pub fn get(&self, i: usize) -> (r: &Client)
        requires
            i < self@.len(),
        ensures
            r@ == self@[i as int],
    {
        &self.clients[i]
    }

    /// Where the client with id `uuid` sits, if it is registered.
    fn position(&self, uuid: u128) -> (r: Option<usize>)
        ensures
            match r {
                Some(i) => i < self@.len() && self@[i as int].data.uuid == uuid,
                None => !has_uuid(self@, uuid),
            },
    {
        let mut i: usize = 0;
        while i < self.clients.len()
            invariant
                i <= self.clients.len(),
                self@.len() == self.clients@.len(),
                forall|k: int| 0 <= k < i ==> #[trigger] self@[k].data.uuid != uuid,
            decreases self.clients.len() - i,
        {
            assert(self@[i as int] == self.clients@[i as int]@);
            if self.clients[i].data.uuid == uuid {
                return Some(i);
            }
            i = i + 1;
        }
        None
    }

    /// Whether a client with id `uuid` is registered.
    pub fn contains(&self, uuid: u128) -> (r: bool)
        ensures
            r == has_uuid(self@, uuid),
    {
        self.position(uuid).is_some()
    }

    /// Registers `client`, replacing the registered client with the same id
    /// where there is one, in its place; otherwise it goes last.
    pub fn insert(&mut self, client: Client)
        requires
            old(self).wf(),
        ensures
            final(self).wf(),
            final(self)@ == registry_insert(old(self)@, client@),
            final(self).clients_by_uuid() == old(self).clients_by_uuid().insert(client.data.uuid, client@),
    {
        let ghost old_view = self@;
        let ghost c = client@;
        let u = client.data.uuid;
        match self.position(u) {
            Some(i) => {
                proof {
                    lemma_index_of_unique(old_view, i as int);
                }
                self.clients.set(i, client);
                assert(self@ =~= old_view.update(i as int, c));
            },
            None => {
                self.clients.push(client);
                assert(self@ =~= old_view.push(c));
            },
        }
        proof {
            lemma_insert_by_uuid(old_view, c, self@);
        }
    }

    /// Unregisters the client with id `uuid`, keeping the others in order,
    /// and gives it back; `None` where no such client is registered.
    pub fn remove(&mut self, uuid: u128) -> (r: Option<Client>)
        requires
            old(self).wf(),
        ensures
            final(self).wf(),
            final(self)@ == registry_remove(old(self)@, uuid),
            has_uuid(old(self)@, uuid) ==> r is Some && r->Some_0@ == old(self)@[index_of_uuid(old(self)@, uuid)],
            !has_uuid(old(self)@, uuid) ==> r is None,
            final(self).clients_by_uuid() == old(self).clients_by_uuid().remove(uuid),
    {
        let ghost old_view = self@;
        match self.position(uuid) {
            Some(i) => {
                proof {
                    lemma_index_of_unique(old_view, i as int);
                }
                let c = self.clients.remove(i);
                assert(self@ =~= old_view.remove(i as int));
                proof {
                    lemma_remove_by_uuid(old_view, i as int, self@);
                }
                Some(c)
            },
            None => {
                assert(by_uuid(old_view) =~= by_uuid(old_view).remove(uuid));
                None
            },
        }
    }

    /// Unregisters every client.
    pub fn clear(&mut self)
        ensures
            final(self)@ == Seq::<ClientView>::empty(),
            final(self).wf(),
    {
        self.clients.clear();
        assert(self@ =~= Seq::<ClientView>::empty());
    }

    /// The id of the last registered client whose info address is `addr`.
    pub fn find_by_info_addr(&self, addr: SocketAddress) -> (r: Option<u128>)
        ensures
            r == last_info_match(self@, addr),
            r is None <==> forall|i: int| 0 <= i < self@.len() ==> #[trigger] self@[i].addrs.info_addr != addr,
    {
        let mut found: Option<u128> = None;
        let ghost mut at: int = -1;
        let mut i: usize = 0;
        while i < self.clients.len()
            invariant
                i <= self.clients.len(),
                self@.len() == self.clients@.len(),
                -1 <= at < i,
                at == -1 ==> found is None && forall|k: int| 0 <= k < i ==> #[trigger] self@[k].addrs.info_addr != addr,
                at >= 0 ==> found == Some(self@[at].data.uuid) && self@[at].addrs.info_addr == addr
                    && forall|k: int| at < k < i ==> #[trigger] self@[k].addrs.info_addr != addr,
            decreases self.clients.len() - i,
        {
            assert(self@[i as int] == self.clients@[i as int]@);
            if self.clients[i].addrs.info_addr == addr {
                found = Some(self.clients[i].data.uuid);
                proof {
                    at = i as int;
                }
            }
            i = i + 1;
        }
        proof {
            if at >= 0 {
                assert(is_last_info_match(self@, addr, at));
                let c = choose|k: int| is_last_info_match(self@, addr, k);
                assert(c == at) by {
                    if c < at {
                        assert(self@[at].addrs.info_addr == addr);
                    } else if c > at {
                        assert(self@[c].addrs.info_addr == addr);
                    }
                }
            } else {
                assert(!exists|k: int| is_last_info_match(self@, addr, k)) by {
                    if exists|k: int| is_last_info_match(self@, addr, k) {
                        let k = choose|k: int| is_last_info_match(self@, addr, k);
                        assert(self@[k].addrs.info_addr == addr);
                    }
                }
            }
        }
        found
    }

    /// The info addresses of the registered clients, in order.
    pub fn info_addrs(&self) -> (r: Vec<SocketAddress>)
        ensures
            r@ == self@.map_values(|c: ClientView| c.addrs.info_addr),
    {
        let mut r: Vec<SocketAddress> = Vec::new();
        let mut i: usize = 0;
        while i < self.clients.len()
            invariant
                i <= self.clients.len(),
                self@.len() == self.clients@.len(),
                r@ =~= self@.subrange(0, i as int).map_values(|c: ClientView| c.addrs.info_addr),
            decreases self.clients.len() - i,
        {
            assert(self@[i as int] == self.clients@[i as int]@);
            r.push(self.clients[i].addrs.info_addr);
            i = i + 1;
            assert(self@.subrange(0, i as int).map_values(|c: ClientView| c.addrs.info_addr) =~= self@.subrange(
                0,
                i - 1,
            ).map_values(|c: ClientView| c.addrs.info_addr).push(self@[i - 1].addrs.info_addr));
        }
        assert(self@.subrange(0, i as int) =~= self@);
        r
    }
}

/// Replacing the entry with an id, or appending a new id, updates the
/// map by id at that id and nowhere else.
pub proof fn lemma_insert_by_uuid(old_s: Seq<ClientView>, c: ClientView, new_s: Seq<ClientView>)
    requires
        unique_uuids(old_s),
        has_uuid(old_s, c.data.uuid) ==> new_s == old_s.update(index_of_uuid(old_s, c.data.uuid), c),
        !has_uuid(old_s, c.data.uuid) ==> new_s == old_s.push(c),
    ensures
        unique_uuids(new_s),
        by_uuid(new_s) == by_uuid(old_s).insert(c.data.uuid, c),
{
    let u = c.data.uuid;
    let pos = if has_uuid(old_s, u) { index_of_uuid(old_s, u) } else { old_s.len() as int };
    if has_uuid(old_s, u) {
        assert(old_s[pos].data.uuid == u);
    }
    assert(new_s.len() == if has_uuid(old_s, u) { old_s.len() } else { old_s.len() + 1 });
    assert(new_s[pos] == c);
    assert forall|k: int| 0 <= k < new_s.len() && k != pos implies #[trigger] new_s[k] == old_s[k] && old_s[k].data.uuid
        != u by {
        if has_uuid(old_s, u) {
            assert(old_s[pos].data.uuid == u);
        } else {
            assert(old_s[k].data.uuid != u);
        }
    }
    assert(unique_uuids(new_s)) by {
        assert forall|i: int, j: int|
            0 <= i < new_s.len() && 0 <= j < new_s.len() && i != j implies #[trigger] new_s[i].data.uuid
            != #[trigger] new_s[j].data.uuid by {
            if i != pos && j != pos {
                assert(new_s[i] == old_s[i] && new_s[j] == old_s[j]);
            } else if i == pos {
                assert(new_s[j] == old_s[j]);
            } else {
                assert(new_s[i] == old_s[i]);
            }
        }
    }
    assert(by_uuid(new_s) =~= by_uuid(old_s).insert(u, c)) by {
        assert forall|v: u128| #[trigger] has_uuid(new_s, v) == (v == u || has_uuid(old_s, v)) by {
            if v == u {
                assert(new_s[pos].data.uuid == u);
            } else {
                if has_uuid(new_s, v) {
                    let k = choose|k: int| 0 <= k < new_s.len() && #[trigger] new_s[k].data.uuid == v;
                    assert(k != pos);
                    assert(old_s[k].data.uuid == v);
                }
                if has_uuid(old_s, v) {
                    let k = choose|k: int| 0 <= k < old_s.len() && #[trigger] old_s[k].data.uuid == v;
                    assert(k != pos);
                    assert(new_s[k].data.uuid == v);
                }
            }
        }
        assert forall|v: u128| #[trigger] has_uuid(new_s, v) implies by_uuid(new_s)[v] == by_uuid(old_s).insert(
            u,
            c,
        )[v] by {
            if v == u {
                lemma_index_of_unique(new_s, pos);
            } else {
                let k = index_of_uuid(new_s, v);
                assert(new_s[k].data.uuid == v);
                assert(k != pos);
                lemma_index_of_unique(new_s, k);
                lemma_index_of_unique(old_s, k);
            }
        }
    }
}

/// Removing the entry at position `i` removes its id from the map by id.
pub proof fn lemma_remove_by_uuid(old_s: Seq<ClientView>, i: int, new_s: Seq<ClientView>)
    requires
        unique_uuids(old_s),
        0 <= i < old_s.len(),
        new_s == old_s.remove(i),
    ensures
        unique_uuids(new_s),
        by_uuid(new_s) == by_uuid(old_s).remove(old_s[i].data.uuid),
{
    let u = old_s[i].data.uuid;
    assert forall|k: int| 0 <= k < new_s.len() implies #[trigger] new_s[k] == old_s[if k < i { k } else { k + 1 }] by {}
    assert(unique_uuids(new_s)) by {
        assert forall|a: int, b: int|
            0 <= a < new_s.len() && 0 <= b < new_s.len() && a != b implies #[trigger] new_s[a].data.uuid
            != #[trigger] new_s[b].data.uuid by {
            let a2 = if a < i { a } else { a + 1 };
            let b2 = if b < i { b } else { b + 1 };
            assert(new_s[a] == old_s[a2] && new_s[b] == old_s[b2]);
        }
    }
    assert(by_uuid(new_s) =~= by_uuid(old_s).remove(u)) by {
        assert forall|v: u128| #[trigger] has_uuid(new_s, v) == (v != u && has_uuid(old_s, v)) by {
            if has_uuid(new_s, v) {
                let k = choose|k: int| 0 <= k < new_s.len() && #[trigger] new_s[k].data.uuid == v;
                let k2 = if k < i { k } else { k + 1 };
                assert(new_s[k] == old_s[k2]);
                assert(old_s[k2].data.uuid == v);
                assert(k2 != i);
            }
            if v != u && has_uuid(old_s, v) {
                let k = choose|k: int| 0 <= k < old_s.len() && #[trigger] old_s[k].data.uuid == v;
                assert(k != i);
                let k1 = if k < i { k } else { k - 1 };
                assert(new_s[k1] == old_s[k]);
                assert(new_s[k1].data.uuid == v);
            }
        }
        assert forall|v: u128| #[trigger] has_uuid(new_s, v) implies by_uuid(new_s)[v] == by_uuid(old_s)[v] by {
            let k = index_of_uuid(new_s, v);
            assert(new_s[k].data.uuid == v);
            let k2 = if k < i { k } else { k + 1 };
            assert(new_s[k] == old_s[k2]);
            lemma_index_of_unique(new_s, k);
            lemma_index_of_unique(old_s, k2);
        }
    }
}

} // verus!
