//! Fanning packets out to everyone else: the server's avatar and voice
//! relays, and the simpler broadcast hubs.

use vstd::prelude::*;
use crate::net::SocketAddress;
use crate::packet::ClientView;
use crate::registry::ClientRegistry;

verus! {

/// Which of a client's addresses a relay serves.
#[derive(Clone, Copy, Debug, PartialEq, Eq, Structural)]
pub enum RelayChannel {
    Avatar,
    Audio,
}

/// The address of `c` that a relay on `channel` sends to.
pub open spec fn channel_addr(c: ClientView, channel: RelayChannel) -> SocketAddress {
    match channel {
        RelayChannel::Avatar => c.addrs.avatar_networking_addr,
        RelayChannel::Audio => c.addrs.audio_addr,
    }
}

/// The channel addresses of the clients in `s`, in order, except those equal
/// to `from`.
pub open spec fn relay_addrs(s: Seq<ClientView>, from: SocketAddress, channel: RelayChannel) -> Seq<SocketAddress>
    decreases s.len(),
{
    if s.len() == 0 {
        Seq::empty()
    } else {
        let rest = relay_addrs(s.drop_last(), from, channel);
        let a = channel_addr(s.last(), channel);
        if a == from {
            rest
        } else {
            rest.push(a)
        }
    }
}

/// Where a relay forwards a packet that came from `from`: the `channel`
/// address of every registered client, in registry order, except the sender's.
pub fn relay_targets(clients: &ClientRegistry, from: SocketAddress, channel: RelayChannel) -> (r: Vec<SocketAddress>)
    ensures
        r@ == relay_addrs(clients@, from, channel),
{
    let mut r: Vec<SocketAddress> = Vec::new();
    let mut i: usize = 0;
    while i < clients.len()
        invariant
            i <= clients@.len(),
            r@ == relay_addrs(clients@.subrange(0, i as int), from, channel),
        decreases clients@.len() - i,
    {
        let c = clients.get(i);
        let a = match channel {
            RelayChannel::Avatar => c.addrs.avatar_networking_addr,
            RelayChannel::Audio => c.addrs.audio_addr,
        };
        assert(clients@.subrange(0, i + 1).drop_last() =~= clients@.subrange(0, i as int));
        if a != from {
            r.push(a);
        }
        i = i + 1;
    }
    assert(clients@.subrange(0, i as int) =~= clients@);
    r
}

/// A relay never sends a packet back to its sender, and sends it to every
/// client whose address on the channel is not the sender's.
pub proof fn law_relay_skips_only_sender(s: Seq<ClientView>, from: SocketAddress, channel: RelayChannel)
    ensures
        forall|k: int| 0 <= k < relay_addrs(s, from, channel).len() ==> #[trigger] relay_addrs(s, from, channel)[k] != from,
        forall|i: int|
            0 <= i < s.len() && channel_addr(#[trigger] s[i], channel) != from ==> relay_addrs(s, from, channel).contains(
                channel_addr(s[i], channel),
            ),
    decreases s.len(),
{
    if s.len() > 0 {
        let p = s.drop_last();
        law_relay_skips_only_sender(p, from, channel);
        let rest = relay_addrs(p, from, channel);
        assert forall|i: int|
            0 <= i < s.len() && channel_addr(#[trigger] s[i], channel) != from implies relay_addrs(
            s,
            from,
            channel,
        ).contains(channel_addr(s[i], channel)) by {
            if i < s.len() - 1 {
                assert(p[i] == s[i]);
                let k = choose|k: int| 0 <= k < rest.len() && rest[k] == channel_addr(p[i], channel);
                if channel_addr(s.last(), channel) != from {
                    assert(rest.push(channel_addr(s.last(), channel))[k] == rest[k]);
                }
            } else {
                assert(relay_addrs(s, from, channel).last() == channel_addr(s[i], channel));
            }
        }
    }
}

/// The peers a broadcast server has seen connect, in order; a peer that
/// connects again is listed again.
pub struct BroadcastHub {
    addresses: Vec<SocketAddress>,
}

impl View for BroadcastHub {
    type V = Seq<SocketAddress>;

    closed spec fn view(&self) -> Seq<SocketAddress> {
        self.addresses@
    }
}

/// How many channels a uflow connection has; a channel id must be below it.
pub const UFLOW_CHANNEL_COUNT: usize = 64;

impl BroadcastHub {
    pub fn new() -> (r: BroadcastHub)
        ensures
            r@ == Seq::<SocketAddress>::empty(),
    {
        BroadcastHub { addresses: Vec::new() }
    }

    /// Records a peer that connected.
    pub fn on_connect(&mut self, addr: SocketAddress)
        ensures
            final(self)@ == old(self)@.push(addr),
    {
        self.addresses.push(addr);
    }

    /// Where a received packet goes: to every recorded peer, the sender
    /// included, in order.
    pub fn targets(&self) -> (r: Vec<SocketAddress>)
        ensures
            r@ == self@,
    {
        let mut r: Vec<SocketAddress> = Vec::new();
        let mut i: usize = 0;
        while i < self.addresses.len()
            invariant
                i <= self.addresses.len(),
                r@ == self@.subrange(0, i as int),
            decreases self.addresses.len() - i,
        {
            r.push(self.addresses[i]);
            i = i + 1;
            assert(r@ =~= self@.subrange(0, i as int));
        }
        assert(self@.subrange(0, i as int) =~= self@);
        r
    }

    /// Where a received packet goes on a uflow server, each peer on the
    /// channel numbered by its position.
    pub fn channel_targets(&self) -> (r: Vec<(SocketAddress, usize)>)
        requires
            self@.len() <= UFLOW_CHANNEL_COUNT,
        ensures
            r@.len() == self@.len(),
            forall|i: int| 0 <= i < r@.len() ==> #[trigger] r@[i] == (self@[i], i as usize),
    {
        let mut r: Vec<(SocketAddress, usize)> = Vec::new();
        let mut i: usize = 0;
        while i < self.addresses.len()
            invariant
                i <= self.addresses.len(),
                r@.len() == i,
                forall|k: int| 0 <= k < i ==> #[trigger] r@[k] == (self@[k], k as usize),
            decreases self.addresses.len() - i,
        {
            r.push((self.addresses[i], i));
            i = i + 1;
        }
        r
    }

    /// How many peers are recorded.
    pub fn len(&self) -> (r: usize)
        ensures
            r == self@.len(),
    {
        self.addresses.len()
    }
}

} // verus!
