//! Well-known ports, and what a server says about itself.

use vstd::prelude::*;
use crate::net::{SocketAddress, ipv4_spec};
use crate::registry::ClientRegistry;
use crate::packet::ClientView;

verus! {

/// TCP port on which a server answers with its `ServerInfo`.
pub const SERVER_STATUS_PORT: u16 = 4800;
/// UDP port for avatar poses.
pub const AVATAR_PACKET_PORT: u16 = 4801;
/// UDP port for voice.
pub const VOICE_COMM_PORT: u16 = 4082;
/// UDP port for client and server status messages.
pub const CLIENT_INFO_PORT: u16 = 4083;
/// UDP port on which a server echoes a peer's address back to it.
pub const SEND_BACK_PORT: u16 = 4084;

/// The world a server runs.
#[derive(Clone, Copy, Debug, PartialEq, Eq, Structural)]
pub enum WorldMap {
    FlatGrass,
}

/// A server's name, IPv4 address, connected players and world.
pub struct ServerInfo {
    pub name: String,
    pub ip: u32,
    pub players: ClientRegistry,
    pub map: WorldMap,
}

pub struct ServerInfoView {
    pub name: Seq<char>,
    pub ip: u32,
    pub players: Seq<ClientView>,
    pub map: WorldMap,
}

impl View for ServerInfo {
    type V = ServerInfoView;

    open spec fn view(&self) -> ServerInfoView {
        ServerInfoView { name: self.name@, ip: self.ip, players: self.players@, map: self.map }
    }
}

impl Clone for ServerInfo {
    fn clone(&self) -> (r: Self)
        ensures
            r@ == self@,
            r.players.wf() == self.players.wf(),
    {
        ServerInfo { name: self.name.clone(), ip: self.ip, players: self.players.clone(), map: self.map }
    }
}

/// A player as an older server listed it: where it is and what it is called.
pub struct ServerPlayerInfo {
    pub addr: SocketAddress,
    pub username: String,
}

/// The scale of the decimal digits of `r`: ten, a hundred or a thousand.
pub open spec fn decimal_scale(r: u8) -> int {
    if r < 10 {
        10
    } else if r < 100 {
        100
    } else {
        1000
    }
}

/// The port written as the digit `prefix` followed by the decimal digits of
/// `r`, as a client picks its local voice ("6" and a random byte) and avatar
/// ("7" and the same byte) ports.
pub fn prefixed_port(prefix: u16, r: u8) -> (p: u16)
    requires
        prefix <= 9,
    ensures
        p == prefix * decimal_scale(r) + r,
{
    let scale: u16 = if r < 10 {
        10
    } else if r < 100 {
        100
    } else {
        1000
    };
    prefix * scale + r as u16
}

/// The addresses at which the server at `ip` listens.
#[derive(Clone, Copy, Debug, PartialEq, Eq, Structural)]
pub struct ServerEndpoints {
    pub status: SocketAddress,
    pub info: SocketAddress,
    pub avatar: SocketAddress,
    pub audio: SocketAddress,
    pub send_back: SocketAddress,
}

impl ServerEndpoints {
    pub fn new(ip: u32) -> (r: ServerEndpoints)
        ensures
            r.status == (SocketAddress::V4 { ip, port: SERVER_STATUS_PORT }),
            r.info == (SocketAddress::V4 { ip, port: CLIENT_INFO_PORT }),
            r.avatar == (SocketAddress::V4 { ip, port: AVATAR_PACKET_PORT }),
            r.audio == (SocketAddress::V4 { ip, port: VOICE_COMM_PORT }),
            r.send_back == (SocketAddress::V4 { ip, port: SEND_BACK_PORT }),
    {
        ServerEndpoints {
            status: SocketAddress::V4 { ip, port: SERVER_STATUS_PORT },
            info: SocketAddress::V4 { ip, port: CLIENT_INFO_PORT },
            avatar: SocketAddress::V4 { ip, port: AVATAR_PACKET_PORT },
            audio: SocketAddress::V4 { ip, port: VOICE_COMM_PORT },
            send_back: SocketAddress::V4 { ip, port: SEND_BACK_PORT },
        }
    }
}

} // verus!
