//! What clients and the server tell each other on the info channel.

use vstd::prelude::*;
use crate::net::SocketAddress;
use crate::ports::ServerInfo;
use crate::ports::ServerInfoView;

verus! {

/// Who a client is: a display name and a 128-bit id (the bits of its UUID).
pub struct ClientData {
    pub name: String,
    pub uuid: u128,
}

pub struct ClientDataView {
    pub name: Seq<char>,
    pub uuid: u128,
}

impl View for ClientData {
    type V = ClientDataView;

    open spec fn view(&self) -> ClientDataView {
        ClientDataView { name: self.name@, uuid: self.uuid }
    }
}

impl Clone for ClientData {
    fn clone(&self) -> (r: Self)
        ensures
            r@ == self@,
    {
        ClientData { name: self.name.clone(), uuid: self.uuid }
    }
}

/// The three addresses, as the server sees them, at which a client listens:
/// info, avatar poses and voice.
#[derive(Clone, Copy, Debug, PartialEq, Eq, Structural)]
pub struct ClientAddresses {
    pub info_addr: SocketAddress,
    pub avatar_networking_addr: SocketAddress,
    pub audio_addr: SocketAddress,
}

/// A connected client: who it is and where it listens.
pub struct Client {
    pub data: ClientData,
    pub addrs: ClientAddresses,
}

pub struct ClientView {
    pub data: ClientDataView,
    pub addrs: ClientAddresses,
}

impl View for Client {
    type V = ClientView;

    open spec fn view(&self) -> ClientView {
        ClientView { data: self.data@, addrs: self.addrs }
    }
}

impl Clone for Client {
    fn clone(&self) -> (r: Self)
        ensures
            r@ == self@,
    {
        Client { data: self.data.clone(), addrs: self.addrs }
    }
}

impl Client {
    /// A client made of its identity and the addresses the server reported.
    pub fn new(data: ClientData, addrs: ClientAddresses) -> (r: Client)
        ensures
            r@ == (ClientView { data: data@, addrs }),
    {
        Client { data, addrs }
    }
}

/// What a client tells the server.
pub enum ClientStatus {
    Connect(Client),
    ClientInfo(Client),
    Disconnect(u128),
    Heartbeat,
}

pub enum ClientStatusView {
    Connect(ClientView),
    ClientInfo(ClientView),
    Disconnect(u128),
    Heartbeat,
}

impl View for ClientStatus {
    type V = ClientStatusView;

    open spec fn view(&self) -> ClientStatusView {
        match self {
            ClientStatus::Connect(c) => ClientStatusView::Connect(c@),
            ClientStatus::ClientInfo(c) => ClientStatusView::ClientInfo(c@),
            ClientStatus::Disconnect(u) => ClientStatusView::Disconnect(*u),
            ClientStatus::Heartbeat => ClientStatusView::Heartbeat,
        }
    }
}

/// What the server tells a client.
pub enum ServerStatus {
    ServerInfo(ServerInfo),
    Kick,
    ClientDisconnected(u128),
    ClientConnected(Client),
    Heartbeat,
}

pub enum ServerStatusView {
    ServerInfo(ServerInfoView),
    Kick,
    ClientDisconnected(u128),
    ClientConnected(ClientView),
    Heartbeat,
}

impl View for ServerStatus {
    type V = ServerStatusView;

    open spec fn view(&self) -> ServerStatusView {
        match self {
            ServerStatus::ServerInfo(info) => ServerStatusView::ServerInfo(info@),
            ServerStatus::Kick => ServerStatusView::Kick,
            ServerStatus::ClientDisconnected(u) => ServerStatusView::ClientDisconnected(*u),
            ServerStatus::ClientConnected(c) => ServerStatusView::ClientConnected(c@),
            ServerStatus::Heartbeat => ServerStatusView::Heartbeat,
        }
    }
}

} // verus!
