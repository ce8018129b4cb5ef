//! The client side of the info channel's lifetime: hello, heartbeats, goodbye.

use vstd::prelude::*;
use crate::packet::{Client, ClientStatus, ClientStatusView};

verus! {

/// The first message a client sends on its info channel: itself.
pub fn opening_message(client: &Client) -> (r: ClientStatus)
    ensures
        r@ == ClientStatusView::Connect(client@),
{
    ClientStatus::Connect(client.clone())
}

/// The messages one pass of the client's info loop sends: always a
/// heartbeat, then, once the connection was asked to close, the goodbye
/// with the client's id, after which the loop ends.
pub fn info_pass_messages(client: &Client, disconnect_requested: bool) -> (r: Vec<ClientStatus>)
    ensures
        r@.map_values(|m: ClientStatus| m@) == if disconnect_requested {
            seq![ClientStatusView::Heartbeat, ClientStatusView::Disconnect(client.data.uuid)]
        } else {
            seq![ClientStatusView::Heartbeat]
        },
{
    let mut r: Vec<ClientStatus> = Vec::new();
    r.push(ClientStatus::Heartbeat);
    if disconnect_requested {
        r.push(ClientStatus::Disconnect(client.data.uuid));
        assert(r@.map_values(|m: ClientStatus| m@) =~= seq![
            ClientStatusView::Heartbeat,
            ClientStatusView::Disconnect(client.data.uuid),
        ]);
    } else {
        assert(r@.map_values(|m: ClientStatus| m@) =~= seq![ClientStatusView::Heartbeat]);
    }
    r
}

} // verus!
