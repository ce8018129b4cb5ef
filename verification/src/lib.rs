//! Networking core of a small multi-user VR space: the address model and its
//! wire format, the server's client registry and info protocol, the relays
//! that fan avatar and voice packets out, the client's roster, the VRM bone
//! table, and the persisted application settings.

pub mod net;
pub mod packet;
pub mod ports;
pub mod registry;
pub mod info_server;
pub mod relay;
pub mod roster;
pub mod laminar_helper;
pub mod skeleton;
pub mod resources;
pub mod avatar;
pub mod pacing;
pub mod position;
pub mod session;
