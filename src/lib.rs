//! Session lifecycle and inbound packet pipeline for a mesh radio device.
//!
//! The library holds the decisions of a device session: which frames become
//! packets, in what order they are delivered, when the listener stops, how a
//! session is established and torn down. The caller performs the I/O that
//! those decisions ask for. Beside it stand the weather conditions and the
//! expiring forecast cache of the bot's weather client.

mod mesh;

pub mod cache;
pub mod channel;
pub mod decoder;
pub mod error;
pub mod forecast;
pub mod frame;
pub mod handshake;
pub mod listener;
pub mod message;
pub mod node_id;
pub mod packet;
pub mod session;
pub mod weather;

pub use message::MAX_PAYLOAD_SIZE;
