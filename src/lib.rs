//! Screen mirroring between an e-reader and a host machine: the wire
//! messages and their codec, the click coordinate mapping, the two delivery
//! channels, the connection state machines of both ends, and the reading of
//! the device's display size.

pub mod api;
pub mod codec;
pub mod transform;
pub mod channel;
pub mod client;
pub mod server;
pub mod device;
