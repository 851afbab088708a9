//! Connection and protocol core of a session-based card game server.
//!
//! The crate covers the wire format (packet framing and checksum), the
//! per-connection state machine (temporary handle, authenticated client,
//! disconnected client, reconnection with missed-packet replay), the
//! dispatcher that routes validated packets, and the registry of
//! authenticated clients.  All socket, HTTP and serialisation plumbing is
//! kept outside: the functions here work on plain values and report, for
//! every outcome of the outside world, exactly what the server does next.

pub mod checksum;
pub mod client;
pub mod deck;
pub mod errors;
pub mod header;
pub mod packet;
pub mod player;
pub mod protocol;
pub mod requests;
pub mod server;
pub mod views;
