//! Peer-to-peer connection negotiation and relayed service dispatch.
//!
//! The crate holds the decision logic of a node that sets up authenticated
//! data channels with its peers and answers tunnelled service requests. All
//! of it is written without I/O: every operation that needs the native
//! connectivity stack, the signing subsystem or the network is expressed as a
//! request that the embedding program performs, and whose outcome it hands
//! back.

pub mod backend;
pub mod channel;
pub mod error;
pub mod signing;
pub mod text;
pub mod transport;
