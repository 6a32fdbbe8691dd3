//! Building blocks for nodes of a simulated distributed system that talk in
//! line-delimited JSON envelopes: the envelope and its reply rule, a per-node
//! message-id counter, the init handshake, and three node kinds (echo,
//! unique ids, and flooding broadcast over a fixed topology).
//!
//! Every node kind is a state machine: it takes one inbound envelope and hands
//! back the envelopes to send, in order. Reading, writing and threads are left
//! to the program that drives the nodes.

pub mod broadcast;
pub mod echo;
pub mod handshake;
pub mod id_gen;
pub mod laws;
pub mod message;
pub mod node;
pub mod unique_id;

pub use broadcast::{BroadcastNode, BroadcastPayload, BroadcastState};
pub use echo::{EchoNode, EchoPayload};
pub use handshake::{handshake, Init, InitPayload};
pub use id_gen::IdGenerator;
pub use message::{Body, Message};
pub use node::{Fault, Node};
pub use unique_id::{decimal_string, GeneratePayload, UniqueIdNode, UniqueIdState};
