//! A single node of a Chord-style consistent-hashing key-value ring: ring
//! arithmetic, the node's routing and storage state, the wire messages, and
//! the message handler that drives the state from inbound messages and timer
//! ticks.
pub mod handler;
pub mod hash;
pub mod kv;
pub mod msg;
pub mod node;
