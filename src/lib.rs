//! Two-player networked chess: a verified rules engine, the wire format of
//! the messages the peers exchange, and the turn-taking session that ties
//! them together. Alongside them: a prime sieve and a forest check on
//! adjacency-list graphs.
pub mod board;
pub mod rules;
pub mod lemmas;
pub mod layout;
pub mod wire;
pub mod session;
pub mod sieve;
pub mod graph;
