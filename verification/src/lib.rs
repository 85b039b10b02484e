//! Blackjack table engine: cards and hand values, the round state, the player
//! and dealer commands that turn a request into events, the fold of events
//! back into the state, and the decisions of the WebSocket session and of the
//! terminal client.

pub mod ids;
pub mod cards;
pub mod phase;
pub mod error;
pub mod event;
pub mod state;
pub mod commands;
pub mod laws;
pub mod shoe;
pub mod session;
pub mod client;
pub mod popup;
