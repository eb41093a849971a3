//! Decisions of a committee relay: who may forward a message to which
//! committee, how a forwarded request moves from posting through the vote to
//! the relay of replies, and which roles a member gains or loses on joining a
//! committee.

pub mod args;
pub mod auth;
pub mod builder;
pub mod config;
pub mod decimal;
pub mod laws;
pub mod messages;
pub mod relay;
pub mod roles;
