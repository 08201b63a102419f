//! A conversational intake flow for a peer-to-peer classifieds bot.
//!
//! The library walks a user through a fixed sequence of questions (device
//! name, condition rating, included components, price, meeting method,
//! photos, additional information) and produces a structured listing.
//! Its heart is a pure dialogue state machine: per-user conversation state,
//! validated transitions, and the guarantee that exactly one coherent state
//! exists per user at any time.

pub mod controller;
pub mod event;
pub mod listing;
pub mod machine;
pub mod state;
pub mod store;
pub mod validate;
