//! Core of a voice-channel companion bot: a per-guild session registry and
//! the state machine that reacts to presence events and text commands.
//!
//! The library holds the decision logic only. The platform gateway, the
//! audio resolver and the message sink are external collaborators: a driver
//! feeds events and lookup results in as plain values and performs the
//! returned actions.

pub mod commands;
pub mod ids;
pub mod laws;
pub mod machine;
pub mod presence;
pub mod registry;
pub mod resolve;
pub mod session;
