//! Opaque identifiers handed out by the chat platform.
//!
//! Guilds, channels and users are identified by numeric ids. The core
//! assumes no structure beyond equality.

use vstd::prelude::*;

verus! {

/// Identifier of a guild (one chat-server instance).
#[derive(Clone, Copy, PartialEq, Eq, Hash, Debug, Structural)]
pub struct GuildId {
    pub id: u64,
}

/// Identifier of a voice channel within a guild.
#[derive(Clone, Copy, PartialEq, Eq, Hash, Debug, Structural)]
pub struct ChannelId {
    pub id: u64,
}

/// Identifier of a user.
#[derive(Clone, Copy, PartialEq, Eq, Hash, Debug, Structural)]
pub struct UserId {
    pub id: u64,
}

} // verus!
