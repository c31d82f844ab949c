//! The per-guild voice session record.

use vstd::prelude::*;
use crate::ids::ChannelId;

verus! {

/// What the bot is currently playing in a session.
#[derive(Clone, PartialEq, Eq, Debug)]
pub enum Playback {
    /// Nothing queued.
    Idle,
    /// Playing the stream resolved from `source`.
    Playing { source: String },
}

/// The bot's connection state to one voice channel of a guild.
///
/// A value exists only while the bot is connected in that guild; the
/// registry owns at most one per guild.
#[derive(Clone, PartialEq, Eq, Debug)]
pub struct VoiceSession {
    /// The channel the bot is connected to.
    pub channel: ChannelId,
    /// Whether the bot muted itself.
    pub muted: bool,
    /// Current playback state.
    pub playback: Playback,
}

impl VoiceSession {
    /// A session as created by a fresh connection: unmuted, nothing playing.
    pub fn new(channel: ChannelId) -> (s: VoiceSession)
        ensures
            s == (VoiceSession { channel, muted: false, playback: Playback::Idle }),
    {
        VoiceSession { channel, muted: false, playback: Playback::Idle }
    }
}

} // verus!
