//! The session registry: a store mapping each guild to its active voice
//! session, with at most one session per guild.
//!
//! Every operation is a plain map lookup, insert or remove; none performs
//! I/O. A driver that handles events concurrently serializes calls into the
//! registry (one critical section around each call) and performs transport
//! or resolver work only afterwards, from the returned values.

use vstd::prelude::*;
use vstd::hash_map::HashMapWithView;
use crate::ids::{ChannelId, GuildId};
use crate::session::{Playback, VoiceSession};

verus! {

broadcast use vstd::std_specs::hash::group_hash_axioms;

/// The session a guild holds after `join(guild, channel)`: a fresh,
/// unmuted, idle session if the guild had none, else the previous session
/// moved to `channel` (mute and playback state carried over).
pub open spec fn spec_joined_session(
    reg: Map<u64, VoiceSession>,
    guild: GuildId,
    channel: ChannelId,
) -> VoiceSession {
    if reg.contains_key(guild.id) {
        VoiceSession {
            channel,
            muted: reg[guild.id].muted,
            playback: reg[guild.id].playback,
        }
    } else {
        VoiceSession { channel, muted: false, playback: Playback::Idle }
    }
}

/// The session held for `guild` in a registry state, if any.
pub open spec fn spec_session_of(
    reg: Map<u64, VoiceSession>,
    guild: GuildId,
) -> Option<VoiceSession> {
    if reg.contains_key(guild.id) {
        Some(reg[guild.id])
    } else {
        None
    }
}

/// Maps each guild to the bot's active voice session there, if any.
///
/// The view is a finite map keyed by guild id, so at most one session can
/// exist per guild at any observation point.
pub struct SessionRegistry {
    sessions: HashMapWithView<u64, VoiceSession>,
}

impl View for SessionRegistry {
    type V = Map<u64, VoiceSession>;

    closed spec fn view(&self) -> Map<u64, VoiceSession> {
        self.sessions@
    }
}

impl SessionRegistry {
    /// An empty registry: the process starts connected nowhere.
    pub fn new() -> (r: SessionRegistry)
        ensures
            r@ == Map::<u64, VoiceSession>::empty(),
    {
        SessionRegistry { sessions: HashMapWithView::new() }
    }

    /// Creates a session for `guild` on `channel`, or moves the existing
    /// session there. Always records `channel`; never touches other guilds.
    pub fn join(&mut self, guild: GuildId, channel: ChannelId)
        ensures
            final(self)@ == old(self)@.insert(guild.id, spec_joined_session(old(self)@, guild, channel)),
    {
        let session = match self.sessions.remove(&guild.id) {
            Some(mut existing) => {
                existing.channel = channel;
                existing
            },
            None => VoiceSession::new(channel),
        };
        self.sessions.insert(guild.id, session);
        proof {
            assert(self.sessions@ =~= old(self)@.insert(
                guild.id,
                spec_joined_session(old(self)@, guild, channel),
            ));
        }
    }

    /// Removes the session of `guild` if one exists; reports whether
    /// anything was removed. Without a session this is a no-op.
    pub fn leave(&mut self, guild: GuildId) -> (removed: bool)
        ensures
            removed == old(self)@.contains_key(guild.id),
            final(self)@ == old(self)@.remove(guild.id),
    {
        let r = self.sessions.remove(&guild.id).is_some();
        proof {
            assert(self.sessions@ =~= old(self)@.remove(guild.id));
        }
        r
    }

    /// Looks up the session of `guild`; `None` means the bot is not
    /// connected in that guild.
    pub fn get(&self, guild: GuildId) -> (r: Option<&VoiceSession>)
        ensures
            match r {
                Some(s) => spec_session_of(self@, guild) == Some(*s),
                None => spec_session_of(self@, guild) is None,
            },
    {
        self.sessions.get(&guild.id)
    }

    /// True if a session exists for `guild`.
    pub fn contains(&self, guild: GuildId) -> (r: bool)
        ensures
            r == self@.contains_key(guild.id),
    {
        self.sessions.contains_key(&guild.id)
    }

    /// Sets the mute flag of `guild`'s session; reports whether a session
    /// existed. Without a session the registry is unchanged.
    pub fn set_muted(&mut self, guild: GuildId, muted: bool) -> (existed: bool)
        ensures
            existed == old(self)@.contains_key(guild.id),
            existed ==> final(self)@ == old(self)@.insert(
                guild.id,
                VoiceSession {
                    channel: old(self)@[guild.id].channel,
                    muted,
                    playback: old(self)@[guild.id].playback,
                },
            ),
            !existed ==> final(self)@ == old(self)@,
    {
        match self.sessions.remove(&guild.id) {
            Some(mut session) => {
                session.muted = muted;
                self.sessions.insert(guild.id, session);
                proof {
                    assert(self.sessions@ =~= old(self)@.insert(
                        guild.id,
                        VoiceSession {
                            channel: old(self)@[guild.id].channel,
                            muted,
                            playback: old(self)@[guild.id].playback,
                        },
                    ));
                }
                true
            },
            None => false,
        }
    }

    /// Replaces the playback of `guild`'s session with `Playing(source)`;
    /// reports whether a session existed. Without a session the registry is
    /// unchanged.
    pub fn set_playing(&mut self, guild: GuildId, source: String) -> (existed: bool)
        ensures
            existed == old(self)@.contains_key(guild.id),
            existed ==> final(self)@ == old(self)@.insert(
                guild.id,
                VoiceSession {
                    channel: old(self)@[guild.id].channel,
                    muted: old(self)@[guild.id].muted,
                    playback: Playback::Playing { source },
                },
            ),
            !existed ==> final(self)@ == old(self)@,
    {
        match self.sessions.remove(&guild.id) {
            Some(mut session) => {
                session.playback = Playback::Playing { source };
                self.sessions.insert(guild.id, session);
                proof {
                    assert(self.sessions@ =~= old(self)@.insert(
                        guild.id,
                        VoiceSession {
                            channel: old(self)@[guild.id].channel,
                            muted: old(self)@[guild.id].muted,
                            playback: Playback::Playing { source },
                        },
                    ));
                }
                true
            },
            None => false,
        }
    }
}

} // verus!
