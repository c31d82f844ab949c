//! The voice session state machine for presence events.
//!
//! One user's channel transition (join, move or leave) decides whether the
//! bot connects, greets, or disconnects. The decision and the registry
//! update happen here; the transport and resolver work is returned as an
//! [`Action`] for the driver to perform afterwards.

use vstd::prelude::*;
use crate::ids::{ChannelId, GuildId, UserId};
use crate::presence::{human_occupants, spec_human_occupants};
use crate::registry::{spec_joined_session, SessionRegistry};
use crate::resolve::ResolveError;
use crate::session::{Playback, VoiceSession};

verus! {

/// One user's voice-channel transition, as delivered by the gateway.
/// `old_channel`/`new_channel` are the channels before and after; `None`
/// means the user was, or is, in no voice channel of the guild.
#[derive(Clone, Copy, Debug)]
pub struct VoiceStateEvent {
    pub guild: GuildId,
    pub user: UserId,
    pub old_channel: Option<ChannelId>,
    pub new_channel: Option<ChannelId>,
}

/// Outside work a decision asks the driver to perform, after the registry
/// update is already recorded.
#[derive(Clone, Copy, PartialEq, Eq, Debug, Structural)]
pub enum Action {
    /// Connect the transport to `channel` in `guild`, silently.
    Connect { guild: GuildId, channel: ChannelId },
    /// Connect the transport to `channel` in `guild`, then resolve and play
    /// the greeting of `user` there.
    ConnectAndGreet { guild: GuildId, channel: ChannelId, user: UserId },
    /// Disconnect the transport from `guild`.
    Disconnect { guild: GuildId },
    /// Mute or unmute the transport in `guild`.
    SetMute { guild: GuildId, muted: bool },
}

/// The registry contents after one presence event.
///
/// A user entering a channel (or moving to a different one) makes the bot
/// join that channel. A user leaving makes the bot disconnect exactly when
/// the freshly snapshotted channel membership holds no human and a session
/// exists. The bot's own transitions, and moves to the same channel,
/// change nothing.
pub open spec fn spec_voice_step(
    reg: Map<u64, VoiceSession>,
    ev: VoiceStateEvent,
    bot: UserId,
    snapshot: Seq<UserId>,
) -> Map<u64, VoiceSession> {
    if ev.user == bot {
        reg
    } else {
        match (ev.old_channel, ev.new_channel) {
            (Option::None, Option::Some(c)) => reg.insert(
                ev.guild.id,
                spec_joined_session(reg, ev.guild, c),
            ),
            (Option::Some(a), Option::Some(b)) => if a == b {
                reg
            } else {
                reg.insert(ev.guild.id, spec_joined_session(reg, ev.guild, b))
            },
            (Option::Some(a), Option::None) => if spec_human_occupants(snapshot, bot) == 0
                && reg.contains_key(ev.guild.id) {
                reg.remove(ev.guild.id)
            } else {
                reg
            },
            (Option::None, Option::None) => reg,
        }
    }
}

/// The outside work asked for by one presence event: a greeted connection
/// for each join or move, a disconnection for each auto-leave, nothing
/// otherwise.
pub open spec fn spec_voice_action(
    reg: Map<u64, VoiceSession>,
    ev: VoiceStateEvent,
    bot: UserId,
    snapshot: Seq<UserId>,
) -> Option<Action> {
    if ev.user == bot {
        Option::None
    } else {
        match (ev.old_channel, ev.new_channel) {
            (Option::None, Option::Some(c)) => Option::Some(
                Action::ConnectAndGreet { guild: ev.guild, channel: c, user: ev.user },
            ),
            (Option::Some(a), Option::Some(b)) => if a == b {
                Option::None
            } else {
                Option::Some(
                    Action::ConnectAndGreet { guild: ev.guild, channel: b, user: ev.user },
                )
            },
            (Option::Some(a), Option::None) => if spec_human_occupants(snapshot, bot) == 0
                && reg.contains_key(ev.guild.id) {
                Option::Some(Action::Disconnect { guild: ev.guild })
            } else {
                Option::None
            },
            (Option::None, Option::None) => Option::None,
        }
    }
}

/// Applies one presence event to the registry and returns the outside work
/// the driver must perform.
///
/// `old_channel_members` must be a membership snapshot of the channel the
/// user left, taken fresh at this event; it is read only for leave-type
/// events. The driver serializes calls into the registry and performs the
/// action only after this call returns.
pub fn handle_voice_event(
    registry: &mut SessionRegistry,
    bot: UserId,
    ev: &VoiceStateEvent,
    old_channel_members: &Vec<UserId>,
) -> (action: Option<Action>)
    ensures
        final(registry)@ == spec_voice_step(old(registry)@, *ev, bot, old_channel_members@),
        action == spec_voice_action(old(registry)@, *ev, bot, old_channel_members@),
{
    if ev.user == bot {
        return None;
    }
    match (ev.old_channel, ev.new_channel) {
        (None, Some(c)) => {
            registry.join(ev.guild, c);
            Some(Action::ConnectAndGreet { guild: ev.guild, channel: c, user: ev.user })
        },
        (Some(a), Some(b)) => {
            if a == b {
                None
            } else {
                registry.join(ev.guild, b);
                Some(Action::ConnectAndGreet { guild: ev.guild, channel: b, user: ev.user })
            }
        },
        (Some(_a), None) => {
            let humans = human_occupants(old_channel_members, bot);
            if humans == 0 && registry.contains(ev.guild) {
                registry.leave(ev.guild);
                Some(Action::Disconnect { guild: ev.guild })
            } else {
                None
            }
        },
        (None, None) => None,
    }
}

/// Records the outcome of resolving a greeting source for `guild`.
///
/// On resolver success the session's playback becomes `Playing(source)`;
/// on failure, or if the session is gone by the time the resolver
/// returned, the registry is left unchanged. Returns whether playback
/// started.
pub fn apply_greeting_outcome(
    registry: &mut SessionRegistry,
    guild: GuildId,
    source: String,
    resolved: Result<(), ResolveError>,
) -> (played: bool)
    ensures
        played == (resolved is Ok && old(registry)@.contains_key(guild.id)),
        played ==> final(registry)@ == old(registry)@.insert(
            guild.id,
            VoiceSession {
                channel: old(registry)@[guild.id].channel,
                muted: old(registry)@[guild.id].muted,
                playback: Playback::Playing { source },
            },
        ),
        !played ==> final(registry)@ == old(registry)@,
{
    match resolved {
        Ok(()) => registry.set_playing(guild, source),
        Err(_) => false,
    }
}

/// Auto-leave correctness: after a leave-type presence event for a human
/// user, the bot holds no session for the guild exactly when the fresh
/// snapshot of the left channel held no human, or no session existed in
/// the first place. A snapshot with humans present leaves the registry
/// untouched, so a stale or duplicated event can neither disconnect early
/// nor miss a disconnection.
pub proof fn lemma_auto_leave(
    reg: Map<u64, VoiceSession>,
    ev: VoiceStateEvent,
    bot: UserId,
    snapshot: Seq<UserId>,
)
    requires
        ev.user != bot,
        ev.old_channel is Some,
        ev.new_channel is None,
    ensures
        !spec_voice_step(reg, ev, bot, snapshot).contains_key(ev.guild.id) <==> (
        spec_human_occupants(snapshot, bot) == 0 || !reg.contains_key(ev.guild.id)),
        spec_human_occupants(snapshot, bot) > 0 ==> spec_voice_step(reg, ev, bot, snapshot)
            == reg,
{
}

/// Processing the same leave-type event twice, with the same snapshot,
/// leaves the registry exactly as processing it once: the occupant count
/// is recomputed from the snapshot, never from retained state.
pub proof fn lemma_leave_event_idempotent(
    reg: Map<u64, VoiceSession>,
    ev: VoiceStateEvent,
    bot: UserId,
    snapshot: Seq<UserId>,
)
    requires
        ev.old_channel is Some,
        ev.new_channel is None,
    ensures
        spec_voice_step(spec_voice_step(reg, ev, bot, snapshot), ev, bot, snapshot)
            == spec_voice_step(reg, ev, bot, snapshot),
{
}

/// A presence event that still leaves the user in some channel never
/// disconnects the bot: sessions are only removed by leave-type events or
/// by the explicit leave command.
pub proof fn lemma_no_disconnect_without_leave(
    reg: Map<u64, VoiceSession>,
    ev: VoiceStateEvent,
    bot: UserId,
    snapshot: Seq<UserId>,
    guild: GuildId,
)
    requires
        ev.new_channel is Some,
    ensures
        reg.contains_key(guild.id) ==> spec_voice_step(reg, ev, bot, snapshot).contains_key(
            guild.id,
        ),
{
}

} // verus!
