//! Laws of the registry under whole histories of events and commands.
//!
//! [`apply_ops`] folds any interleaving of presence events and
//! registry-mutating commands over a starting registry, using the same
//! spec-level steps that the executable operations are proved to follow.

use vstd::prelude::*;
use crate::ids::{ChannelId, GuildId, UserId};
use crate::machine::{spec_voice_step, VoiceStateEvent};
use crate::registry::{spec_joined_session, spec_session_of};
use crate::session::{Playback, VoiceSession};

verus! {

/// One step applied to the registry: a presence event together with the
/// fresh membership snapshot it was handled with, or one of the
/// registry-mutating command operations.
pub enum RegistryOp {
    Presence { ev: VoiceStateEvent, snapshot: Seq<UserId> },
    Join { guild: GuildId, channel: ChannelId },
    Leave { guild: GuildId },
    SetMuted { guild: GuildId, muted: bool },
    SetPlaying { guild: GuildId, source: String },
}

/// The registry contents after one step, exactly as the executable
/// operations' contracts describe them.
pub open spec fn apply_op(
    reg: Map<u64, VoiceSession>,
    op: RegistryOp,
    bot: UserId,
) -> Map<u64, VoiceSession> {
    match op {
        RegistryOp::Presence { ev, snapshot } => spec_voice_step(reg, ev, bot, snapshot),
        RegistryOp::Join { guild, channel } => reg.insert(
            guild.id,
            spec_joined_session(reg, guild, channel),
        ),
        RegistryOp::Leave { guild } => if reg.contains_key(guild.id) {
            reg.remove(guild.id)
        } else {
            reg
        },
        RegistryOp::SetMuted { guild, muted } => if reg.contains_key(guild.id) {
            reg.insert(
                guild.id,
                VoiceSession {
                    channel: reg[guild.id].channel,
                    muted,
                    playback: reg[guild.id].playback,
                },
            )
        } else {
            reg
        },
        RegistryOp::SetPlaying { guild, source } => if reg.contains_key(guild.id) {
            reg.insert(
                guild.id,
                VoiceSession {
                    channel: reg[guild.id].channel,
                    muted: reg[guild.id].muted,
                    playback: Playback::Playing { source },
                },
            )
        } else {
            reg
        },
    }
}

/// The registry contents after a whole history of steps.
pub open spec fn apply_ops(
    reg: Map<u64, VoiceSession>,
    ops: Seq<RegistryOp>,
    bot: UserId,
) -> Map<u64, VoiceSession>
    decreases ops.len(),
{
    if ops.len() == 0 {
        reg
    } else {
        apply_op(apply_ops(reg, ops.drop_last(), bot), ops.last(), bot)
    }
}

/// At most one session exists per guild at any observation point: after
/// any history of presence events and commands, two sessions observed for
/// the same guild are the same session. The registry state is a finite
/// map keyed by guild, so no interleaving can make a guild hold two.
pub proof fn lemma_at_most_one_session_per_guild(
    reg0: Map<u64, VoiceSession>,
    ops: Seq<RegistryOp>,
    bot: UserId,
    guild: GuildId,
    s1: VoiceSession,
    s2: VoiceSession,
)
    requires
        spec_session_of(apply_ops(reg0, ops, bot), guild) == Some(s1),
        spec_session_of(apply_ops(reg0, ops, bot), guild) == Some(s2),
    ensures
        s1 == s2,
{
}

/// Leaving a guild that holds no session changes nothing: the leave step
/// is a no-op on such a registry, so repeated leaves are as harmless as
/// the first.
pub proof fn lemma_leave_without_session_is_noop(
    reg: Map<u64, VoiceSession>,
    guild: GuildId,
    bot: UserId,
)
    requires
        !reg.contains_key(guild.id),
    ensures
        apply_op(reg, RegistryOp::Leave { guild }, bot) == reg,
{
}

} // verus!
