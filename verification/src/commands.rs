//! The command dispatcher: maps an inbound text command to registry
//! operations and a user-facing reply.
//!
//! Preconditions (guild context, user in a channel, well-formed argument)
//! are validated before the registry is touched, and every command path
//! yields exactly one reply: directly, from the resolver outcome of a
//! `play`, or from the file-management collaborator for uploads and
//! deletions.

use vstd::prelude::*;
use crate::ids::{ChannelId, GuildId, UserId};
use crate::machine::Action;
use crate::registry::{spec_joined_session, SessionRegistry};
use crate::resolve::{has_http_prefix, spec_has_http_prefix, ResolveError};
use crate::session::{Playback, VoiceSession};

verus! {

/// The commands the dispatcher understands.
#[derive(Clone, Copy, PartialEq, Eq, Debug, Structural)]
pub enum CommandKind {
    Join,
    Leave,
    Mute,
    Unmute,
    Play,
    Ping,
    Help,
    Upload,
    Delete,
}

/// One inbound command, already tokenized by the text front end.
/// `guild` is `None` when the message arrived outside a guild (a direct
/// message or group chat).
#[derive(Clone, Debug)]
pub struct CommandMessage {
    pub guild: Option<GuildId>,
    pub channel: ChannelId,
    pub author: UserId,
    pub command: CommandKind,
    pub args: Vec<String>,
}

/// Every user-facing reply the core can decide on its own. `Joined` and
/// `Help` carry or need data the driver formats; the rest have a fixed
/// wording, given by [`Reply::text`].
#[derive(Clone, Copy, PartialEq, Eq, Debug, Structural)]
pub enum Reply {
    GroupsAndDmsNotSupported,
    NotInVoiceChannel,
    Joined { channel: ChannelId },
    LeftVoiceChannel,
    AlreadyMuted,
    NowMuted,
    Unmuted,
    NotInVoiceChannelToUnmute,
    Pong,
    Help,
    MustProvideUrl,
    MustProvideValidUrl,
    ErrorFindingChannelInfo,
    NotInVoiceChannelToPlay,
    ErrorSourcingStream,
    PlayingSong,
}

/// The fixed wording of each reply; `None` for the replies whose text the
/// driver assembles from data.
pub open spec fn spec_reply_text(r: Reply) -> Option<Seq<char>> {
    match r {
        Reply::GroupsAndDmsNotSupported => Some("Groups and DMs not supported"@),
        Reply::NotInVoiceChannel => Some("Not in a voice channel"@),
        Reply::Joined { channel } => None,
        Reply::LeftVoiceChannel => Some("Left voice channel"@),
        Reply::AlreadyMuted => Some("Already muted"@),
        Reply::NowMuted => Some("Now muted"@),
        Reply::Unmuted => Some("Unmuted"@),
        Reply::NotInVoiceChannelToUnmute => Some("Not in a voice channel to unmute in"@),
        Reply::Pong => Some("Pong!"@),
        Reply::Help => None,
        Reply::MustProvideUrl => Some("Must provide a URL to a video or audio"@),
        Reply::MustProvideValidUrl => Some("Must provide a valid URL"@),
        Reply::ErrorFindingChannelInfo => Some("Error finding channel info"@),
        Reply::NotInVoiceChannelToPlay => Some("Not in a voice channel to play in"@),
        Reply::ErrorSourcingStream => Some("Error sourcing ffmpeg"@),
        Reply::PlayingSong => Some("Playing song"@),
    }
}

impl Reply {
    /// The fixed text of this reply, if its wording carries no data.
    pub fn text(&self) -> (r: Option<&'static str>)
        ensures
            match r {
                Some(t) => spec_reply_text(*self) == Some(t@),
                None => spec_reply_text(*self) is None,
            },
    {
        match self {
            Reply::GroupsAndDmsNotSupported => Some("Groups and DMs not supported"),
            Reply::NotInVoiceChannel => Some("Not in a voice channel"),
            Reply::Joined { channel: _ } => None,
            Reply::LeftVoiceChannel => Some("Left voice channel"),
            Reply::AlreadyMuted => Some("Already muted"),
            Reply::NowMuted => Some("Now muted"),
            Reply::Unmuted => Some("Unmuted"),
            Reply::NotInVoiceChannelToUnmute => Some("Not in a voice channel to unmute in"),
            Reply::Pong => Some("Pong!"),
            Reply::Help => None,
            Reply::MustProvideUrl => Some("Must provide a URL to a video or audio"),
            Reply::MustProvideValidUrl => Some("Must provide a valid URL"),
            Reply::ErrorFindingChannelInfo => Some("Error finding channel info"),
            Reply::NotInVoiceChannelToPlay => Some("Not in a voice channel to play in"),
            Reply::ErrorSourcingStream => Some("Error sourcing ffmpeg"),
            Reply::PlayingSong => Some("Playing song"),
        }
    }
}

/// A reply together with the outside work it entails, if any.
#[derive(Clone, Copy, PartialEq, Eq, Debug, Structural)]
pub struct CommandOutcome {
    pub reply: Reply,
    pub action: Option<Action>,
}

/// Connects the bot to the channel the issuing user is in. An explicit
/// join is silent: no greeting is played. Outside a guild, or with the
/// user in no voice channel, nothing changes and an error reply is
/// returned.
pub fn join(
    registry: &mut SessionRegistry,
    guild: Option<GuildId>,
    author_channel: Option<ChannelId>,
) -> (r: CommandOutcome)
    ensures
        guild is None ==> final(registry)@ == old(registry)@ && r == (CommandOutcome {
            reply: Reply::GroupsAndDmsNotSupported,
            action: None,
        }),
        guild is Some && author_channel is None ==> final(registry)@ == old(registry)@ && r
            == (CommandOutcome { reply: Reply::NotInVoiceChannel, action: None }),
        guild matches Some(g) ==> (author_channel matches Some(c) ==> final(registry)@ == old(
            registry,
        )@.insert(g.id, spec_joined_session(old(registry)@, g, c)) && r == (CommandOutcome {
            reply: Reply::Joined { channel: c },
            action: Some(Action::Connect { guild: g, channel: c }),
        })),
{
    match (guild, author_channel) {
        (None, _) => CommandOutcome { reply: Reply::GroupsAndDmsNotSupported, action: None },
        (Some(_g), None) => CommandOutcome { reply: Reply::NotInVoiceChannel, action: None },
        (Some(g), Some(c)) => {
            registry.join(g, c);
            CommandOutcome {
                reply: Reply::Joined { channel: c },
                action: Some(Action::Connect { guild: g, channel: c }),
            }
        },
    }
}

/// Disconnects the bot from the guild's channel. Without a session the
/// registry is left as it is and the reply says the bot is not connected.
pub fn leave(registry: &mut SessionRegistry, guild: Option<GuildId>) -> (r: CommandOutcome)
    ensures
        guild is None ==> final(registry)@ == old(registry)@ && r == (CommandOutcome {
            reply: Reply::GroupsAndDmsNotSupported,
            action: None,
        }),
        guild matches Some(g) ==> (old(registry)@.contains_key(g.id) ==> final(registry)@ == old(
            registry,
        )@.remove(g.id) && r == (CommandOutcome {
            reply: Reply::LeftVoiceChannel,
            action: Some(Action::Disconnect { guild: g }),
        })),
        guild matches Some(g) ==> (!old(registry)@.contains_key(g.id) ==> final(registry)@ == old(
            registry,
        )@ && r == (CommandOutcome { reply: Reply::NotInVoiceChannel, action: None })),
{
    match guild {
        None => CommandOutcome { reply: Reply::GroupsAndDmsNotSupported, action: None },
        Some(g) => {
            if registry.contains(g) {
                registry.leave(g);
                CommandOutcome {
                    reply: Reply::LeftVoiceChannel,
                    action: Some(Action::Disconnect { guild: g }),
                }
            } else {
                CommandOutcome { reply: Reply::NotInVoiceChannel, action: None }
            }
        },
    }
}

/// Mutes the bot in the guild's channel. Muting an already muted session
/// changes nothing and replies that it is already muted; without a session
/// only an error reply is produced.
pub fn mute(registry: &mut SessionRegistry, guild: Option<GuildId>) -> (r: CommandOutcome)
    ensures
        guild is None ==> final(registry)@ == old(registry)@ && r == (CommandOutcome {
            reply: Reply::GroupsAndDmsNotSupported,
            action: None,
        }),
        guild matches Some(g) ==> (!old(registry)@.contains_key(g.id) ==> final(registry)@ == old(
            registry,
        )@ && r == (CommandOutcome { reply: Reply::NotInVoiceChannel, action: None })),
        guild matches Some(g) ==> (old(registry)@.contains_key(g.id) && old(
            registry,
        )@[g.id].muted ==> final(registry)@ == old(registry)@ && r == (CommandOutcome {
            reply: Reply::AlreadyMuted,
            action: None,
        })),
        guild matches Some(g) ==> (old(registry)@.contains_key(g.id) && !old(
            registry,
        )@[g.id].muted ==> final(registry)@ == old(registry)@.insert(
            g.id,
            VoiceSession {
                channel: old(registry)@[g.id].channel,
                muted: true,
                playback: old(registry)@[g.id].playback,
            },
        ) && r == (CommandOutcome {
            reply: Reply::NowMuted,
            action: Some(Action::SetMute { guild: g, muted: true }),
        })),
{
    match guild {
        None => CommandOutcome { reply: Reply::GroupsAndDmsNotSupported, action: None },
        Some(g) => {
            let already_muted = match registry.get(g) {
                Some(session) => Some(session.muted),
                None => None,
            };
            match already_muted {
                None => CommandOutcome { reply: Reply::NotInVoiceChannel, action: None },
                Some(true) => CommandOutcome { reply: Reply::AlreadyMuted, action: None },
                Some(false) => {
                    registry.set_muted(g, true);
                    CommandOutcome {
                        reply: Reply::NowMuted,
                        action: Some(Action::SetMute { guild: g, muted: true }),
                    }
                },
            }
        },
    }
}

/// Unmutes the bot in the guild's channel. Unlike `mute`, unmuting is not
/// guarded: an unmuted session is set unmuted again and gets the same
/// reply.
pub fn unmute(registry: &mut SessionRegistry, guild: Option<GuildId>) -> (r: CommandOutcome)
    ensures
        guild is None ==> final(registry)@ == old(registry)@ && r == (CommandOutcome {
            reply: Reply::ErrorFindingChannelInfo,
            action: None,
        }),
        guild matches Some(g) ==> (!old(registry)@.contains_key(g.id) ==> final(registry)@ == old(
            registry,
        )@ && r == (CommandOutcome { reply: Reply::NotInVoiceChannelToUnmute, action: None })),
        guild matches Some(g) ==> (old(registry)@.contains_key(g.id) ==> final(registry)@ == old(
            registry,
        )@.insert(
            g.id,
            VoiceSession {
                channel: old(registry)@[g.id].channel,
                muted: false,
                playback: old(registry)@[g.id].playback,
            },
        ) && r == (CommandOutcome {
            reply: Reply::Unmuted,
            action: Some(Action::SetMute { guild: g, muted: false }),
        })),
{
    match guild {
        None => CommandOutcome { reply: Reply::ErrorFindingChannelInfo, action: None },
        Some(g) => {
            if registry.set_muted(g, false) {
                CommandOutcome {
                    reply: Reply::Unmuted,
                    action: Some(Action::SetMute { guild: g, muted: false }),
                }
            } else {
                CommandOutcome { reply: Reply::NotInVoiceChannelToUnmute, action: None }
            }
        },
    }
}

/// Replies to a ping.
pub fn ping() -> (r: Reply)
    ensures
        r == Reply::Pong,
{
    Reply::Pong
}

/// Asks the driver to print the help text; its wording is presentation,
/// not core logic.
pub fn help() -> (r: Reply)
    ensures
        r == Reply::Help,
{
    Reply::Help
}

/// What the validation of a `play` command decided: a rejection with its
/// reply, or a resolver call to make for `url`.
#[derive(Clone, PartialEq, Eq, Debug)]
pub enum PlayStep {
    Rejected { reply: Reply },
    Resolve { guild: GuildId, url: String },
}

/// What `play` decides for the given argument list, guild context and
/// registry contents: the argument is validated first, then the context,
/// then the session; only a fully validated command reaches the resolver.
pub open spec fn spec_play_step(
    reg: Map<u64, VoiceSession>,
    guild: Option<GuildId>,
    args: Seq<String>,
) -> PlayStep {
    if args.len() == 0 {
        PlayStep::Rejected { reply: Reply::MustProvideUrl }
    } else if !spec_has_http_prefix(args[0]@) {
        PlayStep::Rejected { reply: Reply::MustProvideValidUrl }
    } else {
        match guild {
            None => PlayStep::Rejected { reply: Reply::ErrorFindingChannelInfo },
            Some(g) => if reg.contains_key(g.id) {
                PlayStep::Resolve { guild: g, url: args[0] }
            } else {
                PlayStep::Rejected { reply: Reply::NotInVoiceChannelToPlay }
            },
        }
    }
}

/// Validates a `play` command. A missing argument, an argument without an
/// http-scheme marker, a missing guild context or a missing session each
/// reject the command with their reply; the registry is never changed, and
/// the resolver is reached only by a validated URL. The resolver outcome
/// is applied afterwards with [`apply_play_outcome`].
pub fn play(registry: &SessionRegistry, guild: Option<GuildId>, args: Vec<String>) -> (r: PlayStep)
    ensures
        r == spec_play_step(registry@, guild, args@),
{
    let mut args = args;
    if args.len() == 0 {
        return PlayStep::Rejected { reply: Reply::MustProvideUrl };
    }
    let url = args.remove(0);
    if !has_http_prefix(url.as_str()) {
        return PlayStep::Rejected { reply: Reply::MustProvideValidUrl };
    }
    match guild {
        None => PlayStep::Rejected { reply: Reply::ErrorFindingChannelInfo },
        Some(g) => {
            if registry.contains(g) {
                PlayStep::Resolve { guild: g, url }
            } else {
                PlayStep::Rejected { reply: Reply::NotInVoiceChannelToPlay }
            }
        },
    }
}

/// Records the resolver's outcome for a validated `play` of `url`.
///
/// On success the session's playback is replaced by `Playing(url)` and the
/// reply announces the song; on a resolver failure, or if the session
/// disappeared while the resolver ran, the registry is left unchanged and
/// the reply reports the failure.
pub fn apply_play_outcome(
    registry: &mut SessionRegistry,
    guild: GuildId,
    url: String,
    resolved: Result<(), ResolveError>,
) -> (r: Reply)
    ensures
        resolved is Err ==> final(registry)@ == old(registry)@ && r == Reply::ErrorSourcingStream,
        resolved is Ok && !old(registry)@.contains_key(guild.id) ==> final(registry)@ == old(
            registry,
        )@ && r == Reply::NotInVoiceChannelToPlay,
        resolved is Ok && old(registry)@.contains_key(guild.id) ==> final(registry)@ == old(
            registry,
        )@.insert(
            guild.id,
            VoiceSession {
                channel: old(registry)@[guild.id].channel,
                muted: old(registry)@[guild.id].muted,
                playback: Playback::Playing { source: url },
            },
        ) && r == Reply::PlayingSong,
{
    match resolved {
        Ok(()) => {
            if registry.set_playing(guild, url) {
                Reply::PlayingSong
            } else {
                Reply::NotInVoiceChannelToPlay
            }
        },
        Err(_) => Reply::ErrorSourcingStream,
    }
}

/// A request the file-management collaborator must handle; it reports its
/// own success or failure text.
#[derive(Clone, Copy, PartialEq, Eq, Debug, Structural)]
pub enum FileRequest {
    Upload,
    Delete,
}

/// What dispatching one command yields: a decided reply with its outside
/// work, a resolver call whose outcome will decide the reply, or a
/// file-management request answered by that collaborator.
#[derive(Clone, PartialEq, Eq, Debug)]
pub enum DispatchOutcome {
    Replied { reply: Reply, action: Option<Action> },
    StartResolve { guild: GuildId, url: String },
    FileManagement { request: FileRequest },
}

/// The registry contents after dispatching `msg`: only `join`, `leave`,
/// `mute` and `unmute` mutate the registry, and only inside their
/// validated cases.
pub open spec fn spec_command_step(
    reg: Map<u64, VoiceSession>,
    msg: CommandMessage,
    author_channel: Option<ChannelId>,
) -> Map<u64, VoiceSession> {
    match msg.command {
        CommandKind::Join => match (msg.guild, author_channel) {
            (Option::Some(g), Option::Some(c)) => reg.insert(
                g.id,
                spec_joined_session(reg, g, c),
            ),
            _ => reg,
        },
        CommandKind::Leave => match msg.guild {
            Option::Some(g) => if reg.contains_key(g.id) {
                reg.remove(g.id)
            } else {
                reg
            },
            Option::None => reg,
        },
        CommandKind::Mute => match msg.guild {
            Option::Some(g) => if reg.contains_key(g.id) && !reg[g.id].muted {
                reg.insert(
                    g.id,
                    VoiceSession {
                        channel: reg[g.id].channel,
                        muted: true,
                        playback: reg[g.id].playback,
                    },
                )
            } else {
                reg
            },
            Option::None => reg,
        },
        CommandKind::Unmute => match msg.guild {
            Option::Some(g) => if reg.contains_key(g.id) {
                reg.insert(
                    g.id,
                    VoiceSession {
                        channel: reg[g.id].channel,
                        muted: false,
                        playback: reg[g.id].playback,
                    },
                )
            } else {
                reg
            },
            Option::None => reg,
        },
        _ => reg,
    }
}

/// The outcome of dispatching `msg`, as decided from the registry
/// contents, the guild context and (for `join`) the channel the author is
/// in.
pub open spec fn spec_dispatch(
    reg: Map<u64, VoiceSession>,
    msg: CommandMessage,
    author_channel: Option<ChannelId>,
) -> DispatchOutcome {
    match msg.command {
        CommandKind::Join => match (msg.guild, author_channel) {
            (Option::None, _) => DispatchOutcome::Replied {
                reply: Reply::GroupsAndDmsNotSupported,
                action: None,
            },
            (Option::Some(g), Option::None) => DispatchOutcome::Replied {
                reply: Reply::NotInVoiceChannel,
                action: None,
            },
            (Option::Some(g), Option::Some(c)) => DispatchOutcome::Replied {
                reply: Reply::Joined { channel: c },
                action: Some(Action::Connect { guild: g, channel: c }),
            },
        },
        CommandKind::Leave => match msg.guild {
            Option::None => DispatchOutcome::Replied {
                reply: Reply::GroupsAndDmsNotSupported,
                action: None,
            },
            Option::Some(g) => if reg.contains_key(g.id) {
                DispatchOutcome::Replied {
                    reply: Reply::LeftVoiceChannel,
                    action: Some(Action::Disconnect { guild: g }),
                }
            } else {
                DispatchOutcome::Replied { reply: Reply::NotInVoiceChannel, action: None }
            },
        },
        CommandKind::Mute => match msg.guild {
            Option::None => DispatchOutcome::Replied {
                reply: Reply::GroupsAndDmsNotSupported,
                action: None,
            },
            Option::Some(g) => if !reg.contains_key(g.id) {
                DispatchOutcome::Replied { reply: Reply::NotInVoiceChannel, action: None }
            } else if reg[g.id].muted {
                DispatchOutcome::Replied { reply: Reply::AlreadyMuted, action: None }
            } else {
                DispatchOutcome::Replied {
                    reply: Reply::NowMuted,
                    action: Some(Action::SetMute { guild: g, muted: true }),
                }
            },
        },
        CommandKind::Unmute => match msg.guild {
            Option::None => DispatchOutcome::Replied {
                reply: Reply::ErrorFindingChannelInfo,
                action: None,
            },
            Option::Some(g) => if reg.contains_key(g.id) {
                DispatchOutcome::Replied {
                    reply: Reply::Unmuted,
                    action: Some(Action::SetMute { guild: g, muted: false }),
                }
            } else {
                DispatchOutcome::Replied {
                    reply: Reply::NotInVoiceChannelToUnmute,
                    action: None,
                }
            },
        },
        CommandKind::Play => match spec_play_step(reg, msg.guild, msg.args@) {
            PlayStep::Rejected { reply } => DispatchOutcome::Replied { reply, action: None },
            PlayStep::Resolve { guild, url } => DispatchOutcome::StartResolve { guild, url },
        },
        CommandKind::Ping => DispatchOutcome::Replied { reply: Reply::Pong, action: None },
        CommandKind::Help => DispatchOutcome::Replied { reply: Reply::Help, action: None },
        CommandKind::Upload => DispatchOutcome::FileManagement { request: FileRequest::Upload },
        CommandKind::Delete => DispatchOutcome::FileManagement { request: FileRequest::Delete },
    }
}

/// Routes one command to its handler. The registry changes exactly as
/// [`spec_command_step`] says and the outcome is exactly
/// [`spec_dispatch`]; in particular every path produces a reply or hands
/// the command to a collaborator that does.
pub fn dispatch(
    registry: &mut SessionRegistry,
    msg: CommandMessage,
    author_channel: Option<ChannelId>,
) -> (r: DispatchOutcome)
    ensures
        final(registry)@ == spec_command_step(old(registry)@, msg, author_channel),
        r == spec_dispatch(old(registry)@, msg, author_channel),
{
    match msg.command {
        CommandKind::Join => {
            let outcome = join(registry, msg.guild, author_channel);
            DispatchOutcome::Replied { reply: outcome.reply, action: outcome.action }
        },
        CommandKind::Leave => {
            let outcome = leave(registry, msg.guild);
            DispatchOutcome::Replied { reply: outcome.reply, action: outcome.action }
        },
        CommandKind::Mute => {
            let outcome = mute(registry, msg.guild);
            DispatchOutcome::Replied { reply: outcome.reply, action: outcome.action }
        },
        CommandKind::Unmute => {
            let outcome = unmute(registry, msg.guild);
            DispatchOutcome::Replied { reply: outcome.reply, action: outcome.action }
        },
        CommandKind::Play => {
            match play(registry, msg.guild, msg.args) {
                PlayStep::Rejected { reply } => DispatchOutcome::Replied { reply, action: None },
                PlayStep::Resolve { guild, url } => DispatchOutcome::StartResolve { guild, url },
            }
        },
        CommandKind::Ping => DispatchOutcome::Replied { reply: ping(), action: None },
        CommandKind::Help => DispatchOutcome::Replied { reply: help(), action: None },
        CommandKind::Upload => DispatchOutcome::FileManagement { request: FileRequest::Upload },
        CommandKind::Delete => DispatchOutcome::FileManagement { request: FileRequest::Delete },
    }
}

} // verus!
