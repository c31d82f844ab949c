use voicebot::ids::{ChannelId, GuildId, UserId};
use voicebot::machine::{apply_greeting_outcome, handle_voice_event, Action, VoiceStateEvent};
use voicebot::presence::human_occupants;
use voicebot::registry::SessionRegistry;
use voicebot::resolve::{greeting_source, has_http_prefix, ResolveError};
use voicebot::session::{Playback, VoiceSession};

fn g(id: u64) -> GuildId {
    GuildId { id }
}

fn c(id: u64) -> ChannelId {
    ChannelId { id }
}

fn u(id: u64) -> UserId {
    UserId { id }
}

const BOT: UserId = UserId { id: 999 };

#[test]
fn human_occupants_excludes_the_bot() {
    assert_eq!(human_occupants(&vec![], BOT), 0);
    assert_eq!(human_occupants(&vec![BOT], BOT), 0);
    assert_eq!(human_occupants(&vec![u(1), BOT, u(2)], BOT), 2);
    assert_eq!(human_occupants(&vec![u(1), u(2)], BOT), 2);
}

#[test]
fn user_enters_empty_channel_connects_and_greets() {
    // scenario: a user joins a channel of a guild without a session
    let mut reg = SessionRegistry::new();
    let ev = VoiceStateEvent {
        guild: g(1),
        user: u(5),
        old_channel: None,
        new_channel: Some(c(10)),
    };
    let action = handle_voice_event(&mut reg, BOT, &ev, &vec![]);
    assert_eq!(
        action,
        Some(Action::ConnectAndGreet { guild: g(1), channel: c(10), user: u(5) })
    );
    assert_eq!(
        *reg.get(g(1)).unwrap(),
        VoiceSession { channel: c(10), muted: false, playback: Playback::Idle }
    );

    // greeting resolves: playback starts
    let source = greeting_source("/audio/", "guildname", "username");
    let played = apply_greeting_outcome(&mut reg, g(1), source.clone(), Ok(()));
    assert!(played);
    assert_eq!(
        reg.get(g(1)).unwrap().playback,
        Playback::Playing { source: "/audio/guildname/username.mp3".to_string() }
    );
}

#[test]
fn greeting_failure_leaves_playback_idle() {
    let mut reg = SessionRegistry::new();
    reg.join(g(1), c(10));
    for err in [
        ResolveError::NotFound,
        ResolveError::NetworkFailure,
        ResolveError::UnsupportedFormat,
    ] {
        let played = apply_greeting_outcome(&mut reg, g(1), "/a/b/c.mp3".to_string(), Err(err));
        assert!(!played);
        assert_eq!(reg.get(g(1)).unwrap().playback, Playback::Idle);
    }
}

#[test]
fn greeting_outcome_for_vanished_session_is_dropped() {
    let mut reg = SessionRegistry::new();
    let played = apply_greeting_outcome(&mut reg, g(1), "/a/b/c.mp3".to_string(), Ok(()));
    assert!(!played);
    assert!(!reg.contains(g(1)));
}

#[test]
fn user_moves_channels_reconnects_and_greets() {
    let mut reg = SessionRegistry::new();
    reg.join(g(1), c(10));
    reg.set_muted(g(1), true);
    let ev = VoiceStateEvent {
        guild: g(1),
        user: u(5),
        old_channel: Some(c(10)),
        new_channel: Some(c(20)),
    };
    let action = handle_voice_event(&mut reg, BOT, &ev, &vec![]);
    assert_eq!(
        action,
        Some(Action::ConnectAndGreet { guild: g(1), channel: c(20), user: u(5) })
    );
    let session = reg.get(g(1)).unwrap();
    assert_eq!(session.channel, c(20));
    assert!(session.muted);
}

#[test]
fn move_to_same_channel_is_ignored() {
    let mut reg = SessionRegistry::new();
    reg.join(g(1), c(10));
    let ev = VoiceStateEvent {
        guild: g(1),
        user: u(5),
        old_channel: Some(c(10)),
        new_channel: Some(c(10)),
    };
    let action = handle_voice_event(&mut reg, BOT, &ev, &vec![]);
    assert_eq!(action, None);
    assert_eq!(reg.get(g(1)).unwrap().channel, c(10));
}

#[test]
fn bots_own_transition_is_ignored() {
    let mut reg = SessionRegistry::new();
    let ev = VoiceStateEvent {
        guild: g(1),
        user: BOT,
        old_channel: None,
        new_channel: Some(c(10)),
    };
    let action = handle_voice_event(&mut reg, BOT, &ev, &vec![]);
    assert_eq!(action, None);
    assert!(!reg.contains(g(1)));
}

#[test]
fn last_human_leaving_disconnects() {
    // scenario: the session is active and only the bot stays behind
    let mut reg = SessionRegistry::new();
    reg.join(g(1), c(10));
    let ev = VoiceStateEvent {
        guild: g(1),
        user: u(5),
        old_channel: Some(c(10)),
        new_channel: None,
    };
    let action = handle_voice_event(&mut reg, BOT, &ev, &vec![BOT]);
    assert_eq!(action, Some(Action::Disconnect { guild: g(1) }));
    assert!(!reg.contains(g(1)));
}

#[test]
fn leave_event_with_humans_present_keeps_session() {
    let mut reg = SessionRegistry::new();
    reg.join(g(1), c(10));
    let ev = VoiceStateEvent {
        guild: g(1),
        user: u(5),
        old_channel: Some(c(10)),
        new_channel: None,
    };
    let action = handle_voice_event(&mut reg, BOT, &ev, &vec![BOT, u(6)]);
    assert_eq!(action, None);
    assert!(reg.contains(g(1)));
}

#[test]
fn duplicate_leave_event_is_harmless() {
    let mut reg = SessionRegistry::new();
    reg.join(g(1), c(10));
    let ev = VoiceStateEvent {
        guild: g(1),
        user: u(5),
        old_channel: Some(c(10)),
        new_channel: None,
    };
    let first = handle_voice_event(&mut reg, BOT, &ev, &vec![BOT]);
    assert_eq!(first, Some(Action::Disconnect { guild: g(1) }));
    let second = handle_voice_event(&mut reg, BOT, &ev, &vec![BOT]);
    assert_eq!(second, None);
    assert!(!reg.contains(g(1)));
}

#[test]
fn leave_event_without_session_does_nothing() {
    let mut reg = SessionRegistry::new();
    let ev = VoiceStateEvent {
        guild: g(1),
        user: u(5),
        old_channel: Some(c(10)),
        new_channel: None,
    };
    let action = handle_voice_event(&mut reg, BOT, &ev, &vec![BOT]);
    assert_eq!(action, None);
    assert!(!reg.contains(g(1)));
}

#[test]
fn greeting_source_builds_the_expected_path() {
    assert_eq!(
        greeting_source("/audio/", "myguild", "myuser"),
        "/audio/myguild/myuser.mp3"
    );
    assert_eq!(greeting_source("", "a", "b"), "a/b.mp3");
}

#[test]
fn http_prefix_detection() {
    assert!(has_http_prefix("http://example.com"));
    assert!(has_http_prefix("https://example.com"));
    assert!(has_http_prefix("httpanything"));
    assert!(has_http_prefix("http"));
    assert!(!has_http_prefix("htt"));
    assert!(!has_http_prefix(""));
    assert!(!has_http_prefix("ftp://example.com"));
    assert!(!has_http_prefix("not-a-url"));
}
