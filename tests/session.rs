use dj_bot::command::Config;
use dj_bot::media::{read_track, resolve_media};
use dj_bot::mirror::{Event, Message, Snapshot};
use dj_bot::model::{Venue, VoiceState};
use dj_bot::session::{track_actions, Action, Bot, Phase, ReceiveError};
use dj_bot::voice::{is_abandoned, VoiceCalls};

const BOT: u64 = 1;
const ALICE: u64 = 10;
const BOB: u64 = 11;
const SERVER: u64 = 100;
const VOICE: u64 = 200;
const TEXT: u64 = 42;

fn vs(user: u64, channel: Option<u64>, server: Option<u64>) -> VoiceState {
    VoiceState { user_id: user, channel_id: channel, server_id: server }
}

fn config(channel: Option<u64>) -> Config {
    Config {
        discord_token: "SECRET-REDACTED".to_string(),
        command_prefix: "!".to_string(),
        command_channel: channel,
        cache_dir: "cache".to_string(),
    }
}

fn server_with_alice() -> Venue {
    Venue::new(SERVER, vec![vs(ALICE, Some(VOICE), Some(SERVER))])
}

fn bot(channel: Option<u64>) -> Bot {
    Bot::new(config(channel), BOT, vec![server_with_alice()], vec![])
}

fn msg(author: u64, channel: u64, content: &str) -> Message {
    Message { author_id: author, channel_id: channel, content: content.to_string() }
}

fn play_in_server(b: &mut Bot) {
    let r = b.on_stream(Some(SERVER), VOICE, TEXT, Ok(()));
    assert_eq!(r.len(), 1);
    assert!(matches!(r[0], Action::Play { location: Some(SERVER), channel_id: VOICE }));
}

#[test]
fn find_voice_location_absent_and_present() {
    let s = Snapshot::new(BOT, vec![server_with_alice()], vec![]);
    assert_eq!(s.find_voice_location_of(BOB), None);
    assert_eq!(s.find_voice_location_of(ALICE), Some((Some(SERVER), VOICE)));
}

#[test]
fn leaving_voice_clears_location() {
    let mut s = Snapshot::new(BOT, vec![server_with_alice()], vec![]);
    s.apply(Event::VoiceStateUpdate(Some(SERVER), vs(ALICE, None, Some(SERVER))));
    assert_eq!(s.find_voice_location_of(ALICE), None);
}

#[test]
fn call_presence_moves_between_calls() {
    let mut s = Snapshot::new(BOT, vec![], vec![Venue::new(7, vec![]), Venue::new(8, vec![])]);
    s.apply(Event::VoiceStateUpdate(None, vs(ALICE, Some(7), None)));
    assert_eq!(s.find_voice_location_of(ALICE), Some((None, 7)));
    s.apply(Event::VoiceStateUpdate(None, vs(ALICE, Some(8), None)));
    assert_eq!(s.find_voice_location_of(ALICE), Some((None, 8)));
    assert_eq!(s.call_by_id(7).unwrap().voice_states.len(), 0);
    s.apply(Event::VoiceStateUpdate(None, vs(ALICE, None, None)));
    assert_eq!(s.find_voice_location_of(ALICE), None);
}

#[test]
fn unknown_locations_stay_absent() {
    let mut s = Snapshot::new(BOT, vec![], vec![]);
    s.apply(Event::VoiceStateUpdate(Some(5), vs(ALICE, Some(6), Some(5))));
    s.apply(Event::Unknown);
    assert!(s.server_by_id(5).is_none());
    assert_eq!(s.find_voice_location_of(ALICE), None);
}

#[test]
fn server_create_replaces_and_delete_removes() {
    let mut s = Snapshot::new(BOT, vec![server_with_alice(), Venue::new(SERVER, vec![])], vec![]);
    assert_eq!(s.server_by_id(SERVER).unwrap().voice_states.len(), 0);
    s.apply(Event::ServerCreate(server_with_alice()));
    assert_eq!(s.server_by_id(SERVER).unwrap().voice_states.len(), 1);
    s.apply(Event::CallCreate(Venue::new(9, vec![vs(BOB, Some(9), None)])));
    assert_eq!(s.find_voice_location_of(BOB), Some((None, 9)));
    s.apply(Event::CallDelete(9));
    s.apply(Event::ServerDelete(SERVER));
    assert!(s.server_by_id(SERVER).is_none());
    assert!(s.call_by_id(9).is_none());
}

#[test]
fn replaying_events_is_deterministic() {
    let events = || {
        vec![
            Event::ServerCreate(Venue::new(3, vec![])),
            Event::VoiceStateUpdate(Some(3), vs(ALICE, Some(4), Some(3))),
            Event::VoiceStateUpdate(Some(3), vs(BOB, Some(4), Some(3))),
            Event::VoiceStateUpdate(Some(3), vs(ALICE, Some(5), Some(3))),
            Event::Unknown,
        ]
    };
    let mut a = Snapshot::new(BOT, vec![], vec![]);
    let mut b = Snapshot::new(BOT, vec![], vec![]);
    a.apply_all(events());
    b.apply_all(events());
    assert_eq!(format!("{:?}", a), format!("{:?}", b));
    assert_eq!(a.find_voice_location_of(ALICE), Some((Some(3), 5)));
    let states = &a.server_by_id(3).unwrap().voice_states;
    assert_eq!(states[0], vs(ALICE, Some(5), Some(3)));
}

#[test]
fn play_in_voice_searches_and_fetches() {
    let mut b = bot(None);
    let r = b.on_message(msg(ALICE, TEXT, "!play lofi beats"));
    assert_eq!(r.len(), 2);
    match &r[0] {
        Action::Send { channel_id, text } => {
            assert_eq!(*channel_id, TEXT);
            assert_eq!(text, "Searching for \"lofi beats\"...");
        }
        other => panic!("unexpected {:?}", other),
    }
    match &r[1] {
        Action::Fetch { location, channel_id, reply_to, query } => {
            assert_eq!(*location, Some(SERVER));
            assert_eq!(*channel_id, VOICE);
            assert_eq!(*reply_to, TEXT);
            assert_eq!(query, "lofi beats");
        }
        other => panic!("unexpected {:?}", other),
    }
}

#[test]
fn play_outside_voice_is_refused() {
    let mut b = bot(None);
    let r = b.on_message(msg(BOB, TEXT, "!play x"));
    assert_eq!(r.len(), 1);
    assert!(matches!(&r[0], Action::Send { channel_id: TEXT, text } if text == "You must be in a voice channel to DJ"));
    assert!(b.on_message(msg(BOB, TEXT, "!stop")).is_empty());
}

#[test]
fn restricted_channel_ignores_other_channels() {
    let mut b = bot(Some(42));
    assert!(b.on_message(msg(ALICE, 7, "!play x")).is_empty());
    assert_eq!(b.on_message(msg(ALICE, 42, "!play x")).len(), 2);
}

#[test]
fn own_message_triggers_nothing() {
    let mut b = Bot::new(config(None), ALICE, vec![server_with_alice()], vec![]);
    assert!(b.on_message(msg(ALICE, TEXT, "!play x")).is_empty());
    assert!(b.on_event(Event::MessageCreate(msg(ALICE, TEXT, "!quit"))).is_empty());
}

#[test]
fn stop_keeps_connection_and_quit_releases_it() {
    let mut b = bot(None);
    play_in_server(&mut b);
    let r = b.on_message(msg(ALICE, TEXT, "!stop"));
    assert!(matches!(r[..], [Action::Stop { location: Some(SERVER) }]));
    let c = b.active_call(Some(SERVER)).unwrap();
    assert!(!c.playing);
    assert_eq!(c.channel_id, VOICE);
    let r = b.on_message(msg(ALICE, TEXT, "!quit"));
    assert!(matches!(r[..], [Action::Leave { location: Some(SERVER) }]));
    assert!(b.active_call(Some(SERVER)).is_none());
}

#[test]
fn last_participant_leaving_disconnects_once() {
    let mut b = Bot::new(
        config(None),
        BOT,
        vec![
            Venue::new(SERVER, vec![vs(ALICE, Some(VOICE), Some(SERVER)), vs(BOT, Some(VOICE), Some(SERVER))]),
            Venue::new(300, vec![vs(BOB, Some(301), Some(300))]),
        ],
        vec![],
    );
    play_in_server(&mut b);
    let r = b.on_event(Event::VoiceStateUpdate(Some(300), vs(BOB, None, Some(300))));
    assert!(r.is_empty());
    let r = b.on_event(Event::VoiceStateUpdate(Some(SERVER), vs(ALICE, None, Some(SERVER))));
    assert_eq!(r.len(), 1);
    assert!(matches!(r[0], Action::Disconnect { location: Some(SERVER) }));
    assert!(b.active_call(Some(SERVER)).is_none());
    let r = b.on_event(Event::VoiceStateUpdate(Some(SERVER), vs(BOB, None, Some(SERVER))));
    assert!(r.is_empty());
}

#[test]
fn moving_to_another_channel_disconnects() {
    let mut b = bot(None);
    play_in_server(&mut b);
    let r = b.on_event(Event::VoiceStateUpdate(Some(SERVER), vs(ALICE, Some(VOICE + 1), Some(SERVER))));
    assert!(matches!(r[..], [Action::Disconnect { location: Some(SERVER) }]));
}

#[test]
fn someone_still_present_keeps_connection() {
    let mut b = Bot::new(
        config(None),
        BOT,
        vec![Venue::new(SERVER, vec![vs(ALICE, Some(VOICE), Some(SERVER)), vs(BOB, Some(VOICE), Some(SERVER))])],
        vec![],
    );
    play_in_server(&mut b);
    let r = b.on_event(Event::VoiceStateUpdate(Some(SERVER), vs(ALICE, None, Some(SERVER))));
    assert!(r.is_empty());
    assert!(b.active_call(Some(SERVER)).is_some());
}

#[test]
fn private_call_abandoned_disconnects() {
    let mut b = Bot::new(config(None), BOT, vec![], vec![Venue::new(7, vec![vs(ALICE, Some(7), None)])]);
    let r = b.on_stream(None, 7, TEXT, Ok(()));
    assert!(matches!(r[..], [Action::Play { location: None, channel_id: 7 }]));
    let r = b.on_event(Event::VoiceStateUpdate(None, vs(ALICE, None, None)));
    assert!(matches!(r[..], [Action::Disconnect { location: None }]));
}

#[test]
fn abandoned_counts_others_only() {
    let s = Snapshot::new(
        BOT,
        vec![Venue::new(SERVER, vec![vs(BOT, Some(VOICE), Some(SERVER)), vs(ALICE, Some(VOICE + 1), Some(SERVER))])],
        vec![],
    );
    assert!(is_abandoned(&s, Some(SERVER), VOICE));
    assert!(!is_abandoned(&s, Some(SERVER), VOICE + 1));
    assert!(!is_abandoned(&s, Some(SERVER + 1), VOICE));
    let mut calls = VoiceCalls::new();
    calls.join(Some(SERVER), VOICE);
    assert!(calls.on_presence_change(&s, Some(SERVER)));
    assert!(calls.at(Some(SERVER)).is_none());
}

#[test]
fn reconnect_rebuilds_snapshot_and_drops_calls() {
    let mut b = bot(None);
    play_in_server(&mut b);
    b.on_receive_error(ReceiveError::Other);
    assert_eq!(b.phase(), Phase::Receiving);
    assert!(b.active_call(Some(SERVER)).is_some());
    b.on_receive_error(ReceiveError::Transport);
    assert_eq!(b.phase(), Phase::Connecting);
    assert!(b.active_call(Some(SERVER)).is_none());
    b.on_connected(BOT, vec![Venue::new(500, vec![vs(BOB, Some(501), Some(500))])], vec![]);
    assert_eq!(b.phase(), Phase::Receiving);
    assert!(b.snapshot().server_by_id(SERVER).is_none());
    assert_eq!(b.snapshot().find_voice_location_of(BOB), Some((Some(500), 501)));
    assert_eq!(b.snapshot().find_voice_location_of(ALICE), None);
    assert!(b.active_call(Some(SERVER)).is_none());
    b.on_receive_error(ReceiveError::Closed);
    assert_eq!(b.phase(), Phase::Terminated);
}

#[test]
fn media_description_is_read() {
    let doc = br#"{"title":"Song","webpage_url":"https://example.org/v","_filename":"cache/Song.webm"}"#;
    let t = read_track(doc).unwrap();
    assert_eq!(t.title, "Song");
    assert_eq!(t.webpage_url, "https://example.org/v");
    assert_eq!(t.filename, "cache/Song.webm");
    assert!(read_track(br#"{"title":"Song"}"#).is_none());
    assert!(read_track(b"not json").is_none());
}

#[test]
fn media_outcomes() {
    let doc = br#"{"title":"Song","webpage_url":"u","_filename":"f"}"#;
    assert!(resolve_media(true, doc, "").is_ok());
    assert_eq!(resolve_media(false, doc, "boom").unwrap_err(), "boom");
    assert_eq!(resolve_media(true, b"[]", "").unwrap_err(), "the downloader's output could not be read");
}

#[test]
fn media_result_becomes_actions() {
    let b = bot(None);
    let doc = br#"{"title":"Song","webpage_url":"u","_filename":"f"}"#;
    let r = b.on_media(Some(SERVER), VOICE, TEXT, true, doc, "");
    assert!(matches!(&r[0], Action::Send { channel_id: TEXT, text } if text == "Playing **Song** (u)"));
    assert!(matches!(&r[1], Action::Open { location: Some(SERVER), channel_id: VOICE, reply_to: TEXT, file } if file == "f"));
    let r = b.on_media(Some(SERVER), VOICE, TEXT, false, b"", "no network");
    assert_eq!(r.len(), 1);
    assert!(matches!(&r[0], Action::Send { channel_id: TEXT, text } if text == "Error: no network"));
    let r = track_actions(None, 7, 8, Err("x".to_string()));
    assert!(matches!(&r[0], Action::Send { channel_id: 8, text } if text == "Error: x"));
}

#[test]
fn failed_stream_reports_and_keeps_state() {
    let mut b = bot(None);
    let r = b.on_stream(Some(SERVER), VOICE, TEXT, Err("bad file".to_string()));
    assert!(matches!(&r[..], [Action::Send { channel_id: TEXT, text }] if text == "Error: bad file"));
    assert!(b.active_call(Some(SERVER)).is_none());
}
