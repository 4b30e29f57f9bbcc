//! The session: what the bot does with each event it receives, with each
//! receive failure, and with the results of the outside work it asked for.
//! The caller performs the returned actions and reports back.

use vstd::prelude::*;
use vstd::string::StringExecFns;
use crate::command::{Command, CommandName, Config, command_in, command_of, recognized, accepted};
use crate::media::{Track, resolve_media, media_outcome};
use crate::mirror::{
    Event, Message, Snapshot, SnapshotModel, apply_event, apply_events, in_voice,
    is_voice_location, initial_events,
};
use crate::model::Venue;
use crate::voice::{ActiveCall, VoiceCalls, stopped, released, joined, must_disconnect};

verus! {

/// Where the session stands.
#[derive(Clone, Copy, Debug, PartialEq, Eq, Structural)]
pub enum Phase {
    /// Waiting for a fresh connection.
    Connecting,
    /// Connected and taking events.
    Receiving,
    /// The service closed the connection; nothing more is done.
    Terminated,
}

/// How receiving the next event failed.
#[derive(Clone, Copy, Debug, PartialEq, Eq, Structural)]
pub enum ReceiveError {
    /// The transport dropped: reconnect from scratch.
    Transport,
    /// The service closed the connection.
    Closed,
    /// Anything else: keep receiving.
    Other,
}

/// Something for the caller to do on the bot's behalf.
#[derive(Debug)]
pub enum Action {
    /// Send a chat message; a failure is only worth a warning.
    Send { channel_id: u64, text: String },
    /// Stop the playback at a location, staying in its channel.
    Stop { location: Option<u64> },
    /// Leave the voice channel at a location.
    Leave { location: Option<u64> },
    /// Leave the voice channel at a location, nobody else being left in it.
    Disconnect { location: Option<u64> },
    /// Look the query up and download it, then report with `Bot::on_media`.
    Fetch { location: Option<u64>, channel_id: u64, reply_to: u64, query: String },
    /// Open the downloaded file for playback, then report with `Bot::on_stream`.
    Open { location: Option<u64>, channel_id: u64, reply_to: u64, file: String },
    /// Join the channel at the location, deafened so that no sound is taken
    /// in, and play the stream that was opened for it.
    Play { location: Option<u64>, channel_id: u64 },
}

/// The model of a bot: its phase, its settings, the mirror of remote state
/// and its own voice connections.
pub struct BotModel {
    pub phase: Phase,
    pub command_channel: Option<u64>,
    pub prefix: Seq<char>,
    pub snapshot: SnapshotModel,
    pub calls: Seq<ActiveCall>,
}

/// The bot: the state that one run of the event loop carries.
#[derive(Debug)]
pub struct Bot {
    phase: Phase,
    config: Config,
    snapshot: Snapshot,
    calls: VoiceCalls,
}

impl View for Bot {
    type V = BotModel;

    closed spec fn view(&self) -> BotModel {
        BotModel {
            phase: self.phase,
            command_channel: self.config.command_channel,
            prefix: self.config.command_prefix@,
            snapshot: self.snapshot@,
            calls: self.calls@,
        }
    }
}

pub open spec fn not_in_voice_text() -> Seq<char> {
    "You must be in a voice channel to DJ"@
}

pub open spec fn searching_text(query: Seq<char>) -> Seq<char> {
    "Searching for \""@ + query + "\"..."@
}

pub open spec fn playing_text(title: Seq<char>, url: Seq<char>) -> Seq<char> {
    "Playing **"@ + title + "** ("@ + url + ")"@
}

pub open spec fn error_text(e: Seq<char>) -> Seq<char> {
    "Error: "@ + e
}

/// The snapshot that a fresh connection starts from.
pub open spec fn initial_snapshot(user_id: u64, servers: Seq<Venue>, calls: Seq<Venue>) -> SnapshotModel {
    apply_events(
        SnapshotModel { user_id, servers: Seq::empty(), calls: Seq::empty() },
        initial_events(servers, calls),
    )
}

/// `a` sends `text` to `channel`.
pub open spec fn is_send(a: Action, channel: u64, text: Seq<char>) -> bool {
    match a {
        Action::Send { channel_id, text: t } => channel_id == channel && t@ == text,
        _ => false,
    }
}

/// `a` asks for `query` to be fetched for `channel` at `location`, with
/// replies going to `reply`.
pub open spec fn is_fetch(
    a: Action,
    location: Option<u64>,
    channel: u64,
    reply: u64,
    query: Seq<char>,
) -> bool {
    match a {
        Action::Fetch { location: l, channel_id, reply_to, query: q } => l == location
            && channel_id == channel && reply_to == reply && q@ == query,
        _ => false,
    }
}

/// `a` asks for `file` to be opened for `channel` at `location`, with
/// replies going to `reply`.
pub open spec fn is_open(
    a: Action,
    location: Option<u64>,
    channel: u64,
    reply: u64,
    file: Seq<char>,
) -> bool {
    match a {
        Action::Open { location: l, channel_id, reply_to, file: f } => l == location && channel_id
            == channel && reply_to == reply && f@ == file,
        _ => false,
    }
}

/// The command that message `m` carries for a bot in state `s`, with its
/// argument text.
pub open spec fn message_command(s: BotModel, m: Message) -> Option<(CommandName, Seq<char>)> {
    if accepted(s.command_channel, s.snapshot.user_id, m.author_id, m.channel_id) {
        match command_of(m.content@, s.prefix) {
            Some((name, args)) => match recognized(name) {
                Some(k) => Some((k, args)),
                None => None,
            },
            None => None,
        }
    } else {
        None
    }
}

/// A message written by the bot itself carries no command, whatever it says:
/// the bot never acts on its own messages.
pub proof fn lemma_own_messages_ignored(s: BotModel, m: Message)
    requires
        m.author_id == s.snapshot.user_id,
    ensures
        message_command(s, m) is None,
{
}

/// A message outside the configured command channel carries no command.
pub proof fn lemma_other_channels_ignored(s: BotModel, m: Message)
    requires
        s.command_channel matches Some(c) && c != m.channel_id,
    ensures
        message_command(s, m) is None,
{
}

/// `r` and `t` are the actions and the state that follow message `m` in state
/// `s`. Commands act on the author's voice location; without one, a play
/// command is answered with a notice and the others do nothing.
pub open spec fn message_outcome(s: BotModel, m: Message, r: Seq<Action>, t: BotModel) -> bool {
    &&& t.phase == s.phase && t.snapshot == s.snapshot
    &&& t.command_channel == s.command_channel && t.prefix == s.prefix
    &&& match message_command(s, m) {
        None => r.len() == 0 && t.calls == s.calls,
        Some((k, args)) => if !in_voice(s.snapshot, m.author_id) {
            &&& t.calls == s.calls
            &&& k == CommandName::Play ==> r.len() == 1 && is_send(
                r[0],
                m.channel_id,
                not_in_voice_text(),
            )
            &&& k != CommandName::Play ==> r.len() == 0
        } else {
            exists|loc: Option<u64>, ch: u64|
                is_voice_location(s.snapshot, m.author_id, loc, ch) && match k {
                    CommandName::Stop => r == seq![Action::Stop { location: loc }] && t.calls
                        == stopped(s.calls, loc),
                    CommandName::Quit => r == seq![Action::Leave { location: loc }] && t.calls
                        == released(s.calls, loc),
                    CommandName::Play => {
                        &&& t.calls == s.calls
                        &&& r.len() == 2
                        &&& is_send(r[0], m.channel_id, searching_text(args))
                        &&& is_fetch(r[1], loc, ch, m.channel_id, args)
                    },
                }
        },
    }
}

/// The state after a receive failure: a dropped transport sends the session
/// back to connecting and drops every voice connection, a close ends it, and
/// anything else changes nothing.
pub open spec fn after_error(s: BotModel, e: ReceiveError) -> BotModel {
    match e {
        ReceiveError::Transport => BotModel {
            phase: Phase::Connecting,
            calls: Seq::empty(),
            ..s
        },
        ReceiveError::Closed => BotModel { phase: Phase::Terminated, ..s },
        ReceiveError::Other => s,
    }
}

/// The state once a fresh connection reported `snapshot`.
pub open spec fn after_connect(s: BotModel, snapshot: SnapshotModel) -> BotModel {
    BotModel { phase: Phase::Receiving, snapshot, calls: Seq::empty(), ..s }
}

/// After a dropped transport and the reconnection that follows, the mirror is
/// exactly what the new connection reported, and no voice connection of the
/// old session is left.
pub proof fn lemma_reconnect_starts_afresh(s: BotModel, fresh: SnapshotModel)
    ensures
        after_connect(after_error(s, ReceiveError::Transport), fresh).snapshot == fresh,
        after_connect(after_error(s, ReceiveError::Transport), fresh).calls.len() == 0,
        after_connect(after_error(s, ReceiveError::Transport), fresh).phase == Phase::Receiving,
{
}

fn not_in_voice_message() -> (r: String)
    ensures
        r@ == not_in_voice_text(),
{
    proof {
        reveal_strlit("You must be in a voice channel to DJ");
    }
    String::from_str("You must be in a voice channel to DJ")
}

fn searching_message(query: &str) -> (r: String)
    ensures
        r@ == searching_text(query@),
{
    proof {
        reveal_strlit("Searching for \"");
        reveal_strlit("\"...");
    }
    let mut r = String::from_str("Searching for \"");
    r.append(query);
    r.append("\"...");
    r
}

fn playing_message(title: &str, url: &str) -> (r: String)
    ensures
        r@ == playing_text(title@, url@),
{
    proof {
        reveal_strlit("Playing **");
        reveal_strlit("** (");
        reveal_strlit(")");
    }
    let mut r = String::from_str("Playing **");
    r.append(title);
    r.append("** (");
    r.append(url);
    r.append(")");
    r
}

fn error_message(e: &str) -> (r: String)
    ensures
        r@ == error_text(e@),
{
    proof {
        reveal_strlit("Error: ");
    }
    let mut r = String::from_str("Error: ");
    r.append(e);
    r
}

/// What follows a download for the play command of `reply_to` at `location`:
/// announce the track and open its file, or report the failure.
pub fn track_actions(
    location: Option<u64>,
    channel_id: u64,
    reply_to: u64,
    found: Result<Track, String>,
) -> (r: Vec<Action>)
    ensures
        match found {
            Ok(t) => r@.len() == 2 && is_send(
                r@[0],
                reply_to,
                playing_text(t.title@, t.webpage_url@),
            ) && is_open(r@[1], location, channel_id, reply_to, t.filename@),
            Err(e) => r@.len() == 1 && is_send(r@[0], reply_to, error_text(e@)),
        },
{
    let mut r: Vec<Action> = Vec::new();
    match found {
        Ok(t) => {
            let text = playing_message(t.title.as_str(), t.webpage_url.as_str());
            r.push(Action::Send { channel_id: reply_to, text });
            r.push(Action::Open { location, channel_id, reply_to, file: t.filename });
        },
        Err(e) => {
            r.push(Action::Send { channel_id: reply_to, text: error_message(e.as_str()) });
        },
    }
    r
}

impl Bot {
    /// The bot's state is consistent: its mirror and its voice connections
    /// are well formed.
    pub closed spec fn wf(&self) -> bool {
        self.snapshot.wf() && self.calls.wf()
    }

    /// A bot that just connected: `user_id` is its own identity and `servers`
    /// and `calls` are what the connection reported.
    pub fn new(config: Config, user_id: u64, servers: Vec<Venue>, calls: Vec<Venue>) -> (r: Bot)
        ensures
            r.wf(),
            r@.phase == Phase::Receiving,
            r@.command_channel == config.command_channel,
            r@.prefix == config.command_prefix@,
            r@.snapshot == initial_snapshot(user_id, servers@, calls@),
            r@.calls.len() == 0,
    {
        Bot {
            phase: Phase::Receiving,
            config,
            snapshot: Snapshot::new(user_id, servers, calls),
            calls: VoiceCalls::new(),
        }
    }

    /// The session's phase.
    pub fn phase(&self) -> (r: Phase)
        ensures
            r == self@.phase,
    {
        self.phase
    }

    /// The settings.
    pub fn config(&self) -> (r: &Config)
        ensures
            r.command_channel == self@.command_channel,
            r.command_prefix@ == self@.prefix,
    {
        &self.config
    }

    /// The mirror of remote state.
    pub fn snapshot(&self) -> (r: &Snapshot)
        ensures
            r@ == self@.snapshot,
    {
        &self.snapshot
    }

    /// The bot's voice connection at `location`, if any.
    pub fn active_call(&self, location: Option<u64>) -> (r: Option<ActiveCall>)
        requires
            self.wf(),
        ensures
            r == crate::voice::call_at(self@.calls, location),
    {
        self.calls.at(location)
    }

    /// Takes a receive failure.
    pub fn on_receive_error(&mut self, e: ReceiveError)
        requires
            old(self).wf(),
        ensures
            final(self).wf(),
            final(self)@ == after_error(old(self)@, e),
    {
        match e {
            ReceiveError::Transport => {
                self.phase = Phase::Connecting;
                self.calls.clear();
            },
            ReceiveError::Closed => {
                self.phase = Phase::Terminated;
            },
            ReceiveError::Other => {},
        }
    }

    /// Takes a fresh connection: the mirror is rebuilt from what it reported,
    /// and the session receives again.
    pub fn on_connected(&mut self, user_id: u64, servers: Vec<Venue>, calls: Vec<Venue>)
        requires
            old(self).wf(),
        ensures
            final(self).wf(),
            final(self)@ == after_connect(old(self)@, initial_snapshot(user_id, servers@, calls@)),
    {
        self.snapshot = Snapshot::new(user_id, servers, calls);
        self.calls.clear();
        self.phase = Phase::Receiving;
    }

    /// Takes a chat message.
    pub fn on_message(&mut self, m: Message) -> (r: Vec<Action>)
        requires
            old(self).wf(),
        ensures
            final(self).wf(),
            message_outcome(old(self)@, m, r@, final(self)@),
    {
        let mut r: Vec<Action> = Vec::new();
        let cmd = command_in(
            &self.config,
            self.snapshot.user_id(),
            m.author_id,
            m.channel_id,
            m.content.as_str(),
        );
        let c = match cmd {
            Some(c) => c,
            None => {
                return r;
            },
        };
        let place = self.snapshot.find_voice_location_of(m.author_id);
        match c {
            Command::Stop => {
                if let Some((loc, _)) = place {
                    self.calls.stop(loc);
                    r.push(Action::Stop { location: loc });
                    assert(r@ =~= seq![Action::Stop { location: loc }]);
                }
            },
            Command::Quit => {
                if let Some((loc, _)) = place {
                    self.calls.release(loc);
                    r.push(Action::Leave { location: loc });
                    assert(r@ =~= seq![Action::Leave { location: loc }]);
                }
            },
            Command::Play(query) => {
                match place {
                    Some((loc, ch)) => {
                        let text = searching_message(query.as_str());
                        r.push(Action::Send { channel_id: m.channel_id, text });
                        r.push(
                            Action::Fetch {
                                location: loc,
                                channel_id: ch,
                                reply_to: m.channel_id,
                                query,
                            },
                        );
                    },
                    None => {
                        r.push(Action::Send { channel_id: m.channel_id, text: not_in_voice_message() });
                    },
                }
            },
        }
        r
    }

    /// Takes an event: the mirror applies it, then a message is read for a
    /// command, and a presence change may leave the bot alone in a channel, which it then leaves.
    pub fn on_event(&mut self, e: Event) -> (r: Vec<Action>)
        requires
            old(self).wf(),
        ensures
            final(self).wf(),
            final(self)@.snapshot == apply_event(old(self)@.snapshot, e),
            final(self)@.phase == old(self)@.phase,
            match e {
                Event::MessageCreate(m) => message_outcome(old(self)@, m, r@, final(self)@),
                Event::VoiceStateUpdate(loc, _) => if must_disconnect(
                    old(self)@.calls,
                    final(self)@.snapshot,
                    loc,
                ) {
                    r@ == seq![Action::Disconnect { location: loc }] && final(self)@.calls
                        == released(old(self)@.calls, loc)
                } else {
                    r@.len() == 0 && final(self)@.calls == old(self)@.calls
                },
                _ => r@.len() == 0 && final(self)@.calls == old(self)@.calls,
            },
    {
        match e {
            Event::MessageCreate(m) => self.on_message(m),
            Event::VoiceStateUpdate(loc, st) => {
                self.snapshot.apply(Event::VoiceStateUpdate(loc, st));
                let mut r: Vec<Action> = Vec::new();
                if self.calls.on_presence_change(&self.snapshot, loc) {
                    r.push(Action::Disconnect { location: loc });
                    assert(r@ =~= seq![Action::Disconnect { location: loc }]);
                }
                r
            },
            other => {
                self.snapshot.apply(other);
                Vec::new()
            },
        }
    }

    /// Takes the result of a download asked for by `Action::Fetch`: whether
    /// the downloader succeeded, its output and its error stream.
    pub fn on_media(
        &self,
        location: Option<u64>,
        channel_id: u64,
        reply_to: u64,
        success: bool,
        out: &[u8],
        err: &str,
    ) -> (r: Vec<Action>)
        ensures
            match media_outcome(success, out@, err@) {
                Ok((title, url, file)) => r@.len() == 2 && is_send(
                    r@[0],
                    reply_to,
                    playing_text(title, url),
                ) && is_open(r@[1], location, channel_id, reply_to, file),
                Err(e) => r@.len() == 1 && is_send(r@[0], reply_to, error_text(e)),
            },
    {
        track_actions(location, channel_id, reply_to, resolve_media(success, out, err))
    }

    /// Takes the result of opening a file asked for by `Action::Open`: once
    /// open, the bot joins and plays there; otherwise the failure is reported.
    pub fn on_stream(
        &mut self,
        location: Option<u64>,
        channel_id: u64,
        reply_to: u64,
        opened: Result<(), String>,
    ) -> (r: Vec<Action>)
        requires
            old(self).wf(),
        ensures
            final(self).wf(),
            final(self)@.snapshot == old(self)@.snapshot,
            final(self)@.phase == old(self)@.phase,
            match opened {
                Ok(_) => r@ == seq![Action::Play { location, channel_id }] && final(self)@.calls
                    == joined(old(self)@.calls, location, channel_id),
                Err(e) => final(self)@.calls == old(self)@.calls && r@.len() == 1 && is_send(
                    r@[0],
                    reply_to,
                    error_text(e@),
                ),
            },
    {
        let mut r: Vec<Action> = Vec::new();
        match opened {
            Ok(()) => {
                self.calls.join(location, channel_id);
                r.push(Action::Play { location, channel_id });
                assert(r@ =~= seq![Action::Play { location, channel_id }]);
            },
            Err(e) => {
                r.push(Action::Send { channel_id: reply_to, text: error_message(e.as_str()) });
            },
        }
        r
    }
}

} // verus!
