//! The bot's own voice connections: where it is joined, whether it plays, and
//! when an abandoned channel is left.

use vstd::prelude::*;
use crate::model::{
    VoiceState, VenueModel, count_others, others_in_channel, first_of_user, upsert_state,
    without_user, lemma_count_update, lemma_count_without, lemma_first_of_user_exists,
};
use crate::mirror::{
    Event, Snapshot, SnapshotModel, apply_event, venue_index, lemma_index_found,
    lemma_first_id_unique, wf_model,
};

verus! {

/// The bot's voice connection at one location (a server, or none for a
/// private call): the channel it joined and whether it is playing.
#[derive(Clone, Copy, Debug, PartialEq, Eq, Structural)]
pub struct ActiveCall {
    pub location: Option<u64>,
    pub channel_id: u64,
    pub playing: bool,
}

/// The open voice connections, at most one per location.
#[derive(Debug)]
pub struct VoiceCalls {
    calls: Vec<ActiveCall>,
}

impl View for VoiceCalls {
    type V = Seq<ActiveCall>;

    closed spec fn view(&self) -> Seq<ActiveCall> {
        self.calls@
    }
}

/// Each location has at most one connection in `s`.
pub open spec fn unique_locations(s: Seq<ActiveCall>) -> bool {
    forall|i: int, j: int| 0 <= i < j < s.len() ==> s[i].location != s[j].location
}

/// The position of the connection at `loc` in `s`, or -1 where there is none.
pub open spec fn call_index(s: Seq<ActiveCall>, loc: Option<u64>) -> int {
    if exists|i: int| 0 <= i < s.len() && s[i].location == loc {
        choose|i: int| 0 <= i < s.len() && s[i].location == loc
    } else {
        -1
    }
}

/// The connection at `loc` in `s`, if any.
pub open spec fn call_at(s: Seq<ActiveCall>, loc: Option<u64>) -> Option<ActiveCall> {
    let i = call_index(s, loc);
    if i >= 0 {
        Some(s[i])
    } else {
        None
    }
}

/// `s` after the bot joins `channel` at `loc` and plays there.
pub open spec fn joined(s: Seq<ActiveCall>, loc: Option<u64>, channel: u64) -> Seq<ActiveCall> {
    let c = ActiveCall { location: loc, channel_id: channel, playing: true };
    let i = call_index(s, loc);
    if i >= 0 {
        s.update(i, c)
    } else {
        s.push(c)
    }
}

/// `s` after the playback at `loc` stops; the connection stays.
pub open spec fn stopped(s: Seq<ActiveCall>, loc: Option<u64>) -> Seq<ActiveCall> {
    let i = call_index(s, loc);
    if i >= 0 {
        s.update(i, ActiveCall { playing: false, ..s[i] })
    } else {
        s
    }
}

/// `s` without the connection at `loc`.
pub open spec fn released(s: Seq<ActiveCall>, loc: Option<u64>) -> Seq<ActiveCall> {
    let i = call_index(s, loc);
    if i >= 0 {
        s.remove(i)
    } else {
        s
    }
}

/// Nobody but the bot is left in `channel` at `loc`, as far as the snapshot
/// knows the location.
pub open spec fn abandoned(snap: SnapshotModel, loc: Option<u64>, channel: u64) -> bool {
    match loc {
        Some(sid) => {
            let i = venue_index(snap.servers, sid);
            i >= 0 && count_others(snap.servers[i].1, snap.user_id, channel) == 0
        },
        None => {
            let i = venue_index(snap.calls, channel);
            i >= 0 && count_others(snap.calls[i].1, snap.user_id, channel) == 0
        },
    }
}

/// Whether the bot's connection at `loc` is to be dropped after a presence
/// change there: it is joined there and its channel is abandoned.
pub open spec fn must_disconnect(calls: Seq<ActiveCall>, snap: SnapshotModel, loc: Option<u64>) -> bool {
    match call_at(calls, loc) {
        Some(c) => abandoned(snap, loc, c.channel_id),
        None => false,
    }
}

proof fn lemma_index_unique(s: Seq<ActiveCall>, loc: Option<u64>, i: int)
    requires
        unique_locations(s),
        0 <= i < s.len(),
        s[i].location == loc,
    ensures
        call_index(s, loc) == i,
{
}

proof fn lemma_index_absent(s: Seq<ActiveCall>, loc: Option<u64>)
    requires
        forall|j: int| 0 <= j < s.len() ==> s[j].location != loc,
    ensures
        call_index(s, loc) == -1,
{
}

/// `other` is the one participant besides `bot` in `channel` among `vs`, and
/// each of their presences there is in that channel.
pub open spec fn sole_other(vs: Seq<VoiceState>, bot: u64, other: u64, channel: u64) -> bool {
    &&& other != bot
    &&& count_others(vs, bot, channel) == 1
    &&& exists|j: int| 0 <= j < vs.len() && vs[j].user_id == other
    &&& forall|j: int|
        0 <= j < vs.len() && vs[j].user_id == other ==> vs[j].channel_id == Some(channel)
}

/// The venue where the bot holds `channel` at `loc`: the server `loc`, or for
/// a private call the call of that channel.
pub open spec fn venue_id(loc: Option<u64>, channel: u64) -> u64 {
    match loc {
        Some(sid) => sid,
        None => channel,
    }
}

/// The venues of `s` of the kind that `loc` names.
pub open spec fn venues_of(s: SnapshotModel, loc: Option<u64>) -> Seq<VenueModel> {
    match loc {
        Some(_) => s.servers,
        None => s.calls,
    }
}

proof fn lemma_update_keeps_index(vs: Seq<VenueModel>, i: int, v: VenueModel)
    requires
        0 <= i < vs.len(),
        v.0 == vs[i].0,
        venue_index(vs, v.0) == i,
    ensures
        venue_index(vs.update(i, v), v.0) == i,
{
    lemma_index_found(vs, v.0);
    lemma_first_id_unique(vs.update(i, v), v.0, i);
}

proof fn lemma_leaver_count(vs: Seq<VoiceState>, bot: u64, other: u64, channel: u64)
    requires
        sole_other(vs, bot, other, channel),
    ensures
        count_others(without_user(vs, other), bot, channel) == 0,
{
    let j = choose|j: int| 0 <= j < vs.len() && vs[j].user_id == other;
    assert(vs[j].channel_id == Some(channel));
    lemma_count_without(vs, other, bot, channel);
}

proof fn lemma_mover_count(
    vs: Seq<VoiceState>,
    bot: u64,
    other: u64,
    channel: u64,
    st: VoiceState,
)
    requires
        sole_other(vs, bot, other, channel),
        st.user_id == other,
        st.channel_id != Some(channel),
    ensures
        count_others(upsert_state(vs, st), bot, channel) == 0,
{
    let j = choose|j: int| 0 <= j < vs.len() && vs[j].user_id == other;
    lemma_first_of_user_exists(vs, other, j);
    let k = choose|k: int| first_of_user(vs, other, k);
    assert(vs[k].channel_id == Some(channel));
    lemma_count_update(vs, k, st, bot, channel);
}

/// When the one participant besides the bot in the channel that the bot holds
/// at `loc` leaves voice or moves to another channel, the bot's connection
/// there is to be dropped.
pub proof fn lemma_last_participant_leaves(
    calls: Seq<ActiveCall>,
    s: SnapshotModel,
    loc: Option<u64>,
    st: VoiceState,
)
    requires
        wf_model(s),
        call_at(calls, loc) is Some,
        venue_index(venues_of(s, loc), venue_id(loc, call_at(calls, loc)->0.channel_id)) >= 0,
        sole_other(
            venues_of(s, loc)[venue_index(
                venues_of(s, loc),
                venue_id(loc, call_at(calls, loc)->0.channel_id),
            )].1,
            s.user_id,
            st.user_id,
            call_at(calls, loc)->0.channel_id,
        ),
        st.channel_id != Some(call_at(calls, loc)->0.channel_id),
    ensures
        must_disconnect(calls, apply_event(s, Event::VoiceStateUpdate(loc, st)), loc),
{
    let ch = call_at(calls, loc)->0.channel_id;
    let id = venue_id(loc, ch);
    let vs = venues_of(s, loc);
    let i = venue_index(vs, id);
    lemma_index_found(vs, id);
    let t = apply_event(s, Event::VoiceStateUpdate(loc, st));
    match loc {
        Some(sid) => {
            if st.channel_id is None {
                lemma_leaver_count(vs[i].1, s.user_id, st.user_id, ch);
                lemma_update_keeps_index(vs, i, (sid, without_user(vs[i].1, st.user_id)));
            } else {
                lemma_mover_count(vs[i].1, s.user_id, st.user_id, ch, st);
                lemma_update_keeps_index(vs, i, (sid, upsert_state(vs[i].1, st)));
            }
        },
        None => {
            lemma_leaver_count(vs[i].1, s.user_id, st.user_id, ch);
            assert(t.calls[i] == (ch, without_user(vs[i].1, st.user_id)));
            lemma_first_id_unique(t.calls, ch, i);
        },
    }
}

/// Whether nobody but the bot is left in `channel` at `loc`.
pub fn is_abandoned(snap: &Snapshot, loc: Option<u64>, channel: u64) -> (r: bool)
    ensures
        r == abandoned(snap@, loc, channel),
{
    let venue = match loc {
        Some(sid) => snap.server_by_id(sid),
        None => snap.call_by_id(channel),
    };
    match venue {
        Some(v) => others_in_channel(&v.voice_states, snap.user_id(), channel) == 0,
        None => false,
    }
}

impl VoiceCalls {
    /// Each location has at most one connection.
    pub open spec fn wf(&self) -> bool {
        unique_locations(self@)
    }

    /// No connection at all.
    pub fn new() -> (r: VoiceCalls)
        ensures
            r.wf(),
            r@ == Seq::<ActiveCall>::empty(),
    {
        VoiceCalls { calls: Vec::new() }
    }

    fn position(&self, loc: Option<u64>) -> (r: Option<usize>)
        requires
            self.wf(),
        ensures
            r matches Some(i) ==> i < self@.len() && call_index(self@, loc) == i as int,
            r is None ==> call_index(self@, loc) == -1,
    {
        let mut i: usize = 0;
        while i < self.calls.len()
            invariant
                i <= self.calls@.len(),
                self.wf(),
                forall|j: int| 0 <= j < i ==> self.calls@[j].location != loc,
            decreases self.calls@.len() - i,
        {
            if self.calls[i].location == loc {
                proof {
                    lemma_index_unique(self@, loc, i as int);
                }
                return Some(i);
            }
            i = i + 1;
        }
        proof {
            lemma_index_absent(self@, loc);
        }
        None
    }

    /// The connection at `loc`, if any.
    pub fn at(&self, loc: Option<u64>) -> (r: Option<ActiveCall>)
        requires
            self.wf(),
        ensures
            r == call_at(self@, loc),
    {
        match self.position(loc) {
            Some(i) => Some(self.calls[i]),
            None => None,
        }
    }

    /// Records that the bot joined `channel` at `loc` and plays there; an
    /// earlier connection at `loc` is replaced.
    pub fn join(&mut self, loc: Option<u64>, channel: u64)
        requires
            old(self).wf(),
        ensures
            final(self).wf(),
            final(self)@ == joined(old(self)@, loc, channel),
    {
        let c = ActiveCall { location: loc, channel_id: channel, playing: true };
        match self.position(loc) {
            Some(i) => {
                self.calls.remove(i);
                self.calls.insert(i, c);
                assert(self.calls@ =~= old(self)@.update(i as int, c));
            },
            None => {
                self.calls.push(c);
            },
        }
    }

    /// Records that the playback at `loc` stopped.
    pub fn stop(&mut self, loc: Option<u64>)
        requires
            old(self).wf(),
        ensures
            final(self).wf(),
            final(self)@ == stopped(old(self)@, loc),
    {
        if let Some(i) = self.position(loc) {
            let c = self.calls[i];
            let d = ActiveCall { playing: false, ..c };
            self.calls.remove(i);
            self.calls.insert(i, d);
            assert(self.calls@ =~= old(self)@.update(i as int, d));
        }
    }

    /// Drops the connection at `loc`.
    pub fn release(&mut self, loc: Option<u64>)
        requires
            old(self).wf(),
        ensures
            final(self).wf(),
            final(self)@ == released(old(self)@, loc),
    {
        if let Some(i) = self.position(loc) {
            self.calls.remove(i);
            proof {
                let r = self.calls@;
                let s = old(self)@;
                assert forall|a: int, b: int| 0 <= a < b < r.len() implies r[a].location
                    != r[b].location by {
                    let a2 = if a < i { a } else { a + 1 };
                    let b2 = if b < i { b } else { b + 1 };
                    assert(r[a] == s[a2] && r[b] == s[b2]);
                }
            }
        }
    }

    /// Drops every connection.
    pub fn clear(&mut self)
        ensures
            final(self).wf(),
            final(self)@ == Seq::<ActiveCall>::empty(),
    {
        self.calls.clear();
    }

    /// Decides, after a presence change at `loc`, whether the bot leaves the
    /// voice channel it holds there: it does when no one else is left in it.
    /// The connection is dropped then.
    pub fn on_presence_change(&mut self, snap: &Snapshot, loc: Option<u64>) -> (r: bool)
        requires
            old(self).wf(),
        ensures
            final(self).wf(),
            r == must_disconnect(old(self)@, snap@, loc),
            r ==> final(self)@ == released(old(self)@, loc),
            !r ==> final(self)@ == old(self)@,
    {
        match self.at(loc) {
            Some(c) => {
                if is_abandoned(snap, loc, c.channel_id) {
                    self.release(loc);
                    true
                } else {
                    false
                }
            },
            None => false,
        }
    }
}

} // verus!
