//! The local mirror of remote state: known servers and private calls with the
//! voice presences in them, kept up to date by applying events in order.

use vstd::prelude::*;
use crate::model::{
    VoiceState, Venue, VenueModel, without_user, upsert_state, has_present, remove_user, upsert,
    present_channel_of, lemma_without_user_absent,
};

verus! {

/// A chat message as received.
#[derive(Debug)]
pub struct Message {
    pub author_id: u64,
    pub channel_id: u64,
    pub content: String,
}

/// An event received over the realtime connection.
#[derive(Debug)]
pub enum Event {
    MessageCreate(Message),
    /// A voice presence changed, in the given server (none for a private call).
    VoiceStateUpdate(Option<u64>, VoiceState),
    ServerCreate(Venue),
    ServerDelete(u64),
    CallCreate(Venue),
    CallDelete(u64),
    /// Any other kind of event: it leaves the mirror unchanged.
    Unknown,
}

/// The model of a snapshot: the bot's own user id, the known servers and the
/// known private calls (keyed by channel id).
pub struct SnapshotModel {
    pub user_id: u64,
    pub servers: Seq<VenueModel>,
    pub calls: Seq<VenueModel>,
}

/// What the realtime service knows of the bot, as mirrored locally.
#[derive(Debug)]
pub struct Snapshot {
    user_id: u64,
    servers: Vec<Venue>,
    calls: Vec<Venue>,
}

pub open spec fn venues_view(v: Seq<Venue>) -> Seq<VenueModel> {
    v.map_values(|x: Venue| x@)
}

impl View for Snapshot {
    type V = SnapshotModel;

    closed spec fn view(&self) -> SnapshotModel {
        SnapshotModel {
            user_id: self.user_id,
            servers: venues_view(self.servers@),
            calls: venues_view(self.calls@),
        }
    }
}

/// `i` is the first position of `vs` that holds the venue `id`.
pub open spec fn first_of_id(vs: Seq<VenueModel>, id: u64, i: int) -> bool {
    &&& 0 <= i < vs.len()
    &&& vs[i].0 == id
    &&& forall|j: int| 0 <= j < i ==> vs[j].0 != id
}

/// The position of the venue `id` in `vs`, or -1 where it is absent.
pub open spec fn venue_index(vs: Seq<VenueModel>, id: u64) -> int {
    if exists|i: int| first_of_id(vs, id, i) {
        choose|i: int| first_of_id(vs, id, i)
    } else {
        -1
    }
}

/// `vs` with `v` in place of the venue of the same id, or added at the end.
pub open spec fn put_venue(vs: Seq<VenueModel>, v: VenueModel) -> Seq<VenueModel> {
    let i = venue_index(vs, v.0);
    if i >= 0 {
        vs.update(i, v)
    } else {
        vs.push(v)
    }
}

/// `vs` without the venue `id`.
pub open spec fn drop_venue(vs: Seq<VenueModel>, id: u64) -> Seq<VenueModel> {
    let i = venue_index(vs, id);
    if i >= 0 {
        vs.remove(i)
    } else {
        vs
    }
}

/// The effect of a presence change on the venue `id` of `vs`: the user's
/// presence is dropped when they left voice, and replaced or added otherwise.
/// An unknown venue is left absent.
pub open spec fn change_presence(vs: Seq<VenueModel>, id: u64, st: VoiceState) -> Seq<
    VenueModel,
> {
    let i = venue_index(vs, id);
    if i < 0 {
        vs
    } else if st.channel_id is None {
        vs.update(i, (id, without_user(vs[i].1, st.user_id)))
    } else {
        vs.update(i, (id, upsert_state(vs[i].1, st)))
    }
}

/// The effect of a presence change in private calls: the user's presence is
/// replaced or added in the call of the new channel, when that call is known,
/// and dropped from every other call.
pub open spec fn move_in_calls(vs: Seq<VenueModel>, st: VoiceState) -> Seq<VenueModel> {
    vs.map_values(
        |v: VenueModel|
            if st.channel_id == Some(v.0) {
                (v.0, upsert_state(v.1, st))
            } else {
                (v.0, without_user(v.1, st.user_id))
            },
    )
}

/// The snapshot after one event.
pub open spec fn apply_event(s: SnapshotModel, e: Event) -> SnapshotModel {
    match e {
        Event::VoiceStateUpdate(Some(sid), st) => SnapshotModel {
            servers: change_presence(s.servers, sid, st),
            ..s
        },
        Event::VoiceStateUpdate(None, st) => SnapshotModel {
            calls: move_in_calls(s.calls, st),
            ..s
        },
        Event::ServerCreate(v) => SnapshotModel { servers: put_venue(s.servers, v@), ..s },
        Event::ServerDelete(id) => SnapshotModel { servers: drop_venue(s.servers, id), ..s },
        Event::CallCreate(v) => SnapshotModel { calls: put_venue(s.calls, v@), ..s },
        Event::CallDelete(id) => SnapshotModel { calls: drop_venue(s.calls, id), ..s },
        Event::MessageCreate(_) => s,
        Event::Unknown => s,
    }
}

/// The snapshot after the events of `es`, in order.
pub open spec fn apply_events(s: SnapshotModel, es: Seq<Event>) -> SnapshotModel
    decreases es.len(),
{
    if es.len() == 0 {
        s
    } else {
        apply_event(apply_events(s, es.drop_last()), es.last())
    }
}

/// The events announcing each of `servers`.
pub open spec fn created_servers(servers: Seq<Venue>) -> Seq<Event> {
    servers.map_values(|v: Venue| Event::ServerCreate(v))
}

/// The events announcing each of `calls`.
pub open spec fn created_calls(calls: Seq<Venue>) -> Seq<Event> {
    calls.map_values(|v: Venue| Event::CallCreate(v))
}

/// The events that a fresh connection amounts to: each of its servers, then
/// each of its calls, announced in turn.
pub open spec fn initial_events(servers: Seq<Venue>, calls: Seq<Venue>) -> Seq<Event> {
    created_servers(servers) + created_calls(calls)
}

/// Whether `user` is in a voice channel of some known server or call.
pub open spec fn in_voice(s: SnapshotModel, user: u64) -> bool {
    (exists|i: int| 0 <= i < s.servers.len() && has_present(s.servers[i].1, user)) || (exists|
        i: int,
    |
        0 <= i < s.calls.len() && has_present(s.calls[i].1, user))
}

/// `loc` and `channel` are a voice location of `user` in `s`: a server whose
/// presence of `user` is in `channel`, or (location none) a call `channel`
/// in which `user` is present.
pub open spec fn is_voice_location(
    s: SnapshotModel,
    user: u64,
    loc: Option<u64>,
    channel: u64,
) -> bool {
    match loc {
        Some(sid) => exists|i: int, j: int|
            0 <= i < s.servers.len() && s.servers[i].0 == sid && 0 <= j < s.servers[i].1.len()
                && s.servers[i].1[j].user_id == user && s.servers[i].1[j].channel_id == Some(
                channel,
            ),
        None => exists|i: int|
            0 <= i < s.calls.len() && s.calls[i].0 == channel && has_present(s.calls[i].1, user),
    }
}

/// The first position of an id is the one that `venue_index` gives.
pub proof fn lemma_first_id_unique(vs: Seq<VenueModel>, id: u64, i: int)
    requires
        first_of_id(vs, id, i),
    ensures
        venue_index(vs, id) == i,
{
    let k = choose|k: int| first_of_id(vs, id, k);
    assert(first_of_id(vs, id, k));
    if k < i {
        assert(vs[k].0 != id);
    } else if i < k {
        assert(vs[i].0 != id);
    }
}

/// The position of the venue `id` in `v`.
fn position_of_venue(v: &Vec<Venue>, id: u64) -> (r: Option<usize>)
    ensures
        r matches Some(i) ==> i < v@.len() && venue_index(venues_view(v@), id) == i as int,
        r is None ==> venue_index(venues_view(v@), id) == -1,
{
    let ghost vv = venues_view(v@);
    let mut i: usize = 0;
    while i < v.len()
        invariant
            i <= v.len(),
            vv == venues_view(v@),
            forall|j: int| 0 <= j < i ==> vv[j].0 != id,
        decreases v.len() - i,
    {
        if v[i].id == id {
            proof {
                lemma_first_id_unique(vv, id, i as int);
            }
            return Some(i);
        }
        i = i + 1;
    }
    None
}

/// Puts `x` in place of the venue of the same id, or adds it at the end.
fn put(v: &mut Vec<Venue>, x: Venue)
    ensures
        venues_view(final(v)@) == put_venue(venues_view(old(v)@), x@),
{
    match position_of_venue(v, x.id) {
        Some(i) => {
            let ghost xv = x@;
            v.remove(i);
            v.insert(i, x);
            assert(venues_view(v@) =~= venues_view(old(v)@).update(i as int, xv));
        },
        None => {
            v.push(x);
            assert(venues_view(v@) =~= venues_view(old(v)@).push(x@));
        },
    }
}

/// Drops the venue `id`.
fn drop(v: &mut Vec<Venue>, id: u64)
    ensures
        venues_view(final(v)@) == drop_venue(venues_view(old(v)@), id),
{
    if let Some(i) = position_of_venue(v, id) {
        v.remove(i);
        assert(venues_view(v@) =~= venues_view(old(v)@).remove(i as int));
    }
}

/// Applies a presence change to the venue `id`.
fn change(v: &mut Vec<Venue>, id: u64, st: VoiceState)
    ensures
        venues_view(final(v)@) == change_presence(venues_view(old(v)@), id, st),
{
    if let Some(i) = position_of_venue(v, id) {
        let states = if st.channel_id.is_none() {
            remove_user(&v[i].voice_states, st.user_id)
        } else {
            upsert(&v[i].voice_states, st)
        };
        let ghost sv = states@;
        v.remove(i);
        v.insert(i, Venue { id, voice_states: states });
        assert(venues_view(v@) =~= venues_view(old(v)@).update(i as int, (id, sv)));
    }
}

/// Applies a presence change to the private calls.
fn move_calls(v: &mut Vec<Venue>, st: VoiceState)
    ensures
        venues_view(final(v)@) == move_in_calls(venues_view(old(v)@), st),
{
    let ghost target = move_in_calls(venues_view(old(v)@), st);
    let mut i: usize = 0;
    while i < v.len()
        invariant
            i <= v.len(),
            v@.len() == old(v)@.len(),
            target == move_in_calls(venues_view(old(v)@), st),
            forall|j: int| 0 <= j < i ==> #[trigger] v@[j]@ == target[j],
            forall|j: int| i <= j < v@.len() ==> #[trigger] v@[j] == old(v)@[j],
        decreases v.len() - i,
    {
        let ghost before = v@;
        let id = v[i].id;
        let states = if st.channel_id == Some(id) {
            upsert(&v[i].voice_states, st)
        } else {
            remove_user(&v[i].voice_states, st.user_id)
        };
        v.remove(i);
        v.insert(i, Venue { id, voice_states: states });
        proof {
            assert(forall|j: int| 0 <= j < v@.len() && j != i ==> v@[j] == before[j]);
            assert(v@[i as int]@ == target[i as int]);
        }
        i = i + 1;
    }
    assert(venues_view(v@) =~= target);
}

/// The first known server in which `user` is in a voice channel, with that channel.
fn server_location(v: &Vec<Venue>, user: u64) -> (r: Option<(u64, u64)>)
    ensures
        r is None ==> forall|i: int|
            0 <= i < v@.len() ==> !has_present(#[trigger] v@[i].voice_states@, user),
        r matches Some((sid, c)) ==> exists|i: int, j: int|
            0 <= i < v@.len() && v@[i].id == sid && 0 <= j < v@[i].voice_states@.len()
                && v@[i].voice_states@[j].user_id == user && v@[i].voice_states@[j].channel_id
                == Some(c),
{
    let mut i: usize = 0;
    while i < v.len()
        invariant
            i <= v.len(),
            forall|k: int| 0 <= k < i ==> !has_present(#[trigger] v@[k].voice_states@, user),
        decreases v.len() - i,
    {
        if let Some(c) = present_channel_of(&v[i].voice_states, user) {
            return Some((v[i].id, c));
        }
        i = i + 1;
    }
    None
}

/// The first known call in which `user` is in a voice channel.
fn call_location(v: &Vec<Venue>, user: u64) -> (r: Option<u64>)
    ensures
        r is None ==> forall|i: int|
            0 <= i < v@.len() ==> !has_present(#[trigger] v@[i].voice_states@, user),
        r matches Some(c) ==> exists|i: int|
            0 <= i < v@.len() && v@[i].id == c && has_present(v@[i].voice_states@, user),
{
    let mut i: usize = 0;
    while i < v.len()
        invariant
            i <= v.len(),
            forall|k: int| 0 <= k < i ==> !has_present(#[trigger] v@[k].voice_states@, user),
        decreases v.len() - i,
    {
        if present_channel_of(&v[i].voice_states, user).is_some() {
            return Some(v[i].id);
        }
        i = i + 1;
    }
    None
}

/// Each id names at most one venue of `vs`.
pub open spec fn unique_ids(vs: Seq<VenueModel>) -> bool {
    forall|i: int, j: int| 0 <= i < j < vs.len() ==> vs[i].0 != vs[j].0
}

/// A snapshot maps each server id and each call id to at most one venue.
pub open spec fn wf_model(s: SnapshotModel) -> bool {
    unique_ids(s.servers) && unique_ids(s.calls)
}

/// What `venue_index` gives: the first position of the id, or -1 where no
/// venue has it.
pub proof fn lemma_index_found(vs: Seq<VenueModel>, id: u64)
    ensures
        venue_index(vs, id) >= 0 ==> first_of_id(vs, id, venue_index(vs, id)),
        venue_index(vs, id) < 0 ==> forall|j: int| 0 <= j < vs.len() ==> vs[j].0 != id,
{
    if venue_index(vs, id) < 0 {
        assert forall|j: int| 0 <= j < vs.len() implies vs[j].0 != id by {
            if vs[j].0 == id {
                lemma_first_exists(vs, id, j);
            }
        }
    }
}

proof fn lemma_first_exists(vs: Seq<VenueModel>, id: u64, j: int)
    requires
        0 <= j < vs.len(),
        vs[j].0 == id,
    ensures
        exists|k: int| first_of_id(vs, id, k),
    decreases j,
{
    if exists|m: int| 0 <= m < j && vs[m].0 == id {
        let m = choose|m: int| 0 <= m < j && vs[m].0 == id;
        lemma_first_exists(vs, id, m);
    } else {
        assert(first_of_id(vs, id, j));
    }
}

proof fn lemma_event_keeps_wf(s: SnapshotModel, e: Event)
    requires
        wf_model(s),
    ensures
        wf_model(apply_event(s, e)),
{
    match e {
        Event::VoiceStateUpdate(Some(sid), st) => {
            lemma_index_found(s.servers, sid);
        },
        Event::VoiceStateUpdate(None, st) => {
            let t = move_in_calls(s.calls, st);
            assert forall|i: int, j: int| 0 <= i < j < t.len() implies t[i].0 != t[j].0 by {
                assert(t[i].0 == s.calls[i].0 && t[j].0 == s.calls[j].0);
            }
        },
        Event::ServerCreate(v) => {
            lemma_index_found(s.servers, v.id);
            lemma_put_keeps_unique(s.servers, v@);
        },
        Event::ServerDelete(id) => {
            lemma_index_found(s.servers, id);
            lemma_drop_keeps_unique(s.servers, id);
        },
        Event::CallCreate(v) => {
            lemma_index_found(s.calls, v.id);
            lemma_put_keeps_unique(s.calls, v@);
        },
        Event::CallDelete(id) => {
            lemma_index_found(s.calls, id);
            lemma_drop_keeps_unique(s.calls, id);
        },
        _ => {},
    }
}

proof fn lemma_put_keeps_unique(vs: Seq<VenueModel>, v: VenueModel)
    requires
        unique_ids(vs),
    ensures
        unique_ids(put_venue(vs, v)),
{
    lemma_index_found(vs, v.0);
}

proof fn lemma_drop_keeps_unique(vs: Seq<VenueModel>, id: u64)
    requires
        unique_ids(vs),
    ensures
        unique_ids(drop_venue(vs, id)),
{
    lemma_index_found(vs, id);
    let i = venue_index(vs, id);
    if i >= 0 {
        let r = vs.remove(i);
        assert forall|a: int, b: int| 0 <= a < b < r.len() implies r[a].0 != r[b].0 by {
            let a2 = if a < i { a } else { a + 1 };
            let b2 = if b < i { b } else { b + 1 };
            assert(r[a] == vs[a2] && r[b] == vs[b2]);
        }
    }
}

/// Applying the events of `a` and then those of `b` is applying the events
/// of `a + b`: a sequence of events may be processed in any number of parts,
/// so long as the order is kept.
pub proof fn lemma_apply_events_split(s: SnapshotModel, a: Seq<Event>, b: Seq<Event>)
    ensures
        apply_events(s, a + b) == apply_events(apply_events(s, a), b),
    decreases b.len(),
{
    if b.len() == 0 {
        assert(a + b =~= a);
    } else {
        assert((a + b).drop_last() =~= a + b.drop_last());
        lemma_apply_events_split(s, a, b.drop_last());
    }
}

/// Replaying one sequence of events on two equal snapshots gives equal snapshots.
pub proof fn lemma_replay_deterministic(s1: SnapshotModel, s2: SnapshotModel, es: Seq<Event>)
    requires
        s1 == s2,
    ensures
        apply_events(s1, es) == apply_events(s2, es),
{
}

/// Every snapshot reached by events from a well-formed one is well formed.
pub proof fn lemma_events_keep_wf(s: SnapshotModel, es: Seq<Event>)
    requires
        wf_model(s),
    ensures
        wf_model(apply_events(s, es)),
    decreases es.len(),
{
    if es.len() > 0 {
        lemma_events_keep_wf(s, es.drop_last());
        lemma_event_keeps_wf(apply_events(s, es.drop_last()), es.last());
    }
}

/// Once a user leaves voice in the only server in which they were in voice,
/// and they are in no call, they are in voice nowhere.
pub proof fn lemma_leaving_server_voice(s: SnapshotModel, sid: u64, st: VoiceState)
    requires
        wf_model(s),
        st.channel_id is None,
        forall|i: int|
            0 <= i < s.servers.len() && s.servers[i].0 != sid ==> !has_present(
                #[trigger] s.servers[i].1,
                st.user_id,
            ),
        forall|i: int| 0 <= i < s.calls.len() ==> !has_present(#[trigger] s.calls[i].1, st.user_id),
    ensures
        !in_voice(apply_event(s, Event::VoiceStateUpdate(Some(sid), st)), st.user_id),
{
    lemma_index_found(s.servers, sid);
    let i = venue_index(s.servers, sid);
    if i >= 0 {
        lemma_without_user_absent(s.servers[i].1, st.user_id);
        let t = apply_event(s, Event::VoiceStateUpdate(Some(sid), st));
        assert forall|k: int| 0 <= k < t.servers.len() implies !has_present(
            t.servers[k].1,
            st.user_id,
        ) by {
            if k != i {
                assert(t.servers[k] == s.servers[k]);
            }
        }
    }
}

/// Once a user leaves voice in calls, and they are in voice in no server,
/// they are in voice nowhere.
pub proof fn lemma_leaving_call_voice(s: SnapshotModel, st: VoiceState)
    requires
        st.channel_id is None,
        forall|i: int|
            0 <= i < s.servers.len() ==> !has_present(#[trigger] s.servers[i].1, st.user_id),
    ensures
        !in_voice(apply_event(s, Event::VoiceStateUpdate(None, st)), st.user_id),
{
    let t = apply_event(s, Event::VoiceStateUpdate(None, st));
    assert(t.servers == s.servers);
    assert forall|k: int| 0 <= k < t.calls.len() implies !has_present(
        t.calls[k].1,
        st.user_id,
    ) by {
        lemma_without_user_absent(s.calls[k].1, st.user_id);
    }
}

impl Snapshot {
    /// The snapshot that a fresh connection starts from: the bot's own user id
    /// and the servers and calls that the connection reported. A venue listed
    /// twice is kept once, as listed last.
    pub fn new(user_id: u64, servers: Vec<Venue>, calls: Vec<Venue>) -> (r: Snapshot)
        ensures
            r.wf(),
            r@.user_id == user_id,
            r@ == apply_events(
                SnapshotModel { user_id, servers: Seq::empty(), calls: Seq::empty() },
                initial_events(servers@, calls@),
            ),
    {
        let mut s = Snapshot { user_id, servers: Vec::new(), calls: Vec::new() };
        let ghost s0 = s@;
        assert(s0.servers =~= Seq::<VenueModel>::empty());
        assert(s0.calls =~= Seq::<VenueModel>::empty());
        let ghost es1 = created_servers(servers@);
        let ghost es2 = created_calls(calls@);
        let mut servers = servers;
        let mut calls = calls;
        let ghost sv = servers@;
        let ghost cv = calls@;
        let n_servers = servers.len();
        let n_calls = calls.len();
        assert(s@ == apply_events(s0, es1.subrange(0, 0)));
        let mut i: usize = 0;
        while servers.len() > 0
            invariant
                i + servers@.len() == sv.len(),
                servers@ == sv.subrange(i as int, sv.len() as int),
                s@ == apply_events(s0, es1.subrange(0, i as int)),
                es1 == created_servers(sv),
                s.user_id == user_id,
                sv.len() <= usize::MAX,
            decreases servers.len(),
        {
            let x = servers.remove(0);
            assert(es1.subrange(0, i + 1).drop_last() =~= es1.subrange(0, i as int));
            s.servers_put(x);
            i = i + 1;
            assert(servers@ =~= sv.subrange(i as int, sv.len() as int));
        }
        assert(es1.subrange(0, i as int) =~= es1);
        let ghost s1 = s@;
        assert(es1 + es2.subrange(0, 0) =~= es1);
        let mut k: usize = 0;
        while calls.len() > 0
            invariant
                k + calls@.len() == cv.len(),
                calls@ == cv.subrange(k as int, cv.len() as int),
                s@ == apply_events(s0, es1 + es2.subrange(0, k as int)),
                es2 == created_calls(cv),
                s.user_id == user_id,
                cv.len() <= usize::MAX,
            decreases calls.len(),
        {
            let x = calls.remove(0);
            assert((es1 + es2.subrange(0, k + 1)).drop_last() =~= es1 + es2.subrange(0, k as int));
            s.calls_put(x);
            k = k + 1;
            assert(calls@ =~= cv.subrange(k as int, cv.len() as int));
        }
        assert(es1 + es2.subrange(0, k as int) =~= es1 + es2);
        proof {
            lemma_events_keep_wf(s0, initial_events(sv, cv));
        }
        s
    }

    /// Each server id and each call id names at most one venue.
    pub open spec fn wf(&self) -> bool {
        wf_model(self@)
    }

    /// Applies the events of `es` in order.
    pub fn apply_all(&mut self, es: Vec<Event>)
        requires
            old(self).wf(),
        ensures
            final(self).wf(),
            final(self)@ == apply_events(old(self)@, es@),
    {
        let ghost ev = es@;
        let mut es = es;
        let mut i: usize = 0;
        let n = es.len();
        assert(ev.subrange(0, 0) =~= Seq::<Event>::empty());
        while es.len() > 0
            invariant
                i + es@.len() == ev.len(),
                n == ev.len(),
                es@ == ev.subrange(i as int, ev.len() as int),
                self.wf(),
                self@ == apply_events(old(self)@, ev.subrange(0, i as int)),
            decreases es.len(),
        {
            let e = es.remove(0);
            assert(ev.subrange(0, i + 1).drop_last() =~= ev.subrange(0, i as int));
            self.apply(e);
            i = i + 1;
            assert(es@ =~= ev.subrange(i as int, ev.len() as int));
        }
        assert(ev.subrange(0, i as int) =~= ev);
    }

    fn servers_put(&mut self, x: Venue)
        ensures
            final(self)@ == apply_event(old(self)@, Event::ServerCreate(x)),
    {
        put(&mut self.servers, x);
    }

    fn calls_put(&mut self, x: Venue)
        ensures
            final(self)@ == apply_event(old(self)@, Event::CallCreate(x)),
    {
        put(&mut self.calls, x);
    }

    /// The bot's own user id.
    pub fn user_id(&self) -> (r: u64)
        ensures
            r == self@.user_id,
    {
        self.user_id
    }

    /// Applies one event: the snapshot afterwards reflects it on top of all
    /// events applied before. Kinds that the mirror does not track change nothing.
    pub fn apply(&mut self, e: Event)
        requires
            old(self).wf(),
        ensures
            final(self).wf(),
            final(self)@ == apply_event(old(self)@, e),
    {
        proof {
            lemma_event_keeps_wf(self@, e);
        }
        match e {
            Event::VoiceStateUpdate(Some(sid), st) => change(&mut self.servers, sid, st),
            Event::VoiceStateUpdate(None, st) => move_calls(&mut self.calls, st),
            Event::ServerCreate(v) => put(&mut self.servers, v),
            Event::ServerDelete(id) => drop(&mut self.servers, id),
            Event::CallCreate(v) => put(&mut self.calls, v),
            Event::CallDelete(id) => drop(&mut self.calls, id),
            Event::MessageCreate(_) => {},
            Event::Unknown => {},
        }
    }

    /// The server (or, with none, the private call) and the channel in which
    /// `user` is in voice; none where they are in none. Servers are searched
    /// before calls, each in the order in which the snapshot holds them.
    pub fn find_voice_location_of(&self, user: u64) -> (r: Option<(Option<u64>, u64)>)
        ensures
            r is None <==> !in_voice(self@, user),
            r matches Some((loc, c)) ==> is_voice_location(self@, user, loc, c),
    {
        let ghost sv = self@;
        match server_location(&self.servers, user) {
            Some((sid, c)) => {
                proof {
                    let (i, j) = choose|i: int, j: int|
                        0 <= i < self.servers@.len() && self.servers@[i].id == sid && 0 <= j
                            < self.servers@[i].voice_states@.len()
                            && self.servers@[i].voice_states@[j].user_id == user
                            && self.servers@[i].voice_states@[j].channel_id == Some(c);
                    assert(sv.servers[i] == self.servers@[i]@);
                    assert(has_present(sv.servers[i].1, user));
                }
                Some((Some(sid), c))
            },
            None => match call_location(&self.calls, user) {
                Some(c) => {
                    proof {
                        let i = choose|i: int|
                            0 <= i < self.calls@.len() && self.calls@[i].id == c && has_present(
                                self.calls@[i].voice_states@,
                                user,
                            );
                        assert(sv.calls[i] == self.calls@[i]@);
                    }
                    Some((None, c))
                },
                None => {
                    proof {
                        assert forall|i: int| 0 <= i < sv.servers.len() implies !has_present(
                            sv.servers[i].1,
                            user,
                        ) by {
                            assert(sv.servers[i] == self.servers@[i]@);
                        }
                        assert forall|i: int| 0 <= i < sv.calls.len() implies !has_present(
                            sv.calls[i].1,
                            user,
                        ) by {
                            assert(sv.calls[i] == self.calls@[i]@);
                        }
                    }
                    None
                },
            },
        }
    }

    /// The known server `id`, if any.
    pub fn server_by_id(&self, id: u64) -> (r: Option<&Venue>)
        ensures
            venue_index(self@.servers, id) < 0 ==> r is None,
            venue_index(self@.servers, id) >= 0 ==> (r matches Some(v) && v@ == self@.servers[venue_index(
                self@.servers,
                id,
            )]),
    {
        match position_of_venue(&self.servers, id) {
            Some(i) => Some(&self.servers[i]),
            None => None,
        }
    }

    /// The known private call on channel `id`, if any.
    pub fn call_by_id(&self, id: u64) -> (r: Option<&Venue>)
        ensures
            venue_index(self@.calls, id) < 0 ==> r is None,
            venue_index(self@.calls, id) >= 0 ==> (r matches Some(v) && v@ == self@.calls[venue_index(
                self@.calls,
                id,
            )]),
    {
        match position_of_venue(&self.calls, id) {
            Some(i) => Some(&self.calls[i]),
            None => None,
        }
    }
}

} // verus!
