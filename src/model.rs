//! Voice presences and the locations (servers and private calls) that hold them.

use vstd::prelude::*;

verus! {

/// One user's voice presence: the channel they are in (none once they left),
/// and the server it belongs to (none for a private call).
#[derive(Clone, Copy, Debug, PartialEq, Eq, Structural)]
pub struct VoiceState {
    pub user_id: u64,
    pub channel_id: Option<u64>,
    pub server_id: Option<u64>,
}

/// A server, or a private call keyed by its channel, with the voice presences
/// observed in it.
#[derive(Debug)]
pub struct Venue {
    pub id: u64,
    pub voice_states: Vec<VoiceState>,
}

/// The model of a venue: its id and its presences.
pub type VenueModel = (u64, Seq<VoiceState>);

impl View for Venue {
    type V = VenueModel;

    open spec fn view(&self) -> VenueModel {
        (self.id, self.voice_states@)
    }
}

impl Venue {
    /// The venue `id` with the presences `voice_states`.
    pub fn new(id: u64, voice_states: Vec<VoiceState>) -> (r: Venue)
        ensures
            r@ == (id, voice_states@),
    {
        Venue { id, voice_states }
    }
}

/// The presences of `vs` that do not belong to `user`, in order.
pub open spec fn without_user(vs: Seq<VoiceState>, user: u64) -> Seq<VoiceState>
    decreases vs.len(),
{
    if vs.len() == 0 {
        vs
    } else {
        let rest = without_user(vs.drop_last(), user);
        if vs.last().user_id == user {
            rest
        } else {
            rest.push(vs.last())
        }
    }
}

/// `i` is the first position of `vs` that holds a presence of `user`.
pub open spec fn first_of_user(vs: Seq<VoiceState>, user: u64, i: int) -> bool {
    &&& 0 <= i < vs.len()
    &&& vs[i].user_id == user
    &&& forall|j: int| 0 <= j < i ==> vs[j].user_id != user
}

/// `vs` with `st` in place of the first presence of the same user, or with
/// `st` added at the end where that user has none.
pub open spec fn upsert_state(vs: Seq<VoiceState>, st: VoiceState) -> Seq<VoiceState> {
    if exists|i: int| first_of_user(vs, st.user_id, i) {
        vs.update(choose|i: int| first_of_user(vs, st.user_id, i), st)
    } else {
        vs.push(st)
    }
}

/// Whether `vs` holds a presence of `user` in some channel.
pub open spec fn has_present(vs: Seq<VoiceState>, user: u64) -> bool {
    exists|i: int| 0 <= i < vs.len() && vs[i].user_id == user && vs[i].channel_id is Some
}

/// How many presences of `vs` are in `channel`, leaving out those of `user`.
pub open spec fn count_others(vs: Seq<VoiceState>, user: u64, channel: u64) -> nat
    decreases vs.len(),
{
    if vs.len() == 0 {
        0
    } else {
        let last = vs.last();
        count_others(vs.drop_last(), user, channel) + if last.user_id != user && last.channel_id
            == Some(channel) {
            1nat
        } else {
            0nat
        }
    }
}

/// The first position of a user's presence is the one that `upsert_state` picks.
pub proof fn lemma_first_unique(vs: Seq<VoiceState>, user: u64, i: int)
    requires
        first_of_user(vs, user, i),
    ensures
        (choose|k: int| first_of_user(vs, user, k)) == i,
{
    let k = choose|k: int| first_of_user(vs, user, k);
    assert(first_of_user(vs, user, k));
    if k < i {
        assert(vs[k].user_id != user);
    } else if i < k {
        assert(vs[i].user_id != user);
    }
}

/// No presence of `user` is left once theirs are removed.
pub proof fn lemma_without_user_absent(vs: Seq<VoiceState>, user: u64)
    ensures
        !has_present(without_user(vs, user), user),
        without_user(vs, user).len() <= vs.len(),
        forall|j: int|
            0 <= j < without_user(vs, user).len() ==> #[trigger] without_user(vs, user)[j].user_id
                != user,
    decreases vs.len(),
{
    if vs.len() > 0 {
        lemma_without_user_absent(vs.drop_last(), user);
    }
}

/// Whether `st` is counted among the others of `user` in `channel`.
pub open spec fn counts(st: VoiceState, user: u64, channel: u64) -> nat {
    if st.user_id != user && st.channel_id == Some(channel) {
        1
    } else {
        0
    }
}

/// Replacing one presence changes the count by what the two presences count.
pub proof fn lemma_count_update(vs: Seq<VoiceState>, i: int, x: VoiceState, user: u64, channel: u64)
    requires
        0 <= i < vs.len(),
    ensures
        count_others(vs.update(i, x), user, channel) + counts(vs[i], user, channel) == count_others(
            vs,
            user,
            channel,
        ) + counts(x, user, channel),
    decreases vs.len(),
{
    let u = vs.update(i, x);
    if i == vs.len() - 1 {
        assert(u.drop_last() =~= vs.drop_last());
    } else {
        assert(u.drop_last() =~= vs.drop_last().update(i, x));
        lemma_count_update(vs.drop_last(), i, x, user, channel);
    }
}

/// Removing the presences of `gone`, who is not `user`, lowers the count when
/// `gone` was in `channel`, and never raises it.
pub proof fn lemma_count_without(vs: Seq<VoiceState>, gone: u64, user: u64, channel: u64)
    requires
        gone != user,
    ensures
        count_others(without_user(vs, gone), user, channel) <= count_others(vs, user, channel),
        (exists|j: int|
            0 <= j < vs.len() && vs[j].user_id == gone && vs[j].channel_id == Some(channel))
            ==> count_others(without_user(vs, gone), user, channel) < count_others(
            vs,
            user,
            channel,
        ),
    decreases vs.len(),
{
    if vs.len() > 0 {
        let dl = vs.drop_last();
        lemma_count_without(dl, gone, user, channel);
        if vs.last().user_id != gone {
            let w = without_user(dl, gone);
            assert(w.push(vs.last()).drop_last() =~= w);
            if exists|j: int|
                0 <= j < vs.len() && vs[j].user_id == gone && vs[j].channel_id == Some(channel) {
                let j = choose|j: int|
                    0 <= j < vs.len() && vs[j].user_id == gone && vs[j].channel_id == Some(
                        channel,
                    );
                assert(dl[j] == vs[j]);
            }
        } else {
            if exists|j: int|
                0 <= j < vs.len() - 1 && vs[j].user_id == gone && vs[j].channel_id == Some(
                    channel,
                ) {
                let j = choose|j: int|
                    0 <= j < vs.len() - 1 && vs[j].user_id == gone && vs[j].channel_id == Some(
                        channel,
                    );
                assert(dl[j] == vs[j]);
            }
        }
    }
}

/// Where `user` has a presence in `vs`, there is a first one.
pub proof fn lemma_first_of_user_exists(vs: Seq<VoiceState>, user: u64, j: int)
    requires
        0 <= j < vs.len(),
        vs[j].user_id == user,
    ensures
        exists|k: int| first_of_user(vs, user, k),
    decreases j,
{
    if exists|m: int| 0 <= m < j && vs[m].user_id == user {
        let m = choose|m: int| 0 <= m < j && vs[m].user_id == user;
        lemma_first_of_user_exists(vs, user, m);
    } else {
        assert(first_of_user(vs, user, j));
    }
}

/// A copy of `v`.
pub fn copy_states(v: &Vec<VoiceState>) -> (r: Vec<VoiceState>)
    ensures
        r@ == v@,
{
    let mut r: Vec<VoiceState> = Vec::new();
    let mut i: usize = 0;
    while i < v.len()
        invariant
            i <= v.len(),
            r@ == v@.subrange(0, i as int),
        decreases v.len() - i,
    {
        r.push(v[i]);
        i = i + 1;
        assert(r@ =~= v@.subrange(0, i as int));
    }
    assert(r@ =~= v@);
    r
}

/// The first position of `v` that holds a presence of `user`.
pub fn position_of_user(v: &Vec<VoiceState>, user: u64) -> (r: Option<usize>)
    ensures
        r matches Some(i) ==> first_of_user(v@, user, i as int),
        r is None ==> forall|j: int| 0 <= j < v@.len() ==> v@[j].user_id != user,
{
    let mut i: usize = 0;
    while i < v.len()
        invariant
            i <= v.len(),
            forall|j: int| 0 <= j < i ==> v@[j].user_id != user,
        decreases v.len() - i,
    {
        if v[i].user_id == user {
            return Some(i);
        }
        i = i + 1;
    }
    None
}

/// The presences of `v` that do not belong to `user`.
pub fn remove_user(v: &Vec<VoiceState>, user: u64) -> (r: Vec<VoiceState>)
    ensures
        r@ == without_user(v@, user),
{
    let mut r: Vec<VoiceState> = Vec::new();
    let mut i: usize = 0;
    while i < v.len()
        invariant
            i <= v.len(),
            r@ == without_user(v@.subrange(0, i as int), user),
        decreases v.len() - i,
    {
        let st = v[i];
        assert(v@.subrange(0, i + 1).drop_last() =~= v@.subrange(0, i as int));
        if st.user_id != user {
            r.push(st);
        }
        i = i + 1;
    }
    assert(v@.subrange(0, v@.len() as int) =~= v@);
    r
}

/// `v` with `st` as the presence of its user.
pub fn upsert(v: &Vec<VoiceState>, st: VoiceState) -> (r: Vec<VoiceState>)
    ensures
        r@ == upsert_state(v@, st),
{
    let mut r = copy_states(v);
    match position_of_user(v, st.user_id) {
        Some(i) => {
            proof {
                lemma_first_unique(v@, st.user_id, i as int);
            }
            r.remove(i);
            r.insert(i, st);
            assert(r@ =~= v@.update(i as int, st));
        },
        None => {
            r.push(st);
        },
    }
    r
}

/// How many presences of `v` are in `channel`, leaving out those of `user`.
pub fn others_in_channel(v: &Vec<VoiceState>, user: u64, channel: u64) -> (r: usize)
    ensures
        r == count_others(v@, user, channel),
{
    let mut n: usize = 0;
    let mut i: usize = 0;
    while i < v.len()
        invariant
            i <= v.len(),
            n == count_others(v@.subrange(0, i as int), user, channel),
            n <= i,
        decreases v.len() - i,
    {
        assert(v@.subrange(0, i + 1).drop_last() =~= v@.subrange(0, i as int));
        if v[i].user_id != user && v[i].channel_id == Some(channel) {
            n = n + 1;
        }
        i = i + 1;
    }
    assert(v@.subrange(0, v@.len() as int) =~= v@);
    n
}

/// The channel of the first presence of `user` in `v` that is in a channel.
pub fn present_channel_of(v: &Vec<VoiceState>, user: u64) -> (r: Option<u64>)
    ensures
        r is None <==> !has_present(v@, user),
        r matches Some(c) ==> exists|j: int|
            0 <= j < v@.len() && v@[j].user_id == user && v@[j].channel_id == Some(c),
{
    let mut i: usize = 0;
    while i < v.len()
        invariant
            i <= v.len(),
            forall|j: int|
                0 <= j < i ==> !(v@[j].user_id == user && v@[j].channel_id is Some),
        decreases v.len() - i,
    {
        if v[i].user_id == user {
            if let Some(c) = v[i].channel_id {
                return Some(c);
            }
        }
        i = i + 1;
    }
    None
}

} // verus!
