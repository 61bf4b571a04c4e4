use vstd::prelude::*;
use std::collections::HashSet;
use crate::ids::UserId;

verus! {

broadcast use vstd::std_specs::hash::group_hash_axioms;

/// The set of users currently present in a tracked channel.
pub struct PresenceRegistry {
    users: HashSet<u64>,
}

impl View for PresenceRegistry {
    type V = Set<u64>;

    /// The identifiers of the users that are present.
    closed spec fn view(&self) -> Set<u64> {
        self.users@
    }
}

impl PresenceRegistry {
    /// A registry in which nobody is present.
    pub fn new() -> (r: PresenceRegistry)
        ensures
            r@ == Set::<u64>::empty(),
    {
        PresenceRegistry { users: HashSet::new() }
    }

    /// Records that `user` joined; doing so twice changes nothing.
    pub fn mark_present(&mut self, user: UserId)
        ensures
            final(self)@ == old(self)@.insert(user.0),
    {
        self.users.insert(user.0);
    }

    /// Records that `user` left; a user who was not present stays absent.
    pub fn mark_absent(&mut self, user: UserId)
        ensures
            final(self)@ == old(self)@.remove(user.0),
    {
        self.users.remove(&user.0);
    }

    /// Whether `user` is present.
    pub fn is_present(&self, user: UserId) -> (r: bool)
        ensures
            r == self@.contains(user.0),
    {
        self.users.contains(&user.0)
    }
}

/// The presence set after applying `events` in order to `s`, where the event
/// `(u, true)` is a call of `mark_present` and `(u, false)` one of
/// `mark_absent` for the user with identifier `u`.
pub open spec fn replay_presence(s: Set<u64>, events: Seq<(u64, bool)>) -> Set<u64>
    decreases events.len(),
{
    if events.len() == 0 {
        s
    } else {
        let prev = replay_presence(s, events.drop_last());
        let e = events.last();
        if e.1 {
            prev.insert(e.0)
        } else {
            prev.remove(e.0)
        }
    }
}

/// The events of `events` that mention `u`, in order, each as whether it
/// was a join.
pub open spec fn mentions_of(events: Seq<(u64, bool)>, u: u64) -> Seq<bool>
    decreases events.len(),
{
    if events.len() == 0 {
        Seq::empty()
    } else {
        let rest = mentions_of(events.drop_last(), u);
        if events.last().0 == u {
            rest.push(events.last().1)
        } else {
            rest
        }
    }
}

/// Whatever calls of `mark_present` and `mark_absent` a new registry goes
/// through, a user is present exactly when the last call that mentions them
/// marked them present; a user never mentioned is absent.
pub proof fn lemma_presence_follows_latest(events: Seq<(u64, bool)>, u: u64)
    ensures
        replay_presence(Set::empty(), events).contains(u) <==> (mentions_of(events, u).len() > 0
            && mentions_of(events, u).last()),
    decreases events.len(),
{
    if events.len() > 0 {
        lemma_presence_follows_latest(events.drop_last(), u);
    }
}

/// Calls on distinct users may interleave in any way: two orders of calls
/// that agree on the order of the calls for each user leave a new registry
/// in the same state.
pub proof fn lemma_interleavings_agree(a: Seq<(u64, bool)>, b: Seq<(u64, bool)>)
    requires
        forall|u: u64| #[trigger] mentions_of(a, u) == mentions_of(b, u),
    ensures
        replay_presence(Set::empty(), a) == replay_presence(Set::empty(), b),
{
    assert forall|u: u64|
        replay_presence(Set::empty(), a).contains(u) == replay_presence(Set::empty(), b).contains(
            u,
        ) by {
        lemma_presence_follows_latest(a, u);
        lemma_presence_follows_latest(b, u);
        assert(mentions_of(a, u) == mentions_of(b, u));
    }
    assert(replay_presence(Set::empty(), a) =~= replay_presence(Set::empty(), b));
}

} // verus!
