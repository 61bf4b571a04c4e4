use vstd::prelude::*;
use std::collections::HashMap;
use crate::ids::UserId;
use vstd::std_specs::hash::spec_keys_iter;
use vstd::std_specs::iter::IteratorSpec;

verus! {

broadcast use vstd::std_specs::hash::group_hash_axioms;

/// The reply to a user who turned reminders on.
pub const ENABLED_REPLY: &'static str = "Enabled drate reminders";

/// The reply to a user who turned reminders off.
pub const DISABLED_REPLY: &'static str = "Disabled drate reminders";

/// Time from `stamp` to `now`, zero when `now` comes first.
pub open spec fn elapsed(stamp: u64, now: u64) -> nat {
    if now >= stamp {
        (now - stamp) as nat
    } else {
        0
    }
}

/// Whether a user last reminded at `stamp` is owed a reminder at `now`.
pub open spec fn is_due(stamp: u64, now: u64, threshold: u64) -> bool {
    elapsed(stamp, now) >= threshold
}

/// The users of `m` that a sweep at `now` reminds.
pub open spec fn due_users(m: Map<u64, u64>, now: u64, threshold: u64) -> Set<u64> {
    m.dom().filter(|k: u64| is_due(m[k], now, threshold))
}

/// The registry after a sweep at `now`: every due user is stamped with `now`.
pub open spec fn after_sweep(m: Map<u64, u64>, now: u64, threshold: u64) -> Map<u64, u64> {
    Map::new(
        |k: u64| m.dom().contains(k),
        |k: u64|
            if is_due(m[k], now, threshold) {
                now
            } else {
                m[k]
            },
    )
}

/// The identifiers of a sequence of users.
pub open spec fn ids_of(s: Seq<UserId>) -> Seq<u64> {
    s.map_values(|u: UserId| u.0)
}

/// Users who asked for reminders, each with the time of their last reminder
/// (or of their opt-in, before the first one).
pub struct ReminderRegistry {
    stamps: HashMap<u64, u64>,
}

impl View for ReminderRegistry {
    type V = Map<u64, u64>;

    /// Each opted-in user's identifier, mapped to their last stamp.
    closed spec fn view(&self) -> Map<u64, u64> {
        self.stamps@
    }
}

impl ReminderRegistry {
    /// A registry in which nobody has opted in.
    pub fn new() -> (r: ReminderRegistry)
        ensures
            r@ == Map::<u64, u64>::empty(),
    {
        ReminderRegistry { stamps: HashMap::new() }
    }

    /// Turns reminders on for `user`, stamped `now`; a second opt-in
    /// overwrites the stamp.
    pub fn opt_in(&mut self, user: UserId, now: u64) -> (r: &'static str)
        ensures
            final(self)@ == old(self)@.insert(user.0, now),
            r@ == ENABLED_REPLY@,
    {
        self.stamps.insert(user.0, now);
        ENABLED_REPLY
    }

    /// Turns reminders off for `user`; nothing happens if they were off.
    pub fn opt_out(&mut self, user: UserId) -> (r: &'static str)
        ensures
            final(self)@ == old(self)@.remove(user.0),
            r@ == DISABLED_REPLY@,
    {
        self.stamps.remove(&user.0);
        DISABLED_REPLY
    }

    /// The identifiers of every opted-in user, each once.
    fn user_ids(&self) -> (r: Vec<u64>)
        ensures
            r@.to_set() == self@.dom(),
            r@.no_duplicates(),
    {
        let ghost all = spec_keys_iter(&self.stamps).remaining().unref();
        let mut ids: Vec<u64> = Vec::new();
        for k in it: self.stamps.keys()
            invariant
                it.seq().unref() == all,
                ids@ == all.take(it.index() as int),
        {
            assert(all.take(it.index() + 1) == all.take(it.index() as int).push(*k));
            ids.push(*k);
        }
        assert(ids@ == all);
        ids
    }

    /// Stamps `now` on every user whose last stamp is at least `threshold`
    /// old, and returns those users, each once, in no particular order.
    pub fn sweep(&mut self, now: u64, threshold: u64) -> (r: Vec<UserId>)
        ensures
            final(self)@ == after_sweep(old(self)@, now, threshold),
            ids_of(r@).to_set() == due_users(old(self)@, now, threshold),
            ids_of(r@).no_duplicates(),
    {
        let ghost start = self@;
        let ids = self.user_ids();
        let mut due: Vec<UserId> = Vec::new();
        let mut i: usize = 0;
        while i < ids.len()
            invariant
                i <= ids.len(),
                ids@.to_set() == start.dom(),
                ids@.no_duplicates(),
                self@.dom() == start.dom(),
                forall|k: u64| #[trigger]
                    start.dom().contains(k) ==> self@[k] == (if ids@.take(i as int).contains(k) {
                        after_sweep(start, now, threshold)[k]
                    } else {
                        start[k]
                    }),
                forall|k: u64| #[trigger]
                    ids_of(due@).contains(k) <==> ids@.take(i as int).contains(k) && is_due(
                        start[k],
                        now,
                        threshold,
                    ),
                ids_of(due@).no_duplicates(),
            decreases ids.len() - i,
        {
            let k = ids[i];
            assert(ids@.take(i + 1) == ids@.take(i as int).push(k));
            assert(ids@.to_set().contains(k));
            assert(!ids@.take(i as int).contains(k)) by {
                if ids@.take(i as int).contains(k) {
                    let j = choose|j: int| 0 <= j < i && ids@[j] == k;
                    assert(ids@[j] == ids@[i as int]);
                }
            }
            let stamp: u64 = *self.stamps.get(&k).unwrap();
            let elapsed: u64 = if now >= stamp {
                now - stamp
            } else {
                0
            };
            assert(stamp == start[k]);
            let ghost before = ids_of(due@);
            assert(!before.contains(k));
            let ghost fired = elapsed >= threshold;
            assert(fired == is_due(start[k], now, threshold));
            if elapsed >= threshold {
                self.stamps.insert(k, now);
                due.push(UserId(k));
                assert(ids_of(due@) == before.push(k));
                assert(ids_of(due@).no_duplicates()) by {
                    assert forall|a: int, b: int|
                        0 <= a < b < ids_of(due@).len() implies ids_of(due@)[a] != ids_of(due@)[b] by {
                        if b == before.len() {
                            assert(before[a] == ids_of(due@)[a]);
                        }
                    }
                }
            }
            proof {
                let seen = ids@.take(i as int);
                assert forall|x: u64| #[trigger] ids@.take(i + 1).contains(x) <==> (seen.contains(x)
                    || x == k) by {
                    if x == k {
                        assert(ids@.take(i + 1)[i as int] == k);
                    }
                    if seen.contains(x) {
                        let j = choose|j: int| 0 <= j < seen.len() && seen[j] == x;
                        assert(ids@.take(i + 1)[j] == x);
                    }
                }
                assert forall|x: u64| #[trigger] start.dom().contains(x) implies self@[x] == (if ids@.take(
                    i + 1,
                ).contains(x) {
                    after_sweep(start, now, threshold)[x]
                } else {
                    start[x]
                }) by {
                    if x != k {
                        assert(ids@.take(i + 1).contains(x) == seen.contains(x));
                    }
                }
                assert forall|x: u64| #[trigger] ids_of(due@).contains(x) <==> ids@.take(i + 1).contains(
                    x,
                ) && is_due(start[x], now, threshold) by {
                    if fired {
                        assert(ids_of(due@) == before.push(k));
                        assert(ids_of(due@)[before.len() as int] == k);
                    } else {
                        assert(ids_of(due@) == before);
                    }
                    if ids_of(due@).contains(x) {
                        let j = choose|j: int| 0 <= j < ids_of(due@).len() && ids_of(due@)[j] == x;
                        if j < before.len() {
                            assert(before[j] == x);
                            assert(before.contains(x));
                        }
                    }
                    if ids@.take(i + 1).contains(x) && is_due(start[x], now, threshold) && x != k {
                        assert(seen.contains(x));
                        assert(before.contains(x));
                        let j = choose|j: int| 0 <= j < before.len() && before[j] == x;
                        assert(ids_of(due@)[j] == x);
                    }
                }
            }
            i = i + 1;
        }
        assert(ids@.take(ids.len() as int) == ids@);
        assert(self@ =~= after_sweep(start, now, threshold));
        assert(ids_of(due@).to_set() =~= due_users(start, now, threshold));
        due
    }

    /// Whether `user` has reminders on.
    pub fn is_opted_in(&self, user: UserId) -> (r: bool)
        ensures
            r == self@.contains_key(user.0),
    {
        self.stamps.contains_key(&user.0)
    }

    /// The stamp of `user`, if they have reminders on.
    pub fn last_reminded(&self, user: UserId) -> (r: Option<u64>)
        ensures
            r == (if self@.contains_key(user.0) {
                Some(self@[user.0])
            } else {
                None::<u64>
            }),
    {
        match self.stamps.get(&user.0) {
            Some(t) => Some(*t),
            None => None,
        }
    }
}

/// The registry after one sweep at each time of `times`, in order.
pub open spec fn after_sweeps(m: Map<u64, u64>, times: Seq<u64>, threshold: u64) -> Map<u64, u64>
    decreases times.len(),
{
    if times.len() == 0 {
        m
    } else {
        after_sweep(after_sweeps(m, times.drop_last(), threshold), times.last(), threshold)
    }
}

/// Sweeps never add or remove a user.
pub proof fn lemma_sweeps_keep_users(m: Map<u64, u64>, times: Seq<u64>, threshold: u64)
    ensures
        after_sweeps(m, times, threshold).dom() == m.dom(),
    decreases times.len(),
{
    if times.len() > 0 {
        lemma_sweeps_keep_users(m, times.drop_last(), threshold);
        assert(after_sweeps(m, times, threshold).dom() =~= m.dom());
    }
}

/// A user who has just opted in is not reminded by a sweep at the same
/// time when the threshold is positive.
pub proof fn lemma_fresh_opt_in_not_due(m: Map<u64, u64>, u: u64, now: u64, threshold: u64)
    requires
        threshold > 0,
    ensures
        !due_users(m.insert(u, now), now, threshold).contains(u),
{
}

/// A user who opted in at `t0` is reminded by a sweep at
/// `t0 + threshold + extra`, and that sweep's fresh stamp keeps them out of
/// any sweep less than `threshold` later.
pub proof fn lemma_overdue_reminded_then_refreshed(
    m: Map<u64, u64>,
    u: u64,
    t0: u64,
    threshold: u64,
    extra: u64,
    later: u64,
)
    requires
        t0 + threshold + extra <= u64::MAX,
        t0 + threshold + extra <= later < t0 + threshold + extra + threshold,
    ensures
        due_users(m.insert(u, t0), (t0 + threshold + extra) as u64, threshold).contains(u),
        after_sweep(m.insert(u, t0), (t0 + threshold + extra) as u64, threshold)[u] == t0
            + threshold + extra,
        !due_users(
            after_sweep(m.insert(u, t0), (t0 + threshold + extra) as u64, threshold),
            later,
            threshold,
        ).contains(u),
{
}

/// After opting out, a user is in no later sweep, however many sweeps run
/// and however much time passes.
pub proof fn lemma_opted_out_never_reminded(
    m: Map<u64, u64>,
    u: u64,
    times: Seq<u64>,
    now: u64,
    threshold: u64,
)
    ensures
        !due_users(after_sweeps(m.remove(u), times, threshold), now, threshold).contains(u),
{
    lemma_sweeps_keep_users(m.remove(u), times, threshold);
}

/// Opting out a user who never opted in changes nothing.
pub proof fn lemma_opt_out_absent_is_noop(m: Map<u64, u64>, u: u64)
    requires
        !m.contains_key(u),
    ensures
        m.remove(u) == m,
{
    assert(m.remove(u) =~= m);
}

/// Opting in twice keeps only the later time.
pub proof fn lemma_opt_in_twice_keeps_latest(m: Map<u64, u64>, u: u64, t1: u64, t2: u64)
    ensures
        m.insert(u, t1).insert(u, t2) == m.insert(u, t2),
{
    assert(m.insert(u, t1).insert(u, t2) =~= m.insert(u, t2));
}

} // verus!
