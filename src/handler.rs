use vstd::prelude::*;
use vstd::string::StrSliceExecFns;
use std::collections::HashSet;
use crate::ids::UserId;
use crate::presence::PresenceRegistry;
use crate::reminders::{ReminderRegistry, DISABLED_REPLY, ENABLED_REPLY};
use crate::shutdown::ShutdownFlag;

verus! {

broadcast use vstd::std_specs::hash::group_hash_axioms;

/// The reply to a `drate` argument other than `on` or `off`.
pub const USAGE_REPLY: &'static str = "Unknown argument. Usage: `!drate [on|off]`";

/// The reply to an owner's `quit`.
pub const SHUTDOWN_REPLY: &'static str = "Shutting down!";

/// What the argument of `drate` asks for.
#[derive(Clone, Copy, Debug, PartialEq, Eq, Structural)]
pub enum DrateArg {
    On,
    Off,
    Unknown,
}

/// The meaning of an argument: none or `on` turns reminders on, `off`
/// turns them off, and anything else is not understood.
pub open spec fn drate_arg_of(arg: Option<Seq<char>>) -> DrateArg {
    match arg {
        None => DrateArg::On,
        Some(s) => if s == "on"@ {
            DrateArg::On
        } else if s == "off"@ {
            DrateArg::Off
        } else {
            DrateArg::Unknown
        },
    }
}

/// The characters of an optional argument.
pub open spec fn arg_view(arg: Option<&str>) -> Option<Seq<char>> {
    match arg {
        None => None,
        Some(s) => Some(s@),
    }
}

/// Whether two strings hold the same characters.
fn same_text(a: &str, b: &str) -> (r: bool)
    ensures
        r == (a@ == b@),
{
    let n = a.unicode_len();
    if n != b.unicode_len() {
        return false;
    }
    let mut i: usize = 0;
    while i < n
        invariant
            n == a@.len(),
            n == b@.len(),
            i <= n,
            forall|j: int| 0 <= j < i ==> a@[j] == b@[j],
        decreases n - i,
    {
        if a.get_char(i) != b.get_char(i) {
            return false;
        }
        i = i + 1;
    }
    assert(a@ =~= b@);
    true
}

/// Reads the argument of `drate`.
pub fn parse_drate_arg(arg: Option<&str>) -> (r: DrateArg)
    ensures
        r == drate_arg_of(arg_view(arg)),
{
    proof {
        reveal_strlit("on");
        reveal_strlit("off");
    }
    match arg {
        None => DrateArg::On,
        Some(s) => if same_text(s, "on") {
            DrateArg::On
        } else if same_text(s, "off") {
            DrateArg::Off
        } else {
            DrateArg::Unknown
        },
    }
}

/// Forwards a presence event: `joined` marks `user` present, otherwise absent.
pub fn on_presence_changed(presence: &mut PresenceRegistry, user: UserId, joined: bool)
    ensures
        final(presence)@ == (if joined {
            old(presence)@.insert(user.0)
        } else {
            old(presence)@.remove(user.0)
        }),
{
    if joined {
        presence.mark_present(user);
    } else {
        presence.mark_absent(user);
    }
}

/// Runs `drate` for `user` at time `now` and returns the one reply to send.
pub fn on_drate(registry: &mut ReminderRegistry, user: UserId, arg: Option<&str>, now: u64) -> (r:
    &'static str)
    ensures
        drate_arg_of(arg_view(arg)) == DrateArg::On ==> final(registry)@ == old(registry)@.insert(
            user.0,
            now,
        ) && r@ == ENABLED_REPLY@,
        drate_arg_of(arg_view(arg)) == DrateArg::Off ==> final(registry)@ == old(registry)@.remove(
            user.0,
        ) && r@ == DISABLED_REPLY@,
        drate_arg_of(arg_view(arg)) == DrateArg::Unknown ==> final(registry)@ == old(registry)@
            && r@ == USAGE_REPLY@,
{
    match parse_drate_arg(arg) {
        DrateArg::On => registry.opt_in(user, now),
        DrateArg::Off => registry.opt_out(user),
        DrateArg::Unknown => USAGE_REPLY,
    }
}

/// The accounts allowed to shut the bot down.
pub struct Owners {
    ids: HashSet<u64>,
}

impl View for Owners {
    type V = Set<u64>;

    /// The owners' identifiers.
    closed spec fn view(&self) -> Set<u64> {
        self.ids@
    }
}

impl Owners {
    /// An empty set of owners.
    pub fn new() -> (r: Owners)
        ensures
            r@ == Set::<u64>::empty(),
    {
        Owners { ids: HashSet::new() }
    }

    /// Adds `user` to the owners.
    pub fn add(&mut self, user: UserId)
        ensures
            final(self)@ == old(self)@.insert(user.0),
    {
        self.ids.insert(user.0);
    }

    /// Whether `user` is an owner.
    pub fn contains(&self, user: UserId) -> (r: bool)
        ensures
            r == self@.contains(user.0),
    {
        self.ids.contains(&user.0)
    }
}

/// What the caller does after `quit`.
#[derive(Clone, Copy, Debug, PartialEq, Eq, Structural)]
pub enum QuitAction {
    /// The caller is no owner: nothing is sent and nothing changes.
    Ignore,
    /// Reply with the shutdown text and stop every gateway connection.
    StopAll,
}

/// Runs `quit` for `user`: an owner sets the flag to stopped; anyone else
/// changes nothing.
pub fn on_quit(flag: &mut ShutdownFlag, owners: &Owners, user: UserId) -> (r: QuitAction)
    ensures
        owners@.contains(user.0) ==> final(flag)@ && r == QuitAction::StopAll,
        !owners@.contains(user.0) ==> final(flag)@ == old(flag)@ && r == QuitAction::Ignore,
{
    if owners.contains(user) {
        flag.request_shutdown();
        QuitAction::StopAll
    } else {
        QuitAction::Ignore
    }
}

} // verus!
