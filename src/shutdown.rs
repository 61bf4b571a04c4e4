use vstd::prelude::*;
use crate::ids::UserId;
use crate::reminders::{ReminderRegistry, after_sweep, due_users, ids_of};

verus! {

/// How long a user may go without a reminder, by default: thirty minutes,
/// in seconds.
pub const DEFAULT_THRESHOLD_SECS: u64 = 1800;

/// Seconds between two ticks of the scheduler.
pub const TICK_INTERVAL_SECS: u64 = 1;

/// The text of a reminder.
pub const REMINDER_TEXT: &'static str = "Drink Water";

/// Whether a reminder asks the client to read it aloud.
pub const REMINDER_READ_ALOUD: bool = true;

/// The process-wide switch, running at first, that goes to stopped once
/// and never back.
pub struct ShutdownFlag {
    stopped: bool,
}

impl View for ShutdownFlag {
    type V = bool;

    /// Whether a shutdown was requested.
    closed spec fn view(&self) -> bool {
        self.stopped
    }
}

impl ShutdownFlag {
    /// A flag that reads running.
    pub fn new() -> (r: ShutdownFlag)
        ensures
            !r@,
    {
        ShutdownFlag { stopped: false }
    }

    /// Whether no shutdown was requested yet.
    pub fn is_running(&self) -> (r: bool)
        ensures
            r == !self@,
    {
        !self.stopped
    }

    /// Sets the flag to stopped; returns whether this call was the one that
    /// changed it.
    pub fn request_shutdown(&mut self) -> (changed: bool)
        ensures
            final(self)@,
            changed == !old(self)@,
    {
        let changed = !self.stopped;
        self.stopped = true;
        changed
    }
}

/// Where the reminder loop stands.
#[derive(Clone, Copy, Debug, PartialEq, Eq, Structural)]
pub enum SchedulerState {
    Running,
    Stopping,
    Stopped,
}

/// What the loop does after a tick.
#[derive(Debug)]
pub enum TickAction {
    /// Send a reminder to each of these users, then sleep until the next tick.
    Remind(Vec<UserId>),
    /// Leave the loop.
    Exit,
}

/// The decisions of the reminder loop; the caller sleeps, keeps the time
/// and delivers the reminders.
pub struct ReminderScheduler {
    state: SchedulerState,
    threshold: u64,
}

impl ReminderScheduler {
    /// The state the loop is in.
    pub closed spec fn state_of(&self) -> SchedulerState {
        self.state
    }

    /// How old a stamp must be before its user is reminded.
    pub closed spec fn threshold_of(&self) -> u64 {
        self.threshold
    }

    /// A running scheduler that reminds users after `threshold`.
    pub fn new(threshold: u64) -> (r: ReminderScheduler)
        ensures
            r.state_of() == SchedulerState::Running,
            r.threshold_of() == threshold,
    {
        ReminderScheduler { state: SchedulerState::Running, threshold }
    }

    /// The state the loop is in.
    pub fn state(&self) -> (r: SchedulerState)
        ensures
            r == self.state_of(),
    {
        self.state
    }

    /// How old a stamp must be before its user is reminded.
    pub fn threshold(&self) -> (r: u64)
        ensures
            r == self.threshold_of(),
    {
        self.threshold
    }

    /// One tick at time `now`. While running and the flag reads running, it
    /// sweeps the registry and hands back the users to remind. Once the flag
    /// reads stopped it moves to stopping and asks the loop to exit; a
    /// scheduler that is no longer running never sweeps again.
    pub fn tick(&mut self, flag: &ShutdownFlag, registry: &mut ReminderRegistry, now: u64) -> (r:
        TickAction)
        ensures
            final(self).threshold_of() == old(self).threshold_of(),
            old(self).state_of() == SchedulerState::Running && !flag@ ==> {
                &&& final(self).state_of() == SchedulerState::Running
                &&& final(registry)@ == after_sweep(old(registry)@, now, old(self).threshold_of())
                &&& r matches TickAction::Remind(users) && ids_of(users@).to_set() == due_users(
                    old(registry)@,
                    now,
                    old(self).threshold_of(),
                ) && ids_of(users@).no_duplicates()
            },
            old(self).state_of() == SchedulerState::Running && flag@ ==> final(self).state_of()
                == SchedulerState::Stopping,
            old(self).state_of() != SchedulerState::Running ==> final(self).state_of() == old(
                self,
            ).state_of(),
            old(self).state_of() != SchedulerState::Running || flag@ ==> {
                &&& final(registry)@ == old(registry)@
                &&& r is Exit
            },
    {
        match self.state {
            SchedulerState::Running => {
                if flag.is_running() {
                    TickAction::Remind(registry.sweep(now, self.threshold))
                } else {
                    self.state = SchedulerState::Stopping;
                    TickAction::Exit
                }
            },
            _ => TickAction::Exit,
        }
    }

    /// Marks the loop as left: a stopping scheduler becomes stopped, so that
    /// the owner that joins it knows no reminder is in flight.
    pub fn finish(&mut self)
        ensures
            final(self).threshold_of() == old(self).threshold_of(),
            old(self).state_of() == SchedulerState::Stopping ==> final(self).state_of()
                == SchedulerState::Stopped,
            old(self).state_of() != SchedulerState::Stopping ==> final(self).state_of() == old(
                self,
            ).state_of(),
    {
        if self.state == SchedulerState::Stopping {
            self.state = SchedulerState::Stopped;
        }
    }
}

} // verus!
