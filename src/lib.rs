//! State tracking and reminder scheduling for a chat bot that nudges
//! opted-in users to drink water.
//!
//! The library holds the presence registry, the reminder registry and its
//! sweep, the shutdown flag with the scheduler's tick decision, and the
//! command handlers. The gateway connection, the timer thread and message
//! delivery live with the caller, which hands plain values in and carries
//! out the actions that come back.

pub mod handler;
pub mod ids;
pub mod presence;
pub mod reminders;
pub mod shutdown;

pub use handler::{
    on_drate, on_presence_changed, on_quit, parse_drate_arg, DrateArg, Owners, QuitAction,
    SHUTDOWN_REPLY, USAGE_REPLY,
};
pub use ids::UserId;
pub use presence::PresenceRegistry;
pub use reminders::{ReminderRegistry, ENABLED_REPLY, DISABLED_REPLY};
pub use shutdown::{
    ReminderScheduler, SchedulerState, ShutdownFlag, TickAction, DEFAULT_THRESHOLD_SECS,
    REMINDER_READ_ALOUD, REMINDER_TEXT, TICK_INTERVAL_SECS,
};
