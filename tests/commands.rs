use hydration_bot::{
    on_drate, on_quit, parse_drate_arg, DrateArg, Owners, QuitAction, ReminderRegistry,
    ReminderScheduler, SchedulerState, ShutdownFlag, TickAction, UserId, DEFAULT_THRESHOLD_SECS,
    REMINDER_READ_ALOUD, REMINDER_TEXT, SHUTDOWN_REPLY, TICK_INTERVAL_SECS, USAGE_REPLY,
};

#[test]
fn drate_arguments_parse() {
    assert_eq!(parse_drate_arg(None), DrateArg::On);
    assert_eq!(parse_drate_arg(Some("on")), DrateArg::On);
    assert_eq!(parse_drate_arg(Some("off")), DrateArg::Off);
    assert_eq!(parse_drate_arg(Some("of")), DrateArg::Unknown);
    assert_eq!(parse_drate_arg(Some("ON")), DrateArg::Unknown);
    assert_eq!(parse_drate_arg(Some("")), DrateArg::Unknown);
}

#[test]
fn drate_without_argument_opts_in() {
    let mut reg = ReminderRegistry::new();
    assert_eq!(on_drate(&mut reg, UserId(1), None, 7), "Enabled drate reminders");
    assert_eq!(reg.last_reminded(UserId(1)), Some(7));
}

#[test]
fn drate_on_and_off() {
    let mut reg = ReminderRegistry::new();
    assert_eq!(on_drate(&mut reg, UserId(1), Some("on"), 3), "Enabled drate reminders");
    assert!(reg.is_opted_in(UserId(1)));
    assert_eq!(on_drate(&mut reg, UserId(1), Some("off"), 4), "Disabled drate reminders");
    assert!(!reg.is_opted_in(UserId(1)));
}

#[test]
fn drate_unknown_argument_replies_usage() {
    let mut reg = ReminderRegistry::new();
    reg.opt_in(UserId(1), 3);
    let reply = on_drate(&mut reg, UserId(1), Some("maybe"), 9);
    assert_eq!(reply, "Unknown argument. Usage: `!drate [on|off]`");
    assert_eq!(USAGE_REPLY, reply);
    assert_eq!(reg.last_reminded(UserId(1)), Some(3));
}

#[test]
fn quit_by_non_owner_changes_nothing() {
    let mut flag = ShutdownFlag::new();
    let mut owners = Owners::new();
    owners.add(UserId(1));
    let mut reg = ReminderRegistry::new();
    reg.opt_in(UserId(5), 0);
    let mut sched = ReminderScheduler::new(1800);
    assert_eq!(on_quit(&mut flag, &owners, UserId(2)), QuitAction::Ignore);
    assert!(flag.is_running());
    match sched.tick(&flag, &mut reg, 2000) {
        TickAction::Remind(users) => assert_eq!(users, vec![UserId(5)]),
        TickAction::Exit => panic!("scheduler stopped"),
    }
    assert_eq!(sched.state(), SchedulerState::Running);
}

#[test]
fn quit_by_owner_stops_scheduler() {
    let mut flag = ShutdownFlag::new();
    let mut owners = Owners::new();
    owners.add(UserId(1));
    assert!(owners.contains(UserId(1)));
    let mut reg = ReminderRegistry::new();
    reg.opt_in(UserId(5), 0);
    let mut sched = ReminderScheduler::new(1800);
    assert_eq!(on_quit(&mut flag, &owners, UserId(1)), QuitAction::StopAll);
    assert_eq!(SHUTDOWN_REPLY, "Shutting down!");
    assert!(!flag.is_running());
    assert!(matches!(sched.tick(&flag, &mut reg, 5000), TickAction::Exit));
    assert_eq!(sched.state(), SchedulerState::Stopping);
    assert_eq!(reg.last_reminded(UserId(5)), Some(0));
    sched.finish();
    assert_eq!(sched.state(), SchedulerState::Stopped);
    assert!(matches!(sched.tick(&flag, &mut reg, 6000), TickAction::Exit));
    assert_eq!(reg.last_reminded(UserId(5)), Some(0));
}

#[test]
fn shutdown_request_is_idempotent() {
    let mut flag = ShutdownFlag::new();
    assert!(flag.is_running());
    assert!(flag.request_shutdown());
    assert!(!flag.request_shutdown());
    assert!(!flag.is_running());
}

#[test]
fn finish_on_running_scheduler_keeps_it_running() {
    let mut sched = ReminderScheduler::new(60);
    sched.finish();
    assert_eq!(sched.state(), SchedulerState::Running);
    assert_eq!(sched.threshold(), 60);
}

#[test]
fn scheduler_defaults() {
    assert_eq!(DEFAULT_THRESHOLD_SECS, 1800);
    assert_eq!(TICK_INTERVAL_SECS, 1);
    assert_eq!(REMINDER_TEXT, "Drink Water");
    assert!(REMINDER_READ_ALOUD);
}
