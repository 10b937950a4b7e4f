use kbd_backlight::config::FadeConfig;
use kbd_backlight::fade::{DeviceRead, FadeAction, FadeController, TimerOutcome, WatchStep};

fn standard_controller() -> FadeController {
    FadeController::new(FadeConfig::standard())
}

/// The task that a plan starts.
fn started(plan: &[FadeAction]) -> u64 {
    match plan.last() {
        Some(FadeAction::Start { task, .. }) => *task,
        other => panic!("plan ends with {:?}", other),
    }
}

#[test]
fn new_controller_is_idle() {
    let c = standard_controller();
    assert!(c.is_idle());
    assert_eq!(c.active_task(), None);
    assert_eq!(c.steps_sent(), None);
    assert_eq!(c.config().steps(), 50);
}

#[test]
fn activity_while_idle_sends_full_and_starts_one_task() {
    let mut c = standard_controller();
    let plan = c.on_activity();
    assert_eq!(
        plan,
        vec![FadeAction::Send(100), FadeAction::Start { task: 1, wait_ms: 4000 }]
    );
    assert!(!c.is_idle());
    assert_eq!(c.active_task(), Some(1));
    assert_eq!(c.steps_sent(), Some(0));
}

#[test]
fn activity_while_fading_cancels_then_sends_full_then_starts() {
    let mut c = standard_controller();
    let first = started(&c.on_activity());
    assert_eq!(c.on_timer(first), TimerOutcome::Step { command: 98, wait_ms: 50 });
    assert_eq!(c.on_timer(first), TimerOutcome::Step { command: 96, wait_ms: 50 });
    let plan = c.on_activity();
    assert_eq!(
        plan,
        vec![
            FadeAction::Cancel(first),
            FadeAction::Send(100),
            FadeAction::Start { task: 2, wait_ms: 4000 },
        ]
    );
    assert_eq!(c.active_task(), Some(2));
    assert_eq!(c.steps_sent(), Some(0));
}

#[test]
fn cancelled_task_sends_nothing_more() {
    let mut c = standard_controller();
    let first = started(&c.on_activity());
    assert_eq!(c.on_timer(first), TimerOutcome::Step { command: 98, wait_ms: 50 });
    let second = started(&c.on_activity());
    for _ in 0..60 {
        assert_eq!(c.on_timer(first), TimerOutcome::Stale);
    }
    assert_eq!(c.active_task(), Some(second));
    assert_eq!(c.steps_sent(), Some(0));
    assert_eq!(c.on_timer(second), TimerOutcome::Step { command: 98, wait_ms: 50 });
}

#[test]
fn activity_during_the_quiet_period_restarts_it() {
    let mut c = standard_controller();
    let first = started(&c.on_activity());
    let plan = c.on_activity();
    let second = started(&plan);
    assert_eq!(
        plan,
        vec![
            FadeAction::Cancel(first),
            FadeAction::Send(100),
            FadeAction::Start { task: second, wait_ms: 4000 },
        ]
    );
    assert_ne!(second, first);
    assert_eq!(c.on_timer(first), TimerOutcome::Stale);
}

#[test]
fn undisturbed_task_commands_the_whole_ramp_then_ends() {
    let mut c = standard_controller();
    let task = started(&c.on_activity());
    let mut sent: Vec<i32> = Vec::new();
    for k in 0..50u32 {
        assert_eq!(c.steps_sent(), Some(k));
        match c.on_timer(task) {
            TimerOutcome::Step { command, wait_ms } => {
                assert_eq!(wait_ms, 50);
                sent.push(command);
            }
            other => panic!("step {} gave {:?}", k, other),
        }
    }
    assert_eq!(sent, FadeConfig::standard().ramp());
    assert_eq!(sent[0], 98);
    assert_eq!(sent[49], 0);
    assert_eq!(c.steps_sent(), Some(50));
    assert!(!c.is_idle());
    assert_eq!(c.on_timer(task), TimerOutcome::Finished);
    assert!(c.is_idle());
    assert_eq!(c.active_task(), None);
}

#[test]
fn finished_task_is_stale_afterwards() {
    let config = FadeConfig::new(10, 0, 2, 7, 3).expect("valid parameters");
    let mut c = FadeController::new(config);
    let plan = c.on_activity();
    assert_eq!(plan, vec![FadeAction::Send(10), FadeAction::Start { task: 1, wait_ms: 7 }]);
    assert_eq!(c.on_timer(1), TimerOutcome::Step { command: 5, wait_ms: 3 });
    assert_eq!(c.on_timer(1), TimerOutcome::Step { command: 0, wait_ms: 3 });
    assert_eq!(c.on_timer(1), TimerOutcome::Finished);
    assert_eq!(c.on_timer(1), TimerOutcome::Stale);
    assert!(c.is_idle());
}

#[test]
fn activity_after_a_finished_task_cancels_nothing() {
    let config = FadeConfig::new(10, 0, 1, 7, 3).expect("valid parameters");
    let mut c = FadeController::new(config);
    let first = started(&c.on_activity());
    assert_eq!(c.on_timer(first), TimerOutcome::Step { command: 0, wait_ms: 3 });
    assert_eq!(c.on_timer(first), TimerOutcome::Finished);
    let plan = c.on_activity();
    assert_eq!(plan, vec![FadeAction::Send(10), FadeAction::Start { task: 2, wait_ms: 7 }]);
}

#[test]
fn timer_while_idle_is_stale() {
    let mut c = standard_controller();
    assert_eq!(c.on_timer(0), TimerOutcome::Stale);
    assert_eq!(c.on_timer(1), TimerOutcome::Stale);
    assert!(c.is_idle());
}

#[test]
fn timer_of_an_unknown_task_is_stale() {
    let mut c = standard_controller();
    let task = started(&c.on_activity());
    assert_eq!(c.on_timer(task + 1), TimerOutcome::Stale);
    assert_eq!(c.on_timer(0), TimerOutcome::Stale);
    assert_eq!(c.steps_sent(), Some(0));
    assert_eq!(c.active_task(), Some(task));
}

#[test]
fn every_activity_sends_full_once_and_starts_a_new_task() {
    let mut c = standard_controller();
    let mut previous = started(&c.on_activity());
    for _ in 0..100 {
        let plan = c.on_activity();
        let next = started(&plan);
        assert_eq!(plan.len(), 3);
        assert_eq!(plan[0], FadeAction::Cancel(previous));
        assert_eq!(plan[1], FadeAction::Send(100));
        assert_ne!(next, previous);
        assert_eq!(c.active_task(), Some(next));
        previous = next;
    }
}

#[test]
fn batch_of_events_is_one_signal_whatever_its_size() {
    let mut a = standard_controller();
    let mut b = standard_controller();
    let one = a.on_device_read(DeviceRead::Events(1));
    let many = b.on_device_read(DeviceRead::Events(64));
    let expected = WatchStep::Restart(vec![
        FadeAction::Send(100),
        FadeAction::Start { task: 1, wait_ms: 4000 },
    ]);
    assert_eq!(one, expected);
    assert_eq!(many, expected);
    assert_eq!(a.active_task(), Some(1));
    assert_eq!(b.active_task(), Some(1));
}

#[test]
fn batch_while_fading_restarts_the_cycle() {
    let mut c = standard_controller();
    let first = started(&c.on_activity());
    assert_eq!(c.on_timer(first), TimerOutcome::Step { command: 98, wait_ms: 50 });
    let step = c.on_device_read(DeviceRead::Events(3));
    assert_eq!(
        step,
        WatchStep::Restart(vec![
            FadeAction::Cancel(first),
            FadeAction::Send(100),
            FadeAction::Start { task: 2, wait_ms: 4000 },
        ])
    );
    assert_eq!(c.on_timer(first), TimerOutcome::Stale);
}

#[test]
fn empty_batch_is_no_signal() {
    let mut c = standard_controller();
    assert_eq!(c.on_device_read(DeviceRead::Events(0)), WatchStep::Wait);
    assert!(c.is_idle());
    let task = started(&c.on_activity());
    assert_eq!(c.on_device_read(DeviceRead::Events(0)), WatchStep::Wait);
    assert_eq!(c.active_task(), Some(task));
    assert_eq!(c.steps_sent(), Some(0));
}

#[test]
fn failed_read_stops_the_watcher_and_leaves_the_fade_running() {
    let mut c = standard_controller();
    let task = started(&c.on_activity());
    assert_eq!(c.on_timer(task), TimerOutcome::Step { command: 98, wait_ms: 50 });
    assert_eq!(c.on_device_read(DeviceRead::Failed), WatchStep::Stop);
    assert_eq!(c.active_task(), Some(task));
    assert_eq!(c.steps_sent(), Some(1));
    assert_eq!(c.on_timer(task), TimerOutcome::Step { command: 96, wait_ms: 50 });
}

#[test]
fn failed_read_while_idle_stops_the_watcher() {
    let mut c = standard_controller();
    assert_eq!(c.on_device_read(DeviceRead::Failed), WatchStep::Stop);
    assert!(c.is_idle());
}
