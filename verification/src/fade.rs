//! The fade controller: the state machine behind "activity, full brightness,
//! quiet period, ramp down, idle".
//!
//! The controller does no waiting and no sending itself. It is told what
//! happened (activity was seen; a delay of a fade task ran out) and answers
//! with what to do next (which task to cancel, which level to command, how long
//! to wait). Whoever drives it performs those actions and reports back.
//!
//! A fade task is identified by a number. The controller tracks one task at
//! most; a delay reported for any other task is answered with
//! [`TimerOutcome::Stale`] and commands nothing, so a task that was replaced
//! cannot emit a level any more, however late its last delay is reported.

use crate::config::{FadeConfig, FadeParams};
use crate::ramp::{lemma_level_bounds, level_at, ramp_levels};
use vstd::prelude::*;

verus! {

/// Identifier of the task started after `task`. Identifiers wrap around; two
/// consecutive ones always differ.
pub open spec fn next_task(task: u64) -> u64 {
    if task == u64::MAX {
        0
    } else {
        (task + 1) as u64
    }
}

/// One thing an activity signal asks for, as mathematical values.
pub enum FadeEffect {
    /// Cancel the fade task of this number and wait until it has stopped.
    Cancel(u64),
    /// Put this level into the command queue.
    Send(int),
    /// Start the fade task of this number; it begins by waiting `wait_ms`
    /// milliseconds.
    Start { task: u64, wait_ms: int },
}

/// What the end of a delay asks for, as mathematical values.
pub enum TimerEffect {
    /// The delay belongs to no running task: do nothing.
    Stale,
    /// Command `command`, then wait `wait_ms` milliseconds and report again.
    Step { command: int, wait_ms: int },
    /// The task has commanded every step and is over.
    Finished,
}

/// What one read of the watched device gave.
#[derive(Clone, Copy, Debug, PartialEq, Eq)]
pub enum DeviceRead {
    /// The read returned this many events. What the events are is of no
    /// interest.
    Events(usize),
    /// The read failed: the device is gone.
    Failed,
}

/// What a read of the watched device asks for, as mathematical values.
pub enum WatchEffect {
    /// Activity: carry these out one after the other, then read again.
    Restart(Seq<FadeEffect>),
    /// Nothing happened: read again.
    Wait,
    /// Stop watching. Everything else goes on.
    Stop,
}

/// The mathematical content of a [`FadeController`].
pub struct FadeModel {
    pub params: FadeParams,
    /// Identifier of the task started most recently.
    pub task: u64,
    /// `None` while idle; `Some(k)` while task `task` is running and has
    /// commanded `k` steps of its ramp.
    pub progress: Option<int>,
}

impl FadeModel {
    pub open spec fn valid(self) -> bool {
        &&& self.params.valid()
        &&& self.progress matches Some(k) ==> 0 <= k <= self.params.steps
    }

    /// The controller before any activity: idle.
    pub open spec fn initial(params: FadeParams) -> FadeModel {
        FadeModel { params, task: 0, progress: None }
    }

    pub open spec fn is_idle(self) -> bool {
        self.progress is None
    }

    /// The one task that is running, if any.
    pub open spec fn active_task(self) -> Option<u64> {
        if self.progress is Some {
            Some(self.task)
        } else {
            None
        }
    }

    /// Task `task` is running.
    pub open spec fn is_live(self, task: u64) -> bool {
        self.active_task() == Some(task)
    }

    /// The task that the next activity signal starts.
    pub open spec fn upcoming_task(self) -> u64 {
        next_task(self.task)
    }

    /// Activity was seen. In this order: the running task, if any, is
    /// cancelled; full brightness is commanded; a new task starts with the
    /// quiet period.
    pub open spec fn on_activity(self) -> (FadeModel, Seq<FadeEffect>) {
        let task = self.upcoming_task();
        let send = FadeEffect::Send(self.params.full);
        let start = FadeEffect::Start { task, wait_ms: self.params.quiet_ms };
        (
            FadeModel { params: self.params, task, progress: Some(0) },
            match self.active_task() {
                Some(running) => seq![FadeEffect::Cancel(running), send, start],
                None => seq![send, start],
            },
        )
    }

    /// A delay of task `task` ran out.
    pub open spec fn on_timer(self, task: u64) -> (FadeModel, TimerEffect) {
        if self.is_live(task) {
            let k = self.progress->0;
            if k < self.params.steps {
                (
                    FadeModel { progress: Some(k + 1), ..self },
                    TimerEffect::Step {
                        command: level_at(self.params, k),
                        wait_ms: self.params.step_ms,
                    },
                )
            } else {
                (FadeModel { progress: None, ..self }, TimerEffect::Finished)
            }
        } else {
            (self, TimerEffect::Stale)
        }
    }

    /// The watched device was read. A batch of events is one activity signal,
    /// however many events it holds; an empty batch is none. A failed read ends
    /// the watching and touches nothing else.
    pub open spec fn on_device_read(self, read: DeviceRead) -> (FadeModel, WatchEffect) {
        match read {
            DeviceRead::Events(n) => if n >= 1 {
                (self.on_activity().0, WatchEffect::Restart(self.on_activity().1))
            } else {
                (self, WatchEffect::Wait)
            },
            DeviceRead::Failed => (self, WatchEffect::Stop),
        }
    }

    /// The controller after `n` delays of task `task` ran out in a row.
    pub open spec fn after_timers(self, task: u64, n: nat) -> FadeModel
        decreases n,
    {
        if n == 0 {
            self
        } else {
            self.after_timers(task, (n - 1) as nat).on_timer(task).0
        }
    }

    /// The levels commanded while `n` delays of task `task` ran out in a row.
    pub open spec fn commanded(self, task: u64, n: nat) -> Seq<int>
        decreases n,
    {
        if n == 0 {
            Seq::empty()
        } else {
            let before = self.after_timers(task, (n - 1) as nat);
            let earlier = self.commanded(task, (n - 1) as nat);
            match before.on_timer(task).1 {
                TimerEffect::Step { command, .. } => earlier.push(command),
                _ => earlier,
            }
        }
    }
}

/// Every transition keeps the model valid.
pub proof fn lemma_transitions_keep_valid(m: FadeModel, task: u64, read: DeviceRead)
    requires
        m.valid(),
    ensures
        m.on_activity().0.valid(),
        m.on_timer(task).0.valid(),
        m.on_device_read(read).0.valid(),
{
}

/// Every level the controller commands is a brightness level: it lies between
/// 0 and full brightness.
pub proof fn lemma_commands_in_range(m: FadeModel, task: u64)
    requires
        m.valid(),
    ensures
        forall|i: int|
            #![trigger m.on_activity().1[i]]
            0 <= i < m.on_activity().1.len() ==> (m.on_activity().1[i] matches FadeEffect::Send(level)
                ==> 0 <= level <= m.params.full),
        m.on_timer(task).1 matches TimerEffect::Step { command, .. }
            ==> 0 <= command <= m.params.full,
{
    if m.is_live(task) && m.progress->0 < m.params.steps {
        lemma_level_bounds(m.params, m.progress->0);
    }
}

/// At most one task is running: two tasks that are both live are the same
/// task, and only a live task's delay is answered with anything but `Stale`.
pub proof fn lemma_at_most_one_task(m: FadeModel, a: u64, b: u64)
    ensures
        m.is_live(a) && m.is_live(b) ==> a == b,
        !(m.on_timer(a).1 is Stale) <==> m.is_live(a),
        m.is_idle() ==> !m.is_live(a),
{
}

/// Activity while idle: nothing is cancelled, full brightness is commanded
/// exactly once, and exactly one task is started; it is the one running
/// afterwards, at the start of its quiet period.
pub proof fn lemma_activity_while_idle(m: FadeModel)
    requires
        m.is_idle(),
    ensures
        m.on_activity().1 == seq![
            FadeEffect::Send(m.params.full),
            FadeEffect::Start { task: m.upcoming_task(), wait_ms: m.params.quiet_ms },
        ],
        m.on_activity().0.active_task() == Some(m.upcoming_task()),
        m.on_activity().0.progress == Some(0int),
{
}

/// Activity while fading: first the running task is cancelled, then full
/// brightness is commanded, exactly once, then one new task is started,
/// different from the cancelled one. The cancelled task is no longer live, so
/// none of its remaining steps is commanded: a delay of it that runs out later
/// changes nothing and commands nothing.
pub proof fn lemma_activity_while_fading(m: FadeModel, running: u64)
    requires
        m.is_live(running),
    ensures
        m.on_activity().1 == seq![
            FadeEffect::Cancel(running),
            FadeEffect::Send(m.params.full),
            FadeEffect::Start { task: m.upcoming_task(), wait_ms: m.params.quiet_ms },
        ],
        m.upcoming_task() != running,
        m.on_activity().0.active_task() == Some(m.upcoming_task()),
        m.on_activity().0.progress == Some(0int),
        !m.on_activity().0.is_live(running),
        m.on_activity().0.on_timer(running) == (m.on_activity().0, TimerEffect::Stale),
{
}

/// A batch of events gives one activity signal, whatever its size: two
/// batches that both hold at least one event ask for the same restart.
pub proof fn lemma_one_signal_per_batch(m: FadeModel, a: usize, b: usize)
    requires
        a >= 1,
        b >= 1,
    ensures
        m.on_device_read(DeviceRead::Events(a)) == m.on_device_read(DeviceRead::Events(b)),
        m.on_device_read(DeviceRead::Events(a)) == (
            m.on_activity().0,
            WatchEffect::Restart(m.on_activity().1),
        ),
{
}

/// A failed read ends the watching and nothing else: the controller is as it
/// was, so a fade task that is running goes on to command its remaining steps.
pub proof fn lemma_failed_read_stops_watcher_only(m: FadeModel, task: u64)
    ensures
        m.on_device_read(DeviceRead::Failed) == (m, WatchEffect::Stop),
        m.on_device_read(DeviceRead::Failed).0.on_timer(task) == m.on_timer(task),
{
}

/// A delay that belongs to no running task leaves the controller as it is
/// and commands nothing.
pub proof fn lemma_stale_timer_is_ignored(m: FadeModel, task: u64)
    requires
        !m.is_live(task),
    ensures
        m.on_timer(task) == (m, TimerEffect::Stale),
{
}

/// A task that is left alone for `n` delays, `n` no larger than the number of
/// steps, is still running, has commanded `n` steps, and the levels it
/// commanded are the first `n` levels of the ramp, in order.
pub proof fn lemma_undisturbed_task(m: FadeModel, n: nat)
    requires
        m.valid(),
        n <= m.params.steps,
    ensures
        ({
            let started = m.on_activity().0;
            let task = m.upcoming_task();
            &&& started.after_timers(task, n).is_live(task)
            &&& started.after_timers(task, n).progress == Some(n as int)
            &&& started.after_timers(task, n).params == m.params
            &&& started.commanded(task, n) == ramp_levels(m.params).take(n as int)
        }),
    decreases n,
{
    let started = m.on_activity().0;
    let task = m.upcoming_task();
    if n == 0 {
        assert(started.commanded(task, 0) =~= ramp_levels(m.params).take(0));
    } else {
        let k = (n - 1) as nat;
        lemma_undisturbed_task(m, k);
        let before = started.after_timers(task, k);
        assert(before.on_timer(task).1 == TimerEffect::Step {
            command: level_at(m.params, k as int),
            wait_ms: m.params.step_ms,
        });
        assert(ramp_levels(m.params).take(k as int).push(level_at(m.params, k as int))
            =~= ramp_levels(m.params).take(n as int));
    }
}

/// A task that is never disturbed commands the whole ramp and nothing else,
/// and the delay after its last step returns the controller to idle.
pub proof fn lemma_task_completes(m: FadeModel)
    requires
        m.valid(),
    ensures
        ({
            let started = m.on_activity().0;
            let task = m.upcoming_task();
            let n = (m.params.steps + 1) as nat;
            &&& started.after_timers(task, n).is_idle()
            &&& started.commanded(task, n) == ramp_levels(m.params)
            &&& started.after_timers(task, m.params.steps as nat).on_timer(task).1
                == TimerEffect::Finished
        }),
{
    let steps = m.params.steps as nat;
    lemma_undisturbed_task(m, steps);
    assert(ramp_levels(m.params).take(steps as int) =~= ramp_levels(m.params));
    let n = (m.params.steps + 1) as nat;
    assert((n - 1) as nat == steps);
}

/// One thing to do on an activity signal.
#[derive(Clone, Copy, Debug, PartialEq, Eq)]
pub enum FadeAction {
    /// Cancel the fade task of this number and wait until it has stopped.
    Cancel(u64),
    /// Put this level into the command queue.
    Send(i32),
    /// Start the fade task of this number; it begins by waiting `wait_ms`
    /// milliseconds.
    Start { task: u64, wait_ms: u64 },
}

impl View for FadeAction {
    type V = FadeEffect;

    open spec fn view(&self) -> FadeEffect {
        match *self {
            FadeAction::Cancel(task) => FadeEffect::Cancel(task),
            FadeAction::Send(level) => FadeEffect::Send(level as int),
            FadeAction::Start { task, wait_ms } => FadeEffect::Start {
                task,
                wait_ms: wait_ms as int,
            },
        }
    }
}

/// The mathematical content of a list of actions.
pub open spec fn effects_of(actions: Seq<FadeAction>) -> Seq<FadeEffect> {
    Seq::new(actions.len(), |i: int| actions[i]@)
}

/// What the watcher does after a read of the device.
#[derive(Debug, PartialEq, Eq)]
pub enum WatchStep {
    /// Activity was seen: carry these out one after the other, then read
    /// again.
    Restart(Vec<FadeAction>),
    /// The read gave nothing: read again.
    Wait,
    /// The device is gone: stop watching.
    Stop,
}

impl View for WatchStep {
    type V = WatchEffect;

    open spec fn view(&self) -> WatchEffect {
        match self {
            WatchStep::Restart(plan) => WatchEffect::Restart(effects_of(plan@)),
            WatchStep::Wait => WatchEffect::Wait,
            WatchStep::Stop => WatchEffect::Stop,
        }
    }
}

/// What a fade task does when one of its delays ran out.
#[derive(Clone, Copy, Debug, PartialEq, Eq)]
pub enum TimerOutcome {
    /// The task was cancelled or replaced, or is over: it stops at once and
    /// sends nothing.
    Stale,
    /// The task sends `command`, waits `wait_ms` milliseconds and reports
    /// again.
    Step { command: i32, wait_ms: u64 },
    /// The task has sent every step: it ends.
    Finished,
}

impl View for TimerOutcome {
    type V = TimerEffect;

    open spec fn view(&self) -> TimerEffect {
        match *self {
            TimerOutcome::Stale => TimerEffect::Stale,
            TimerOutcome::Step { command, wait_ms } => TimerEffect::Step {
                command: command as int,
                wait_ms: wait_ms as int,
            },
            TimerOutcome::Finished => TimerEffect::Finished,
        }
    }
}

/// The fade controller. It is idle or tracks exactly one fade task.
#[derive(Clone, Copy, Debug)]
pub struct FadeController {
    config: FadeConfig,
    task: u64,
    progress: Option<u32>,
}

impl View for FadeController {
    type V = FadeModel;

    closed spec fn view(&self) -> FadeModel {
        FadeModel {
            params: self.config@,
            task: self.task,
            progress: match self.progress {
                Some(k) => Some(k as int),
                None => None,
            },
        }
    }
}

impl FadeController {
    #[verifier::type_invariant]
    spec fn well_formed(self) -> bool {
        self.progress matches Some(k) ==> k <= self.config@.steps
    }

    /// An idle controller.
    pub fn new(config: FadeConfig) -> (c: FadeController)
        ensures
            c@ == FadeModel::initial(config@),
            c@.valid(),
    {
        proof {
            use_type_invariant(&config);
        }
        FadeController { config, task: 0, progress: None }
    }

    /// Activity was seen on the watched device. The actions returned are to be
    /// carried out one after the other.
    pub fn on_activity(&mut self) -> (plan: Vec<FadeAction>)
        ensures
            final(self)@ == old(self)@.on_activity().0,
            effects_of(plan@) == old(self)@.on_activity().1,
            plan@.len() == old(self)@.on_activity().1.len(),
            final(self)@.valid(),
    {
        proof {
            use_type_invariant(&*self);
            use_type_invariant(&self.config);
        }
        let mut plan: Vec<FadeAction> = Vec::new();
        if let Some(running) = self.active_task() {
            plan.push(FadeAction::Cancel(running));
        }
        let task: u64 = if self.task == u64::MAX {
            0
        } else {
            self.task + 1
        };
        plan.push(FadeAction::Send(self.config.full()));
        plan.push(FadeAction::Start { task, wait_ms: self.config.quiet_ms() });
        self.task = task;
        self.progress = Some(0);
        assert(effects_of(plan@) =~= old(self)@.on_activity().1);
        plan
    }

    /// The watched device was read.
    pub fn on_device_read(&mut self, read: DeviceRead) -> (step: WatchStep)
        ensures
            final(self)@ == old(self)@.on_device_read(read).0,
            step@ == old(self)@.on_device_read(read).1,
            step matches WatchStep::Restart(plan) ==> plan@.len() == old(self)@.on_activity().1.len(),
            final(self)@.valid(),
    {
        proof {
            use_type_invariant(&*self);
            use_type_invariant(&self.config);
        }
        match read {
            DeviceRead::Events(n) => {
                if n >= 1 {
                    WatchStep::Restart(self.on_activity())
                } else {
                    WatchStep::Wait
                }
            },
            DeviceRead::Failed => WatchStep::Stop,
        }
    }

    /// A delay of fade task `task` ran out.
    pub fn on_timer(&mut self, task: u64) -> (outcome: TimerOutcome)
        ensures
            final(self)@ == old(self)@.on_timer(task).0,
            outcome@ == old(self)@.on_timer(task).1,
            final(self)@.valid(),
    {
        proof {
            use_type_invariant(&*self);
            use_type_invariant(&self.config);
        }
        let sent: u32 = match self.progress {
            Some(k) => k,
            None => {
                return TimerOutcome::Stale;
            },
        };
        if self.task != task {
            return TimerOutcome::Stale;
        }
        if sent < self.config.steps() {
            let command: i32 = self.config.level_of_step(sent);
            let wait_ms: u64 = self.config.step_ms();
            self.progress = Some(sent + 1);
            TimerOutcome::Step { command, wait_ms }
        } else {
            self.progress = None;
            TimerOutcome::Finished
        }
    }

    /// Whether no fade task is running.
    pub fn is_idle(&self) -> (r: bool)
        ensures
            r == self@.is_idle(),
    {
        self.progress.is_none()
    }

    /// The fade task that is running, if any.
    pub fn active_task(&self) -> (r: Option<u64>)
        ensures
            r == self@.active_task(),
    {
        match self.progress {
            Some(_) => Some(self.task),
            None => None,
        }
    }

    /// How many steps of its ramp the running task has commanded, if one is
    /// running.
    pub fn steps_sent(&self) -> (r: Option<u32>)
        ensures
            r is Some <==> self@.progress is Some,
            r matches Some(k) ==> self@.progress == Some(k as int),
            self@.valid(),
    {
        proof {
            use_type_invariant(self);
            use_type_invariant(&self.config);
        }
        self.progress
    }

    /// The parameters the controller was built with.
    pub fn config(&self) -> (r: FadeConfig)
        ensures
            r@ == self@.params,
    {
        self.config
    }
}

} // verus!
