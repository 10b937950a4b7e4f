//! The actuator's decisions and the cache of the last known brightness.
//!
//! The cache holds the brightness most recently observed, whether this daemon
//! set it or the brightness service reported a change made by someone else. A
//! command that asks for the brightness the cache already holds is skipped, so
//! the daemon neither repeats itself nor answers its own echo.
//!
//! A failed call is dropped: the cache keeps what it held, and the next command
//! is decided as if the failed one had never come.

use vstd::prelude::*;

verus! {

/// What to do with a command taken from the queue.
#[derive(Clone, Copy, Debug, PartialEq, Eq)]
pub enum SetDecision {
    /// The backlight is known to have this brightness already: make no call.
    Skip,
    /// Ask the brightness service to set this brightness.
    Issue(i32),
}

/// How a call to the brightness service ended.
#[derive(Clone, Copy, Debug, PartialEq, Eq)]
pub enum SetOutcome {
    Applied,
    Failed,
}

/// Decision for command `value` when `known` is the last known brightness.
pub open spec fn decide(known: Option<i32>, value: i32) -> SetDecision {
    if known == Some(value) {
        SetDecision::Skip
    } else {
        SetDecision::Issue(value)
    }
}

/// Last known brightness once a call that asked for `value` has ended.
pub open spec fn after_set(known: Option<i32>, value: i32, outcome: SetOutcome) -> Option<i32> {
    match outcome {
        SetOutcome::Applied => Some(value),
        SetOutcome::Failed => known,
    }
}

/// The actuator working through `commands` in order, starting with `known`
/// as the last known brightness and with no change reported from outside
/// meanwhile. `applied[i]` tells whether the call made for `commands[i]`
/// succeeds, should one be made. The result is the last known brightness at
/// the end and the values of the calls made, in order.
pub open spec fn process(known: Option<i32>, commands: Seq<i32>, applied: Seq<bool>) -> (
    Option<i32>,
    Seq<i32>,
)
    decreases commands.len(),
{
    if commands.len() == 0 {
        (known, Seq::empty())
    } else {
        let (before, calls) = process(known, commands.drop_last(), applied);
        let value = commands.last();
        let outcome = if applied[commands.len() - 1] {
            SetOutcome::Applied
        } else {
            SetOutcome::Failed
        };
        match decide(before, value) {
            SetDecision::Skip => (before, calls),
            SetDecision::Issue(v) => (after_set(before, v, outcome), calls.push(v)),
        }
    }
}

/// No call is ever made for the brightness that is already known, and a call
/// is made in every other case, for exactly the value commanded.
pub proof fn lemma_no_redundant_call(known: Option<i32>, value: i32)
    ensures
        known == Some(value) <==> decide(known, value) == SetDecision::Skip,
        known != Some(value) <==> decide(known, value) == SetDecision::Issue(value),
        decide(known, value) != SetDecision::Issue(value) ==> known == Some(value),
{
}

/// A failed call leaves the actuator where it was: whatever command comes
/// next is decided exactly as it would have been before the failure.
pub proof fn lemma_failure_changes_nothing(known: Option<i32>, failed: i32, next: i32)
    ensures
        after_set(known, failed, SetOutcome::Failed) == known,
        decide(after_set(known, failed, SetOutcome::Failed), next) == decide(known, next),
{
}

/// Once a call has succeeded, a command for the same value is skipped, with no
/// need to wait for the service to report the change.
pub proof fn lemma_own_change_is_known(known: Option<i32>, value: i32)
    ensures
        decide(after_set(known, value, SetOutcome::Applied), value) == SetDecision::Skip,
{
}

/// While the actuator works through `commands`, the last known brightness is
/// the one it started with or one of the values already commanded.
pub proof fn lemma_known_comes_from_commands(
    known: Option<i32>,
    commands: Seq<i32>,
    applied: Seq<bool>,
)
    ensures
        ({
            let end = process(known, commands, applied).0;
            end == known || (end matches Some(v) && commands.contains(v))
        }),
    decreases commands.len(),
{
    if commands.len() > 0 {
        let earlier = commands.drop_last();
        lemma_known_comes_from_commands(known, earlier, applied);
        assert(commands[commands.len() - 1] == commands.last());
        if let Some(v) = process(known, earlier, applied).0 {
            if earlier.contains(v) {
                let i = choose|i: int| 0 <= i < earlier.len() && earlier[i] == v;
                assert(commands[i] == v);
            }
        }
    }
}

/// Failures stop nothing. Where the brightness is unknown at the start (or is
/// none of the values commanded) and no value is commanded twice, a call is
/// made for every command, in order, whichever of the calls fail.
pub proof fn lemma_all_commands_attempted(
    known: Option<i32>,
    commands: Seq<i32>,
    applied: Seq<bool>,
)
    requires
        commands.no_duplicates(),
        known matches Some(v) ==> !commands.contains(v),
    ensures
        process(known, commands, applied).1 == commands,
    decreases commands.len(),
{
    if commands.len() == 0 {
        assert(process(known, commands, applied).1 =~= commands);
    } else {
        let earlier = commands.drop_last();
        let value = commands.last();
        assert forall|v: i32| earlier.contains(v) implies commands.contains(v) by {
            let i = choose|i: int| 0 <= i < earlier.len() && earlier[i] == v;
            assert(commands[i] == v);
        }
        lemma_all_commands_attempted(known, earlier, applied);
        lemma_known_comes_from_commands(known, earlier, applied);
        let before = process(known, earlier, applied).0;
        if before == Some(value) && before != known {
            // `value` would stand twice in `commands`.
            let i = choose|i: int| 0 <= i < earlier.len() && earlier[i] == value;
            assert(commands[i] == value);
            assert(commands[commands.len() - 1] == value);
        }
        assert(commands.contains(value)) by {
            assert(commands[commands.len() - 1] == value);
        }
        assert(earlier.push(value) =~= commands);
    }
}

/// The last known brightness. Its view is that brightness, or `None` while it
/// is unknown.
#[derive(Clone, Copy, Debug)]
pub struct BrightnessCache {
    known: Option<i32>,
}

impl View for BrightnessCache {
    type V = Option<i32>;

    closed spec fn view(&self) -> Option<i32> {
        self.known
    }
}

impl BrightnessCache {
    /// A cache that knows nothing yet.
    pub fn new() -> (c: BrightnessCache)
        ensures
            c@ is None,
    {
        BrightnessCache { known: None }
    }

    /// The last known brightness, if any.
    pub fn known(&self) -> (r: Option<i32>)
        ensures
            r == self@,
    {
        self.known
    }

    /// The brightness service reported that the brightness is now `value`,
    /// whoever changed it. The report is taken at any time, whether or not a
    /// command is being worked on.
    pub fn on_brightness_changed(&mut self, value: i32)
        ensures
            final(self)@ == Some(value),
    {
        self.known = Some(value);
    }

    /// The stream of reports from the brightness service ended or failed.
    /// Nothing is known of the brightness from here on until a call succeeds,
    /// so the next command is issued whatever it asks for.
    pub fn on_subscription_lost(&mut self)
        ensures
            final(self)@ is None,
    {
        self.known = None;
    }

    /// Decides what to do with command `value` taken from the queue.
    pub fn on_command(&self, value: i32) -> (d: SetDecision)
        ensures
            d == decide(self@, value),
    {
        match self.known {
            Some(k) if k == value => SetDecision::Skip,
            _ => SetDecision::Issue(value),
        }
    }

    /// The call that asked the brightness service for `value` has ended.
    pub fn on_set_result(&mut self, value: i32, outcome: SetOutcome)
        ensures
            final(self)@ == after_set(old(self)@, value, outcome),
    {
        match outcome {
            SetOutcome::Applied => {
                self.known = Some(value);
            },
            SetOutcome::Failed => {},
        }
    }
}

} // verus!
