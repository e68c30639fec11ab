//! The click engine: what it does in one cycle, and how it waits.
//!
//! The engine keeps no state. At the start of each cycle it looks at the
//! armed flag once; the flag decides the whole cycle, and a change of it in
//! mid-cycle is seen only at the next start.

use crate::input::{Button, EventType};
use vstd::prelude::*;

verus! {

/// How long an idle engine sleeps before it looks at the armed flag again,
/// in nanoseconds.
pub const IDLE_POLL_NS: u64 = 250_000_000;

/// How long the operating system is given to take in a synthetic event, in
/// nanoseconds.
pub const SETTLE_NS: u64 = 1_000_000;

/// A wait sleeps this fraction of what is left of it, again and again.
pub const WAIT_DIVISOR: u64 = 4;

/// The two states of the engine.
#[derive(Clone, Copy, Debug, PartialEq, Eq, Structural)]
pub enum EngineState {
    /// Not armed: nothing is sent.
    Idle,
    /// Armed: click after click.
    Clicking,
}

/// The two durations of one click, in nanoseconds.
#[derive(Clone, Copy, Debug, PartialEq, Eq, Structural)]
pub struct CycleTiming {
    /// From the press to the release.
    pub hold_ns: u64,
    /// From the release to the next press.
    pub interval_ns: u64,
}

/// One thing for the engine's driver to do.
#[derive(Clone, Copy, Debug, PartialEq, Eq, Structural)]
pub enum Action {
    /// Hand this event to the operating system. A failure to do so is
    /// reported and otherwise ignored.
    Simulate(EventType),
    /// Sleep this long in one piece.
    Sleep(u64),
    /// Wait this long in slices, see [`wait_slice`].
    Wait(u64),
}

/// The state that goes with the armed flag.
pub open spec fn state_of(armed: bool) -> EngineState {
    if armed {
        EngineState::Clicking
    } else {
        EngineState::Idle
    }
}

/// The press that starts a click.
pub open spec fn press() -> EventType {
    EventType::ButtonPress(Button::Left)
}

/// The release that ends a click.
pub open spec fn release() -> EventType {
    EventType::ButtonRelease(Button::Left)
}

/// An idle cycle: one short sleep.
pub open spec fn idle_script() -> Seq<Action> {
    seq![Action::Sleep(IDLE_POLL_NS)]
}

/// A clicking cycle: press, hold, release, rest. Each event is followed by
/// the settle delay before the timed wait begins.
pub open spec fn click_script(timing: CycleTiming) -> Seq<Action> {
    seq![
        Action::Simulate(press()),
        Action::Sleep(SETTLE_NS),
        Action::Wait(timing.hold_ns),
        Action::Simulate(release()),
        Action::Sleep(SETTLE_NS),
        Action::Wait(timing.interval_ns),
    ]
}

/// The cycle that the engine runs in `state`.
pub open spec fn cycle_script(state: EngineState, timing: CycleTiming) -> Seq<Action> {
    match state {
        EngineState::Idle => idle_script(),
        EngineState::Clicking => click_script(timing),
    }
}

/// The events among the first `n` actions of `script`, in order.
pub open spec fn simulated_among(script: Seq<Action>, n: nat) -> Seq<EventType>
    decreases n,
{
    if n == 0 {
        Seq::empty()
    } else {
        let before = simulated_among(script, (n - 1) as nat);
        match script[n - 1] {
            Action::Simulate(event) => before.push(event),
            _ => before,
        }
    }
}

/// The events that `script` hands to the operating system, in order.
pub open spec fn simulated(script: Seq<Action>) -> Seq<EventType> {
    simulated_among(script, script.len())
}

/// What is left of a wait of `total` nanoseconds after `elapsed` of them:
/// nothing once the time is up, else a sleep of a quarter of the rest.
pub open spec fn slice_of(elapsed: u64, total: u64) -> Option<u64> {
    if elapsed >= total {
        None
    } else {
        Some(((total - elapsed) / WAIT_DIVISOR as int) as u64)
    }
}

impl EngineState {
    /// Reads the state off the armed flag.
    pub fn observe(armed: bool) -> (state: EngineState)
        ensures
            state == state_of(armed),
    {
        if armed {
            EngineState::Clicking
        } else {
            EngineState::Idle
        }
    }
}

/// The actions of an idle cycle.
pub fn idle_cycle() -> (actions: Vec<Action>)
    ensures
        actions@ == idle_script(),
{
    let mut actions: Vec<Action> = Vec::new();
    actions.push(Action::Sleep(IDLE_POLL_NS));
    assert(actions@ =~= idle_script());
    actions
}

/// The actions of a clicking cycle with the given durations.
pub fn click_cycle(timing: CycleTiming) -> (actions: Vec<Action>)
    ensures
        actions@ == click_script(timing),
{
    let mut actions: Vec<Action> = Vec::new();
    actions.push(Action::Simulate(EventType::ButtonPress(Button::Left)));
    actions.push(Action::Sleep(SETTLE_NS));
    actions.push(Action::Wait(timing.hold_ns));
    actions.push(Action::Simulate(EventType::ButtonRelease(Button::Left)));
    actions.push(Action::Sleep(SETTLE_NS));
    actions.push(Action::Wait(timing.interval_ns));
    assert(actions@ =~= click_script(timing));
    actions
}

/// The next step of a wait of `total_ns` of which `elapsed_ns` have passed:
/// the time to sleep before looking at the clock again, or nothing when the
/// wait is over.
pub fn wait_slice(elapsed_ns: u64, total_ns: u64) -> (slice: Option<u64>)
    ensures
        slice == slice_of(elapsed_ns, total_ns),
{
    if elapsed_ns >= total_ns {
        None
    } else {
        Some((total_ns - elapsed_ns) / WAIT_DIVISOR)
    }
}

/// An idle engine sends nothing.
pub proof fn lemma_idle_never_simulates(timing: CycleTiming)
    ensures
        simulated(cycle_script(EngineState::Idle, timing)) == Seq::<EventType>::empty(),
{
    reveal_with_fuel(simulated_among, 2);
}

/// A clicking engine sends a press and then a release, once each per
/// cycle, and nothing else.
pub proof fn lemma_click_presses_then_releases(timing: CycleTiming)
    ensures
        simulated(cycle_script(EngineState::Clicking, timing)) == seq![press(), release()],
{
    reveal_with_fuel(simulated_among, 7);
    assert(simulated(click_script(timing)) =~= seq![press(), release()]);
}

/// Every event of a cycle is followed at once by the settle delay.
pub proof fn lemma_events_are_followed_by_settling(state: EngineState, timing: CycleTiming)
    ensures
        forall|i: int|
            0 <= i < cycle_script(state, timing).len() && #[trigger] cycle_script(
                state,
                timing,
            )[i] is Simulate ==> i + 1 < cycle_script(state, timing).len() && cycle_script(
                state,
                timing,
            )[i + 1] == Action::Sleep(SETTLE_NS),
{
}

/// A slice never sleeps past the end of its wait, and is a quarter of what
/// is left, rounded down.
pub proof fn lemma_slice_stays_within_wait(elapsed: u64, total: u64)
    ensures
        slice_of(elapsed, total) is Some <==> elapsed < total,
        slice_of(elapsed, total) matches Some(slice) ==> {
            &&& elapsed + slice <= total
            &&& 4 * slice <= total - elapsed < 4 * slice + 4
        },
{
}

} // verus!
