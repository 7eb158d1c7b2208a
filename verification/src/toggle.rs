//! The toggle state machine: it consumes the input events observed by the
//! operating-system listener and decides, per event, whether to flip the
//! enabled flag, record activity on the clock, or request termination.

use vstd::prelude::*;
use crate::clock::ActivityClock;
use crate::clock::idle_elapsed_spec;

verus! {

/// Whether the watcher is currently synthesizing activity. The watcher
/// starts disabled.
#[derive(Clone, Copy, PartialEq, Eq, Structural, Debug)]
pub enum WatcherState {
    Disabled,
    Enabled,
}

/// An observed input event, reduced to what the state machine reads: either
/// the release of the designated hotkey, or any other recognized activity
/// (key press or release, cursor move, button press or release).
#[derive(Clone, Copy, PartialEq, Eq, Structural, Debug)]
pub enum InputEvent {
    HotkeyRelease,
    OtherActivity,
}

/// What the caller must do after handing an event to the state machine:
/// carry on listening, or terminate the process (the hotkey was released
/// while the watcher was enabled — the deliberate kill switch).
#[derive(Clone, Copy, PartialEq, Eq, Structural, Debug)]
pub enum ListenerAction {
    Continue,
    Terminate,
}

/// The state after one hotkey release: the enabled flag flips.
pub open spec fn toggled(s: WatcherState) -> WatcherState {
    match s {
        WatcherState::Disabled => WatcherState::Enabled,
        WatcherState::Enabled => WatcherState::Disabled,
    }
}

/// The state after one observed event.
pub open spec fn next_state(s: WatcherState, e: InputEvent) -> WatcherState {
    match e {
        InputEvent::HotkeyRelease => toggled(s),
        InputEvent::OtherActivity => s,
    }
}

/// The stored activity timestamp after one observed event: a hotkey release
/// leaves it alone (toggling is not itself activity), anything else records
/// the event's time.
pub open spec fn next_timestamp(last_ms: u64, e: InputEvent, now_ms: u64) -> u64 {
    match e {
        InputEvent::HotkeyRelease => last_ms,
        InputEvent::OtherActivity => now_ms,
    }
}

/// The action owed after one observed event: terminate exactly on a hotkey
/// release while enabled.
pub open spec fn action_of(s: WatcherState, e: InputEvent) -> ListenerAction {
    if e is HotkeyRelease && s is Enabled {
        ListenerAction::Terminate
    } else {
        ListenerAction::Continue
    }
}

/// Feeds one observed event to the state machine. A hotkey release flips the
/// enabled flag and, when it flips it off, requests termination; it does not
/// touch the clock. Any other recognized event records activity at `now_ms`
/// and leaves the flag alone. No event is an error.
pub fn handle_event(
    state: &mut WatcherState,
    clock: &mut ActivityClock,
    event: InputEvent,
    now_ms: u64,
) -> (action: ListenerAction)
    ensures
        *final(state) == next_state(*old(state), event),
        final(clock).last_activity_ms == next_timestamp(
            old(clock).last_activity_ms,
            event,
            now_ms,
        ),
        action == action_of(*old(state), event),
{
    match event {
        InputEvent::HotkeyRelease => {
            match *state {
                WatcherState::Enabled => {
                    *state = WatcherState::Disabled;
                    ListenerAction::Terminate
                },
                WatcherState::Disabled => {
                    *state = WatcherState::Enabled;
                    ListenerAction::Continue
                },
            }
        },
        InputEvent::OtherActivity => {
            clock.record_activity(now_ms);
            ListenerAction::Continue
        },
    }
}

/// The scheduler's per-tick decision: walk exactly when the watcher is
/// enabled and the idle threshold has elapsed. While the watcher is
/// disabled this is false whatever the clock holds, so a disabled watcher
/// never triggers a walk.
pub fn should_trigger_walk(
    state: WatcherState,
    clock: &ActivityClock,
    now_ms: u64,
    threshold_ms: u64,
) -> (r: bool)
    ensures
        r == (state is Enabled && idle_elapsed_spec(
            clock.last_activity_ms,
            now_ms,
            threshold_ms,
        )),
{
    match state {
        WatcherState::Enabled => clock.idle_elapsed(now_ms, threshold_ms),
        WatcherState::Disabled => false,
    }
}

/// The state after a run of hotkey releases, starting from a given state.
pub open spec fn state_after_releases(s: WatcherState, n: nat) -> WatcherState
    decreases n,
{
    if n == 0 {
        s
    } else {
        toggled(state_after_releases(s, (n - 1) as nat))
    }
}

/// Toggle parity: starting disabled, an odd number of hotkey releases leaves
/// the watcher enabled and an even number leaves it disabled. (Each release
/// that flips the flag off also requests termination — see `action_of` — so
/// in practice only one full on/off cycle is observable per process.)
pub proof fn lemma_toggle_parity(n: nat)
    ensures
        state_after_releases(WatcherState::Disabled, n) == (if n % 2 == 1 {
            WatcherState::Enabled
        } else {
            WatcherState::Disabled
        }),
    decreases n,
{
    if n > 0 {
        lemma_toggle_parity((n - 1) as nat);
    }
}

/// Activity reset: any non-hotkey event moves the stored timestamp to the
/// event's time, and one millisecond later no threshold of at least one
/// millisecond has elapsed — the idle countdown starts over.
pub proof fn lemma_event_resets_idle(last_ms: u64, t: u64, threshold_ms: u64)
    requires
        t < u64::MAX,
        threshold_ms >= 1,
    ensures
        next_timestamp(last_ms, InputEvent::OtherActivity, t) == t,
        !idle_elapsed_spec(
            next_timestamp(last_ms, InputEvent::OtherActivity, t),
            (t + 1) as u64,
            threshold_ms,
        ),
{
    crate::clock::lemma_activity_resets_idle(t, threshold_ms);
}

} // verus!
