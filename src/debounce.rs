use vstd::prelude::*;

verus! {

/// Width of the confirmation window, in milliseconds: a second press strictly
/// within this time after the arming press confirms a dispatch.
pub const DEBOUNCE_WINDOW_MS: u64 = 3000;

/// One press of the hotkey at `now` (milliseconds), seen from the recorded
/// arming press `last`: the state afterwards and whether a dispatch is
/// confirmed.
///
/// A press confirms only when an arming press is recorded at or before `now`
/// and less than the window ago; confirming clears the record. Any other press
/// becomes the new arming press.
pub open spec fn trigger_step(last: Option<u64>, now: u64) -> (Option<u64>, bool) {
    match last {
        Some(t) if t <= now && now - t < DEBOUNCE_WINDOW_MS => (None, true),
        _ => (Some(now), false),
    }
}

/// The double-press gate: it turns raw hotkey presses into confirmed
/// "speak now" decisions.
pub struct DebounceGate {
    last_trigger: Option<u64>,
}

impl View for DebounceGate {
    type V = Option<u64>;

    /// The time of the recorded arming press, if any.
    closed spec fn view(&self) -> Option<u64> {
        self.last_trigger
    }
}

impl DebounceGate {
    /// A gate with no arming press recorded.
    pub fn new() -> (r: DebounceGate)
        ensures
            r@ is None,
    {
        DebounceGate { last_trigger: None }
    }

    /// Handles one press of the hotkey at `now` (milliseconds on a common
    /// clock) and returns whether it confirms a dispatch.
    pub fn on_trigger(&mut self, now: u64) -> (r: bool)
        ensures
            (final(self)@, r) == trigger_step(old(self)@, now),
    {
        match self.last_trigger.take() {
            Some(t) if t <= now && now - t < DEBOUNCE_WINDOW_MS => true,
            _ => {
                self.last_trigger = Some(now);
                false
            },
        }
    }

    /// The time of the recorded arming press, if any.
    pub fn last_trigger(&self) -> (r: Option<u64>)
        ensures
            r == self@,
    {
        self.last_trigger
    }
}

/// A press that follows the arming press by less than the window confirms a
/// dispatch and clears the recorded press.
pub proof fn lemma_quick_second_press_confirms(t1: u64, t2: u64)
    requires
        t1 <= t2,
        t2 - t1 < DEBOUNCE_WINDOW_MS,
    ensures
        trigger_step(None, t1) == (Some(t1), false),
        trigger_step(Some(t1), t2) == (None::<u64>, true),
{
}

/// A press that comes the window or more after the arming press confirms
/// nothing and becomes the new arming press.
pub proof fn lemma_late_second_press_rearms(t1: u64, t2: u64)
    requires
        t1 <= t2,
        t2 - t1 >= DEBOUNCE_WINDOW_MS,
    ensures
        trigger_step(None, t1) == (Some(t1), false),
        trigger_step(Some(t1), t2) == (Some(t2), false),
{
}

/// A single press on an empty gate never confirms a dispatch.
pub proof fn lemma_lone_press_never_confirms(t: u64)
    ensures
        !trigger_step(None, t).1,
{
}

/// Two presses in a row never both confirm, whatever was recorded before:
/// a confirming press clears the record, so the next press can only arm.
pub proof fn lemma_confirm_consumes_state(last: Option<u64>, t1: u64, t2: u64)
    ensures
        trigger_step(last, t1).1 ==> trigger_step(last, t1).0 is None,
        !(trigger_step(last, t1).1 && trigger_step(trigger_step(last, t1).0, t2).1),
{
}

} // verus!
