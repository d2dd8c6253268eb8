//! Laws of whole runs of the lifecycle machine.
//!
//! [`machine::step_spec`] pins down a single transition; the proofs here
//! state what sequences of transitions do: fades terminate at the right
//! boundary after exactly the right number of ticks, motion alone never
//! moves the machine out of `On`, and a motion edge during a fade-off
//! resumes toward full brightness from the interrupted value.

use vstd::prelude::*;

use crate::machine::Event;
use crate::machine::LightState;
use crate::machine::LightStateMachine;
use crate::machine::MAX_BRIGHTNESS;
use crate::machine::dec_saturating;
use crate::machine::inc_saturating;
use crate::machine::step_spec;

verus! {

/// The machine after `n` timer events delivered in a row.
pub open spec fn after_timer_ticks(m: LightStateMachine, n: nat) -> LightStateMachine
    decreases n,
{
    if n == 0 {
        m
    } else {
        step_spec(after_timer_ticks(m, (n - 1) as nat), Event::TimerElapsed)
    }
}

/// The machine after `n` motion events delivered in a row.
pub open spec fn after_motion_events(m: LightStateMachine, n: nat) -> LightStateMachine
    decreases n,
{
    if n == 0 {
        m
    } else {
        step_spec(after_motion_events(m, (n - 1) as nat), Event::MotionDetected)
    }
}

/// Fade-on termination: from `FadingOn` below full brightness, each tick
/// raises brightness by exactly one — never past the maximum — and after
/// exactly `MAX_BRIGHTNESS - b` ticks the machine is `On` at full
/// brightness; one tick fewer still fades.
pub proof fn lemma_fading_on_terminates(m: LightStateMachine, n: nat)
    requires
        m.state == LightState::FadingOn,
        m.brightness < MAX_BRIGHTNESS,
        n <= MAX_BRIGHTNESS - m.brightness,
    ensures
        after_timer_ticks(m, n).brightness == m.brightness + n,
        n < MAX_BRIGHTNESS - m.brightness ==> after_timer_ticks(m, n).state
            == LightState::FadingOn,
        n == MAX_BRIGHTNESS - m.brightness ==> after_timer_ticks(m, n).state == LightState::On,
    decreases n,
{
    if n > 0 {
        lemma_fading_on_terminates(m, (n - 1) as nat);
    }
}

/// Fade-off progress: from `FadingOff` above zero, each tick lowers
/// brightness by exactly one — never below zero — and after exactly `b`
/// ticks the machine is `Off` at brightness zero; one tick fewer still
/// fades.
pub proof fn lemma_fading_off_terminates(m: LightStateMachine, n: nat)
    requires
        m.state == LightState::FadingOff,
        0 < m.brightness,
        n <= m.brightness,
    ensures
        after_timer_ticks(m, n).brightness == m.brightness - n,
        n < m.brightness ==> after_timer_ticks(m, n).state == LightState::FadingOff,
        n == m.brightness ==> after_timer_ticks(m, n).state == LightState::Off,
    decreases n,
{
    if n > 0 {
        lemma_fading_off_terminates(m, (n - 1) as nat);
    }
}

/// Race resolution in `On`: whichever event wins the race decides the next
/// state — the hold timer starts the fade-off, motion re-enters `On` — and
/// neither winner changes brightness.
pub proof fn lemma_on_race_resolution(m: LightStateMachine)
    requires
        m.state == LightState::On,
    ensures
        step_spec(m, Event::TimerElapsed).state == LightState::FadingOff,
        step_spec(m, Event::TimerElapsed).brightness == m.brightness,
        step_spec(m, Event::MotionDetected) == m,
{
}

/// Motion alone never moves the machine out of `On`: any run of motion
/// events leaves it exactly where it was.
pub proof fn lemma_on_ignores_motion(m: LightStateMachine, n: nat)
    requires
        m.state == LightState::On,
    ensures
        after_motion_events(m, n) == m,
    decreases n,
{
    if n > 0 {
        lemma_on_ignores_motion(m, (n - 1) as nat);
    }
}

/// Interrupted fade-off: if motion arrives after `k` ticks of a fade-off,
/// before brightness has reached zero, the machine resumes fading on with
/// brightness exactly as it stood at the interruption — neither reset to
/// zero nor snapped to full.
pub proof fn lemma_motion_interrupts_fade_off(m: LightStateMachine, k: nat)
    requires
        m.state == LightState::FadingOff,
        k < m.brightness,
    ensures
        step_spec(after_timer_ticks(m, k), Event::MotionDetected).state == LightState::FadingOn,
        step_spec(after_timer_ticks(m, k), Event::MotionDetected).brightness == m.brightness - k,
{
    lemma_fading_off_terminates(m, k);
}

/// Brightness moves one way in a fade: while fading on it never decreases
/// and while fading off it never increases, whatever event arrives; in
/// particular it saturates rather than wrapping at either end.
pub proof fn lemma_fade_monotonic(m: LightStateMachine, event: Event)
    ensures
        m.state == LightState::FadingOn ==> step_spec(m, event).brightness >= m.brightness,
        m.state == LightState::FadingOff ==> step_spec(m, event).brightness <= m.brightness,
        inc_saturating(MAX_BRIGHTNESS) == MAX_BRIGHTNESS,
        dec_saturating(0) == 0,
{
}

} // verus!
