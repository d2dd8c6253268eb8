//! The four-state lifecycle machine of the light controller.
//!
//! The controller owns exactly one [`LightStateMachine`]. Each turn of its
//! loop asks the machine what the current state requires on entry — which
//! frame to transmit, what to do with the indicator line, and which
//! operations to arm and race ([`LightStateMachine::output`]) — performs
//! those actions, waits for the first of the armed operations to complete,
//! and hands the winner back as an [`Event`]
//! ([`LightStateMachine::step`]). The losing operations of a race are simply
//! abandoned; no effect of theirs is ever observed.
//!
//! A motion edge while `On` re-enters `On` unchanged: the driver then runs
//! the entry actions again, refreshing the frame, the indicator level and the
//! hold timer. That refresh is intentional and mirrors the race being
//! re-armed from scratch.

use vstd::prelude::*;

verus! {

/// Milliseconds between brightness steps while fading on.
pub const FADE_ON_STEP_MS: u64 = 2;

/// Milliseconds between brightness steps while fading off.
pub const FADE_OFF_STEP_MS: u64 = 20;

/// Seconds the light holds fully on before it starts fading off.
pub const ON_HOLD_SECS: u64 = 5 * 60;

/// Fully-on brightness; brightness 0 is fully off.
pub const MAX_BRIGHTNESS: u8 = 255;

/// The lifecycle of the light. Exactly one variant is active at a time.
#[derive(Clone, Copy, Debug, PartialEq, Eq, Structural)]
pub enum LightState {
    /// Dark, waiting for the button or the motion sensor.
    Off,
    /// Brightness climbing one step per tick toward the maximum.
    FadingOn,
    /// Fully lit, holding until the long timer elapses.
    On,
    /// Brightness dropping one step per tick toward zero.
    FadingOff,
}

/// The winner of the race armed for the current state: whichever of the
/// competing asynchronous operations completed first.
#[derive(Clone, Copy, Debug, PartialEq, Eq, Structural)]
pub enum Event {
    /// The armed timer elapsed: the hold timer in `On`, a fade tick in
    /// `FadingOn` and `FadingOff`.
    TimerElapsed,
    /// A rising edge on the motion sensor line.
    MotionDetected,
    /// A falling edge on the push-button line.
    ButtonPressed,
}

/// What the indicator line should do on entry to the current state.
#[derive(Clone, Copy, Debug, PartialEq, Eq, Structural)]
pub enum IndicatorAction {
    /// Drive the line to its active level.
    Activate,
    /// Drive the line to its inactive level.
    Deactivate,
    /// Leave the line as it is.
    Keep,
}

/// Which operations the driver must arm, and race, after acting on an
/// [`Output`]. The first to complete becomes the next [`Event`].
#[derive(Clone, Copy, Debug, PartialEq, Eq, Structural)]
pub enum WaitPlan {
    /// A single [`FADE_ON_STEP_MS`] tick; nothing races it, so the next
    /// event is always [`Event::TimerElapsed`].
    FadeOnTick,
    /// The [`ON_HOLD_SECS`] hold timer racing the motion sensor's rising
    /// edge.
    HoldTimerOrMotion,
    /// A [`FADE_OFF_STEP_MS`] tick racing the motion sensor's rising edge.
    FadeOffTickOrMotion,
    /// The button's falling edge racing the motion sensor's rising edge.
    ButtonOrMotion,
}

/// The entry actions of the current state: the brightness of the frame to
/// transmit now, the indicator change, and what to wait on next.
#[derive(Clone, Copy, Debug, PartialEq, Eq, Structural)]
pub struct Output {
    /// Brightness of the frame to encode and transmit before waiting. A
    /// frame is sent on every turn, including redundant retransmissions at
    /// an unchanged maximum or zero value on entry to `On` and `Off`. While
    /// fading off, the owed frame is one step below the held brightness —
    /// the fade decrements first and transmits at the new value — so a fade
    /// from full brightness puts 254 down to 0 on the wire, and the entry to
    /// `Off` then repeats 0.
    pub frame_brightness: u8,
    /// What to do with the indicator line before waiting.
    pub indicator: IndicatorAction,
    /// The race to arm once the frame is on the wire.
    pub wait: WaitPlan,
}

/// The light controller: the active lifecycle state and the brightness it
/// last drove onto the matrix. Brightness persists across state changes, so
/// re-entering a fade resumes from the last value rather than resetting.
#[derive(Clone, Copy, Debug, PartialEq, Eq, Structural)]
pub struct LightStateMachine {
    /// The active lifecycle state.
    pub state: LightState,
    /// The brightness most recently driven, 0 to [`MAX_BRIGHTNESS`].
    pub brightness: u8,
}

/// One brightness step up, saturating at the maximum: never wraps.
pub open spec fn inc_saturating(b: u8) -> u8 {
    if b == MAX_BRIGHTNESS {
        MAX_BRIGHTNESS
    } else {
        (b + 1) as u8
    }
}

/// One brightness step down, saturating at zero: never wraps.
pub open spec fn dec_saturating(b: u8) -> u8 {
    if b == 0 {
        0u8
    } else {
        (b - 1) as u8
    }
}

/// The entry actions owed to `m`'s state: which frame to send, how to set
/// the indicator, and which race to arm.
pub open spec fn output_spec(m: LightStateMachine) -> Output {
    match m.state {
        LightState::Off => Output {
            frame_brightness: 0u8,
            indicator: IndicatorAction::Deactivate,
            wait: WaitPlan::ButtonOrMotion,
        },
        LightState::FadingOn => Output {
            frame_brightness: m.brightness,
            indicator: IndicatorAction::Keep,
            wait: WaitPlan::FadeOnTick,
        },
        LightState::On => Output {
            frame_brightness: MAX_BRIGHTNESS,
            indicator: IndicatorAction::Activate,
            wait: WaitPlan::HoldTimerOrMotion,
        },
        LightState::FadingOff => Output {
            // Decrement first, transmit at the new brightness; the tick that
            // follows brings the held brightness down to the transmitted
            // value.
            frame_brightness: dec_saturating(m.brightness),
            indicator: IndicatorAction::Keep,
            wait: WaitPlan::FadeOffTickOrMotion,
        },
    }
}

/// The transition relation of the controller: the machine after `event` wins
/// the race armed for `m`'s state.
///
/// An event that the state's race does not contain leaves the machine
/// unchanged: such an event can only be a stale completion of an abandoned
/// operation, and abandonment must be effect-free.
pub open spec fn step_spec(m: LightStateMachine, event: Event) -> LightStateMachine {
    match m.state {
        LightState::Off => match event {
            // Either trigger relights the matrix; the fade resumes from the
            // persisted brightness.
            Event::ButtonPressed | Event::MotionDetected => LightStateMachine {
                state: LightState::FadingOn,
                brightness: m.brightness,
            },
            Event::TimerElapsed => m,
        },
        LightState::FadingOn => match event {
            Event::TimerElapsed => {
                let b = inc_saturating(m.brightness);
                LightStateMachine {
                    state: if b == MAX_BRIGHTNESS {
                        LightState::On
                    } else {
                        LightState::FadingOn
                    },
                    brightness: b,
                }
            },
            _ => m,
        },
        LightState::On => match event {
            // The hold timer won: start dimming.
            Event::TimerElapsed => LightStateMachine {
                state: LightState::FadingOff,
                brightness: m.brightness,
            },
            // Motion won: stay on; the driver re-runs the entry actions.
            _ => m,
        },
        LightState::FadingOff => match event {
            Event::TimerElapsed => {
                let b = dec_saturating(m.brightness);
                LightStateMachine {
                    state: if b == 0 {
                        LightState::Off
                    } else {
                        LightState::FadingOff
                    },
                    brightness: b,
                }
            },
            // Motion abandons the fade at the current brightness and turns
            // it around; brightness itself never jumps.
            Event::MotionDetected => LightStateMachine {
                state: LightState::FadingOn,
                brightness: m.brightness,
            },
            Event::ButtonPressed => m,
        },
    }
}

impl LightStateMachine {
    /// The machine as first powered on: fully lit and holding. A caller that
    /// wants a dark start may instead construct the machine at
    /// [`LightState::Off`] with brightness zero.
    pub fn new() -> (m: Self)
        ensures
            m.state == LightState::On,
            m.brightness == MAX_BRIGHTNESS,
    {
        LightStateMachine { state: LightState::On, brightness: MAX_BRIGHTNESS }
    }

    /// The entry actions owed to the current state, to be performed before
    /// the next wait.
    pub fn output(&self) -> (out: Output)
        ensures
            out == output_spec(*self),
    {
        match self.state {
            LightState::Off => Output {
                frame_brightness: 0,
                indicator: IndicatorAction::Deactivate,
                wait: WaitPlan::ButtonOrMotion,
            },
            LightState::FadingOn => Output {
                frame_brightness: self.brightness,
                indicator: IndicatorAction::Keep,
                wait: WaitPlan::FadeOnTick,
            },
            LightState::On => Output {
                frame_brightness: MAX_BRIGHTNESS,
                indicator: IndicatorAction::Activate,
                wait: WaitPlan::HoldTimerOrMotion,
            },
            LightState::FadingOff => Output {
                frame_brightness: self.brightness.saturating_sub(1),
                indicator: IndicatorAction::Keep,
                wait: WaitPlan::FadeOffTickOrMotion,
            },
        }
    }

    /// Advance on the winning event of the current state's race.
    pub fn step(&mut self, event: Event)
        ensures
            *final(self) == step_spec(*old(self), event),
    {
        match self.state {
            LightState::Off => match event {
                Event::ButtonPressed | Event::MotionDetected => {
                    self.state = LightState::FadingOn;
                },
                Event::TimerElapsed => {},
            },
            LightState::FadingOn => match event {
                Event::TimerElapsed => {
                    self.brightness = self.brightness.saturating_add(1);
                    if self.brightness == MAX_BRIGHTNESS {
                        self.state = LightState::On;
                    }
                },
                _ => {},
            },
            LightState::On => match event {
                Event::TimerElapsed => {
                    self.state = LightState::FadingOff;
                },
                _ => {},
            },
            LightState::FadingOff => match event {
                Event::TimerElapsed => {
                    self.brightness = self.brightness.saturating_sub(1);
                    if self.brightness == 0 {
                        self.state = LightState::Off;
                    }
                },
                Event::MotionDetected => {
                    self.state = LightState::FadingOn;
                },
                Event::ButtonPressed => {},
            },
        }
    }
}

} // verus!
