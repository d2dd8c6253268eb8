use motion_light::machine::Event;
use motion_light::machine::IndicatorAction;
use motion_light::machine::LightState;
use motion_light::machine::LightStateMachine;
use motion_light::machine::MAX_BRIGHTNESS;
use motion_light::machine::WaitPlan;

#[test]
fn new_machine_starts_fully_on() {
    let m = LightStateMachine::new();
    assert_eq!(m.state, LightState::On);
    assert_eq!(m.brightness, MAX_BRIGHTNESS);
}

#[test]
fn brightness_saturates_at_maximum() {
    let mut m = LightStateMachine { state: LightState::FadingOn, brightness: 255 };
    m.step(Event::TimerElapsed);
    assert_eq!(m.brightness, 255);
    assert_eq!(m.state, LightState::On);
}

#[test]
fn brightness_saturates_at_zero() {
    let mut m = LightStateMachine { state: LightState::FadingOff, brightness: 0 };
    m.step(Event::TimerElapsed);
    assert_eq!(m.brightness, 0);
    assert_eq!(m.state, LightState::Off);
}

#[test]
fn fade_on_reaches_maximum_in_exactly_the_remaining_steps() {
    let start: u8 = 100;
    let mut m = LightStateMachine { state: LightState::FadingOn, brightness: start };
    let steps: u16 = (MAX_BRIGHTNESS - start) as u16;
    for i in 1u16..=steps {
        assert_eq!(m.state, LightState::FadingOn);
        let before: u8 = m.brightness;
        m.step(Event::TimerElapsed);
        assert_eq!(m.brightness as u16, before as u16 + 1);
        assert_eq!(m.brightness as u16, start as u16 + i);
    }
    assert_eq!(m.brightness, MAX_BRIGHTNESS);
    assert_eq!(m.state, LightState::On);
    // Further ticks change nothing about brightness: it never wraps.
    m.step(Event::TimerElapsed);
    assert_eq!(m.brightness, MAX_BRIGHTNESS);
}

#[test]
fn on_state_timer_first_starts_fade_off() {
    let mut m = LightStateMachine::new();
    m.step(Event::TimerElapsed);
    assert_eq!(m.state, LightState::FadingOff);
    assert_eq!(m.brightness, MAX_BRIGHTNESS);
}

#[test]
fn on_state_motion_first_stays_on() {
    let mut m = LightStateMachine::new();
    m.step(Event::MotionDetected);
    assert_eq!(m.state, LightState::On);
    assert_eq!(m.brightness, MAX_BRIGHTNESS);
}

#[test]
fn on_state_never_leaves_on_under_motion_alone() {
    let mut m = LightStateMachine::new();
    for _ in 0u32..1000u32 {
        m.step(Event::MotionDetected);
        assert_eq!(m.state, LightState::On);
        assert_eq!(m.brightness, MAX_BRIGHTNESS);
    }
}

#[test]
fn fade_off_interrupted_by_motion_resumes_unchanged() {
    let mut m = LightStateMachine { state: LightState::FadingOff, brightness: 100 };
    for _ in 0u8..30u8 {
        m.step(Event::TimerElapsed);
    }
    assert_eq!(m.state, LightState::FadingOff);
    assert_eq!(m.brightness, 70);
    m.step(Event::MotionDetected);
    assert_eq!(m.state, LightState::FadingOn);
    assert_eq!(m.brightness, 70);
}

#[test]
fn off_state_button_edge_starts_fade_on() {
    let mut m = LightStateMachine { state: LightState::Off, brightness: 0 };
    m.step(Event::ButtonPressed);
    assert_eq!(m.state, LightState::FadingOn);
    assert_eq!(m.brightness, 0);
}

#[test]
fn off_state_motion_edge_starts_fade_on() {
    let mut m = LightStateMachine { state: LightState::Off, brightness: 0 };
    m.step(Event::MotionDetected);
    assert_eq!(m.state, LightState::FadingOn);
    assert_eq!(m.brightness, 0);
}

#[test]
fn events_outside_the_armed_race_change_nothing() {
    let mut m = LightStateMachine { state: LightState::Off, brightness: 5 };
    m.step(Event::TimerElapsed);
    assert_eq!(m, LightStateMachine { state: LightState::Off, brightness: 5 });

    let mut m = LightStateMachine { state: LightState::FadingOn, brightness: 5 };
    m.step(Event::MotionDetected);
    assert_eq!(m, LightStateMachine { state: LightState::FadingOn, brightness: 5 });
    m.step(Event::ButtonPressed);
    assert_eq!(m, LightStateMachine { state: LightState::FadingOn, brightness: 5 });

    let mut m = LightStateMachine { state: LightState::On, brightness: 255 };
    m.step(Event::ButtonPressed);
    assert_eq!(m, LightStateMachine { state: LightState::On, brightness: 255 });

    let mut m = LightStateMachine { state: LightState::FadingOff, brightness: 5 };
    m.step(Event::ButtonPressed);
    assert_eq!(m, LightStateMachine { state: LightState::FadingOff, brightness: 5 });
}

#[test]
fn output_off_state() {
    let m = LightStateMachine { state: LightState::Off, brightness: 0 };
    let out = m.output();
    assert_eq!(out.frame_brightness, 0);
    assert_eq!(out.indicator, IndicatorAction::Deactivate);
    assert_eq!(out.wait, WaitPlan::ButtonOrMotion);
}

#[test]
fn output_fading_on_state() {
    let m = LightStateMachine { state: LightState::FadingOn, brightness: 17 };
    let out = m.output();
    assert_eq!(out.frame_brightness, 17);
    assert_eq!(out.indicator, IndicatorAction::Keep);
    assert_eq!(out.wait, WaitPlan::FadeOnTick);
}

#[test]
fn output_on_state() {
    let m = LightStateMachine::new();
    let out = m.output();
    assert_eq!(out.frame_brightness, MAX_BRIGHTNESS);
    assert_eq!(out.indicator, IndicatorAction::Activate);
    assert_eq!(out.wait, WaitPlan::HoldTimerOrMotion);
}

#[test]
fn output_fading_off_state() {
    // The fade-off decrements first and transmits at the new brightness.
    let m = LightStateMachine { state: LightState::FadingOff, brightness: 211 };
    let out = m.output();
    assert_eq!(out.frame_brightness, 210);
    assert_eq!(out.indicator, IndicatorAction::Keep);
    assert_eq!(out.wait, WaitPlan::FadeOffTickOrMotion);
}

#[test]
fn first_fade_off_frame_is_one_below_maximum() {
    // The hold timer wins in On: the next owed frame is the first fade-off
    // step, one below full brightness.
    let mut m = LightStateMachine::new();
    m.step(Event::TimerElapsed);
    assert_eq!(m.state, LightState::FadingOff);
    assert_eq!(m.brightness, MAX_BRIGHTNESS);
    assert_eq!(m.output().frame_brightness, 254);
}

#[test]
fn fade_off_transmits_down_to_zero_before_off_repeats_it() {
    // From full brightness the fade-off owes frames 254, 253, ..., 0; the
    // entry to Off then repeats 0.
    let mut m = LightStateMachine { state: LightState::FadingOff, brightness: 255 };
    let mut expected: u16 = 254;
    while m.state == LightState::FadingOff {
        assert_eq!(m.output().frame_brightness as u16, expected);
        m.step(Event::TimerElapsed);
        expected = expected.saturating_sub(1);
    }
    assert_eq!(m.state, LightState::Off);
    assert_eq!(m.output().frame_brightness, 0);
}

#[test]
fn end_to_end_button_press_full_cycle() {
    // Dark start: off at brightness zero.
    let mut m = LightStateMachine { state: LightState::Off, brightness: 0 };

    // Button falling edge: the fade on begins.
    m.step(Event::ButtonPressed);
    assert_eq!(m.state, LightState::FadingOn);
    assert_eq!(m.brightness, 0);

    // 255 fade ticks with no motion: fully on.
    for _ in 0u16..255u16 {
        m.step(Event::TimerElapsed);
    }
    assert_eq!(m.state, LightState::On);
    assert_eq!(m.brightness, 255);

    // The five-minute hold timer elapses with no motion: fading off.
    m.step(Event::TimerElapsed);
    assert_eq!(m.state, LightState::FadingOff);
    assert_eq!(m.brightness, 255);

    // 255 fade ticks with no motion: dark again.
    for _ in 0u16..255u16 {
        m.step(Event::TimerElapsed);
    }
    assert_eq!(m.state, LightState::Off);
    assert_eq!(m.brightness, 0);
}
