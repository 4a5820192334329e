use speechx::hotkey::chord::{ChordEvent, ChordMachine, ChordOutcome, Mode, Phase, ARM_WINDOW_MS};

#[test]
fn plain_right_command_arms_then_resolves_to_dictate() {
    let mut m = ChordMachine::new();
    assert_eq!(
        m.on_event(ChordEvent::RightCommandDown { at_ms: 0 }),
        ChordOutcome::ArmStarted
    );
    assert_eq!(m.phase(), Phase::Arming);
    assert_eq!(
        m.on_event(ChordEvent::ArmTimerFired { at_ms: 150 }),
        ChordOutcome::ModeResolved(Mode::Dictate)
    );
    assert_eq!(m.phase(), Phase::Recording(Mode::Dictate));
}

#[test]
fn right_option_held_during_arming_resolves_to_command_mode() {
    let mut m = ChordMachine::new();
    m.on_event(ChordEvent::RightCommandDown { at_ms: 0 });
    m.on_event(ChordEvent::RightOptionDown);
    assert_eq!(
        m.on_event(ChordEvent::ArmTimerFired { at_ms: 150 }),
        ChordOutcome::ModeResolved(Mode::Command)
    );
    assert_eq!(m.phase(), Phase::Recording(Mode::Command));
}

#[test]
fn right_option_pressed_after_resolution_does_not_change_mode() {
    let mut m = ChordMachine::new();
    m.on_event(ChordEvent::RightCommandDown { at_ms: 0 });
    assert_eq!(
        m.on_event(ChordEvent::ArmTimerFired { at_ms: 150 }),
        ChordOutcome::ModeResolved(Mode::Dictate)
    );
    m.on_event(ChordEvent::RightOptionDown);
    assert_eq!(m.phase(), Phase::Recording(Mode::Dictate));
}

#[test]
fn releasing_before_the_timer_fires_is_an_accidental_tap() {
    let mut m = ChordMachine::new();
    m.on_event(ChordEvent::RightCommandDown { at_ms: 0 });
    assert_eq!(
        m.on_event(ChordEvent::RightCommandUp { at_ms: 80 }),
        ChordOutcome::AccidentalTap
    );
    assert_eq!(m.phase(), Phase::Idle);
}

#[test]
fn escape_during_recording_cancels_and_release_returns_to_idle_silently() {
    let mut m = ChordMachine::new();
    m.on_event(ChordEvent::RightCommandDown { at_ms: 0 });
    m.on_event(ChordEvent::ArmTimerFired { at_ms: 150 });
    assert_eq!(m.on_event(ChordEvent::Escape), ChordOutcome::Cancelled);
    assert_eq!(m.phase(), Phase::Cancelled);
    assert_eq!(
        m.on_event(ChordEvent::RightCommandUp { at_ms: 400 }),
        ChordOutcome::Idle
    );
    assert_eq!(m.phase(), Phase::Idle);
}

#[test]
fn escape_outside_a_recording_session_is_a_no_op() {
    let mut m = ChordMachine::new();
    assert_eq!(m.on_event(ChordEvent::Escape), ChordOutcome::Nothing);
    assert_eq!(m.phase(), Phase::Idle);
}

#[test]
fn command_mode_recording_also_cancels_on_escape() {
    let mut m = ChordMachine::new();
    m.on_event(ChordEvent::RightCommandDown { at_ms: 0 });
    m.on_event(ChordEvent::RightOptionDown);
    m.on_event(ChordEvent::ArmTimerFired { at_ms: 150 });
    assert_eq!(m.on_event(ChordEvent::Escape), ChordOutcome::Cancelled);
}

#[test]
fn arm_window_is_one_hundred_fifty_ms() {
    assert_eq!(ARM_WINDOW_MS, 150);
}

#[test]
fn default_machine_starts_idle() {
    let m = ChordMachine::default();
    assert_eq!(m.phase(), Phase::Idle);
}

#[test]
fn release_returns_to_idle_from_every_phase() {
    // Arming
    let mut m = ChordMachine::new();
    m.on_event(ChordEvent::RightCommandDown { at_ms: 0 });
    m.on_event(ChordEvent::RightCommandUp { at_ms: 10 });
    assert_eq!(m.phase(), Phase::Idle);
    // Recording
    m.on_event(ChordEvent::RightCommandDown { at_ms: 20 });
    m.on_event(ChordEvent::ArmTimerFired { at_ms: 170 });
    assert_eq!(m.on_event(ChordEvent::RightCommandUp { at_ms: 300 }), ChordOutcome::Idle);
    assert_eq!(m.phase(), Phase::Idle);
    // Idle
    assert_eq!(m.on_event(ChordEvent::RightCommandUp { at_ms: 400 }), ChordOutcome::Nothing);
    assert_eq!(m.phase(), Phase::Idle);
}

#[test]
fn second_key_down_while_arming_is_ignored() {
    let mut m = ChordMachine::new();
    m.on_event(ChordEvent::RightCommandDown { at_ms: 0 });
    assert_eq!(m.on_event(ChordEvent::RightCommandDown { at_ms: 5 }), ChordOutcome::Nothing);
    assert_eq!(m.phase(), Phase::Arming);
}

#[test]
fn timer_outside_arming_does_nothing() {
    let mut m = ChordMachine::new();
    assert_eq!(m.on_event(ChordEvent::ArmTimerFired { at_ms: 150 }), ChordOutcome::Nothing);
    assert_eq!(m.phase(), Phase::Idle);
}

#[test]
fn escape_while_arming_does_not_cancel() {
    let mut m = ChordMachine::new();
    m.on_event(ChordEvent::RightCommandDown { at_ms: 0 });
    assert_eq!(m.on_event(ChordEvent::Escape), ChordOutcome::Nothing);
    assert_eq!(m.phase(), Phase::Arming);
}

#[test]
fn right_option_released_before_resolution_gives_dictate() {
    let mut m = ChordMachine::new();
    m.on_event(ChordEvent::RightOptionDown);
    m.on_event(ChordEvent::RightCommandDown { at_ms: 0 });
    m.on_event(ChordEvent::RightOptionUp);
    assert_eq!(
        m.on_event(ChordEvent::ArmTimerFired { at_ms: 150 }),
        ChordOutcome::ModeResolved(Mode::Dictate)
    );
}

#[test]
fn cancelled_ignores_escape_and_timer() {
    let mut m = ChordMachine::new();
    m.on_event(ChordEvent::RightCommandDown { at_ms: 0 });
    m.on_event(ChordEvent::ArmTimerFired { at_ms: 150 });
    m.on_event(ChordEvent::Escape);
    assert_eq!(m.on_event(ChordEvent::Escape), ChordOutcome::Nothing);
    assert_eq!(m.on_event(ChordEvent::ArmTimerFired { at_ms: 200 }), ChordOutcome::Nothing);
    assert_eq!(m.on_event(ChordEvent::RightCommandDown { at_ms: 210 }), ChordOutcome::Nothing);
    assert_eq!(m.phase(), Phase::Cancelled);
}
