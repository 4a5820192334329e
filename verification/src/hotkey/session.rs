//! The decisions of the hotkey loop. The driver owns no I/O: the loop
//! around it (in the application) waits for raw key events and for the
//! arm timer, hands each to the driver, and performs the action the
//! driver returns (start or stop audio capture, arm or clear the timer,
//! show the pill, run the dictation or command pipeline).

use vstd::prelude::*;

use super::chord::{
    chord_step, resolved_mode, ChordEvent, ChordMachine, ChordOutcome, ChordState, Mode, Phase,
};
use super::keymap::{hotkey_for, HotKey, PhysicalKey, Platform};

verus! {

/// A recognised hotkey transition, as forwarded by the global listener.
#[derive(Debug, Clone, Copy, PartialEq, Eq, Structural)]
pub enum RawKeyEvent {
    Down(HotKey),
    Up(HotKey),
}

/// The listener's event for a physical key press (`pressed`) or release.
pub open spec fn spec_raw_key_event(key: PhysicalKey, pressed: bool, platform: Platform) -> Option<
    RawKeyEvent,
> {
    match hotkey_for(key, platform) {
        Some(h) => Some(
            if pressed {
                RawKeyEvent::Down(h)
            } else {
                RawKeyEvent::Up(h)
            },
        ),
        None => None,
    }
}

/// Turns a physical key transition into a hotkey event; keys that play
/// no role are dropped.
pub fn raw_key_event(key: PhysicalKey, pressed: bool, platform: Platform) -> (r: Option<RawKeyEvent>)
    ensures
        r == spec_raw_key_event(key, pressed, platform),
{
    match HotKey::from_rdev(key, platform) {
        Some(h) => Some(
            if pressed {
                RawKeyEvent::Down(h)
            } else {
                RawKeyEvent::Up(h)
            },
        ),
        None => None,
    }
}

/// What the loop must do with audio capture and the pill.
#[derive(Debug, Clone, Copy, PartialEq, Eq, Structural)]
pub enum SessionAction {
    Nothing,
    /// Begin buffering audio now, before the mode is known.
    StartCapture,
    /// Stop capture and drop the audio: an accidental tap.
    DiscardCapture,
    /// Stop capture, drop the audio and fade the pill out: Esc mid-recording.
    CancelSession,
    /// Stop capture, show "transcribing" and run the pipeline of this mode
    /// on the captured audio.
    FinishCapture(Mode),
    /// The mode is resolved: show the pill for it.
    ShowPill(Mode),
}

/// What the loop must do with the arm timer.
#[derive(Debug, Clone, Copy, PartialEq, Eq, Structural)]
pub enum TimerCommand {
    Keep,
    /// Start the arm timer, to fire `ARM_WINDOW_MS` from now.
    Arm,
    Clear,
}

#[derive(Debug, Clone, Copy, PartialEq, Eq, Structural)]
pub struct SessionStep {
    pub action: SessionAction,
    pub timer: TimerCommand,
}

/// What ends a session whose phase before the release was `prior`: a
/// recording is transcribed in its mode; a cancelled session (its audio
/// already dropped) and anything else end without further work.
pub open spec fn spec_session_end(prior: Phase) -> SessionAction {
    match prior {
        Phase::Recording(m) => SessionAction::FinishCapture(m),
        _ => SessionAction::Nothing,
    }
}

pub fn handle_session_end(prior_phase: Phase) -> (a: SessionAction)
    ensures
        a == spec_session_end(prior_phase),
{
    match prior_phase {
        Phase::Recording(m) => SessionAction::FinishCapture(m),
        _ => SessionAction::Nothing,
    }
}

/// What follows a finished recording once capture has stopped.
#[derive(Debug, Clone, Copy, PartialEq, Eq, Structural)]
pub enum AfterCapture {
    /// Show "transcribing" and run the pipeline of this mode on the audio.
    RunPipeline(Mode),
    /// No audio came back: hide the pill, so no session leaves it up.
    HidePill,
}

pub open spec fn spec_after_capture(mode: Mode, captured: bool) -> AfterCapture {
    if captured {
        AfterCapture::RunPipeline(mode)
    } else {
        AfterCapture::HidePill
    }
}

/// Decides what follows `FinishCapture(mode)`, given whether stopping the
/// capture returned audio: the pipeline of the recording's mode runs on
/// it, or, with nothing captured, the pill is hidden.
pub fn finish_step(mode: Mode, captured: bool) -> (r: AfterCapture)
    ensures
        r == spec_after_capture(mode, captured),
{
    if captured {
        AfterCapture::RunPipeline(mode)
    } else {
        AfterCapture::HidePill
    }
}

pub open spec fn step_of(action: SessionAction, timer: TimerCommand) -> SessionStep {
    SessionStep { action, timer }
}

/// The driver's transition for a raw key event.
pub open spec fn session_step(
    s: ChordState,
    raw: RawKeyEvent,
    listening_enabled: bool,
    at_ms: u64,
) -> (ChordState, SessionStep) {
    match raw {
        RawKeyEvent::Down(HotKey::RightCommand) => if !listening_enabled {
            (s, step_of(SessionAction::Nothing, TimerCommand::Keep))
        } else {
            let (n, o) = chord_step(s, ChordEvent::RightCommandDown { at_ms });
            if o == ChordOutcome::ArmStarted {
                (n, step_of(SessionAction::StartCapture, TimerCommand::Arm))
            } else {
                (n, step_of(SessionAction::Nothing, TimerCommand::Keep))
            }
        },
        RawKeyEvent::Up(HotKey::RightCommand) => {
            let (n, o) = chord_step(s, ChordEvent::RightCommandUp { at_ms });
            let action = match o {
                ChordOutcome::AccidentalTap => SessionAction::DiscardCapture,
                ChordOutcome::Idle => spec_session_end(s.phase),
                _ => SessionAction::Nothing,
            };
            (n, step_of(action, TimerCommand::Clear))
        },
        RawKeyEvent::Down(HotKey::RightOption) => (
            chord_step(s, ChordEvent::RightOptionDown).0,
            step_of(SessionAction::Nothing, TimerCommand::Keep),
        ),
        RawKeyEvent::Up(HotKey::RightOption) => (
            chord_step(s, ChordEvent::RightOptionUp).0,
            step_of(SessionAction::Nothing, TimerCommand::Keep),
        ),
        RawKeyEvent::Down(HotKey::Escape) => {
            let (n, o) = chord_step(s, ChordEvent::Escape);
            if o == ChordOutcome::Cancelled {
                (n, step_of(SessionAction::CancelSession, TimerCommand::Keep))
            } else {
                (n, step_of(SessionAction::Nothing, TimerCommand::Keep))
            }
        },
        RawKeyEvent::Up(HotKey::Escape) => (s, step_of(SessionAction::Nothing, TimerCommand::Keep)),
    }
}

/// The driver's transition when the arm timer fires.
pub open spec fn timer_step(s: ChordState, at_ms: u64) -> (ChordState, SessionStep) {
    let (n, o) = chord_step(s, ChordEvent::ArmTimerFired { at_ms });
    match o {
        ChordOutcome::ModeResolved(m) => (n, step_of(SessionAction::ShowPill(m), TimerCommand::Clear)),
        _ => (n, step_of(SessionAction::Nothing, TimerCommand::Clear)),
    }
}

/// Whether audio is being captured in `phase`.
pub open spec fn captures_in(phase: Phase) -> bool {
    phase == Phase::Arming || phase is Recording
}

/// Whether audio is being captured after `action`, given whether it was before.
pub open spec fn capturing_after(capturing: bool, action: SessionAction) -> bool {
    match action {
        SessionAction::StartCapture => true,
        SessionAction::DiscardCapture => false,
        SessionAction::CancelSession => false,
        SessionAction::FinishCapture(_) => false,
        _ => capturing,
    }
}

/// Whether the arm timer runs after `cmd`, given whether it did before.
pub open spec fn timer_running_after(running: bool, cmd: TimerCommand) -> bool {
    match cmd {
        TimerCommand::Keep => running,
        TimerCommand::Arm => true,
        TimerCommand::Clear => false,
    }
}

/// The abstract state of a `SessionDriver`: the chord machine, and what
/// the loop is doing on the driver's instructions.
pub struct DriverState {
    pub chord: ChordState,
    pub arm_timer_running: bool,
    pub capturing: bool,
}

/// Drives the chord machine from the hotkey loop's events and tells the
/// loop what to do. Tracks whether the arm timer runs and whether audio
/// is captured, as the loop does them on its instructions.
pub struct SessionDriver {
    machine: ChordMachine,
    arm_timer_running: bool,
    capturing: bool,
}

impl View for SessionDriver {
    type V = DriverState;

    closed spec fn view(&self) -> DriverState {
        DriverState {
            chord: self.machine@,
            arm_timer_running: self.arm_timer_running,
            capturing: self.capturing,
        }
    }
}

/// The driver's invariant: the arm timer runs exactly while arming, and
/// audio is captured exactly while arming or recording.
pub open spec fn driver_consistent(d: DriverState) -> bool {
    &&& d.arm_timer_running == (d.chord.phase == Phase::Arming)
    &&& d.capturing == captures_in(d.chord.phase)
}

impl SessionDriver {
    /// Every driver is consistent: see `driver_consistent`.
    #[verifier::type_invariant]
    spec fn consistent(self) -> bool {
        driver_consistent(self@)
    }

    pub fn new() -> (d: Self)
        ensures
            d@.chord == (ChordState { phase: Phase::Idle, right_option_held: false }),
            driver_consistent(d@),
    {
        SessionDriver { machine: ChordMachine::new(), arm_timer_running: false, capturing: false }
    }

    pub fn phase(&self) -> (p: Phase)
        ensures
            p == self@.chord.phase,
    {
        self.machine.phase()
    }

    /// Handles one hotkey event. `listening_enabled` is the dashboard's
    /// master switch: when off, Right Command does not arm a session (a
    /// session already in flight still finishes normally).
    pub fn handle_raw_event(&mut self, raw: RawKeyEvent, listening_enabled: bool, at_ms: u64) -> (step:
        SessionStep)
        ensures
            (final(self)@.chord, step) == session_step(old(self)@.chord, raw, listening_enabled, at_ms),
            final(self)@.arm_timer_running == timer_running_after(
                old(self)@.arm_timer_running,
                step.timer,
            ),
            final(self)@.capturing == capturing_after(old(self)@.capturing, step.action),
            driver_consistent(final(self)@),
    {
        proof {
            use_type_invariant(&*self);
        }
        let ghost before = self@.chord;
        let mut machine = self.machine;
        let step = match raw {
            RawKeyEvent::Down(HotKey::RightCommand) => {
                if !listening_enabled {
                    SessionStep { action: SessionAction::Nothing, timer: TimerCommand::Keep }
                } else {
                    let outcome = machine.on_event(ChordEvent::RightCommandDown { at_ms });
                    if outcome == ChordOutcome::ArmStarted {
                        SessionStep { action: SessionAction::StartCapture, timer: TimerCommand::Arm }
                    } else {
                        SessionStep { action: SessionAction::Nothing, timer: TimerCommand::Keep }
                    }
                }
            },
            RawKeyEvent::Up(HotKey::RightCommand) => {
                let prior_phase = machine.phase();
                let outcome = machine.on_event(ChordEvent::RightCommandUp { at_ms });
                let action = match outcome {
                    ChordOutcome::AccidentalTap => SessionAction::DiscardCapture,
                    ChordOutcome::Idle => handle_session_end(prior_phase),
                    _ => SessionAction::Nothing,
                };
                SessionStep { action, timer: TimerCommand::Clear }
            },
            RawKeyEvent::Down(HotKey::RightOption) => {
                machine.on_event(ChordEvent::RightOptionDown);
                SessionStep { action: SessionAction::Nothing, timer: TimerCommand::Keep }
            },
            RawKeyEvent::Up(HotKey::RightOption) => {
                machine.on_event(ChordEvent::RightOptionUp);
                SessionStep { action: SessionAction::Nothing, timer: TimerCommand::Keep }
            },
            RawKeyEvent::Down(HotKey::Escape) => {
                let outcome = machine.on_event(ChordEvent::Escape);
                if outcome == ChordOutcome::Cancelled {
                    SessionStep { action: SessionAction::CancelSession, timer: TimerCommand::Keep }
                } else {
                    SessionStep { action: SessionAction::Nothing, timer: TimerCommand::Keep }
                }
            },
            RawKeyEvent::Up(HotKey::Escape) => {
                SessionStep { action: SessionAction::Nothing, timer: TimerCommand::Keep }
            },
        };
        let arm_timer_running = match step.timer {
            TimerCommand::Keep => self.arm_timer_running,
            TimerCommand::Arm => true,
            TimerCommand::Clear => false,
        };
        let capturing = match step.action {
            SessionAction::StartCapture => true,
            SessionAction::DiscardCapture => false,
            SessionAction::CancelSession => false,
            SessionAction::FinishCapture(_) => false,
            _ => self.capturing,
        };
        proof {
            lemma_session_step_keeps_driver_consistent(
                DriverState {
                    chord: before,
                    arm_timer_running: old(self)@.arm_timer_running,
                    capturing: old(self)@.capturing,
                },
                raw,
                listening_enabled,
                at_ms,
            );
        }
        *self = SessionDriver { machine, arm_timer_running, capturing };
        step
    }

    /// Handles the arm timer firing: the arm window has elapsed.
    pub fn on_arm_timer(&mut self, at_ms: u64) -> (step: SessionStep)
        ensures
            (final(self)@.chord, step) == timer_step(old(self)@.chord, at_ms),
            final(self)@.arm_timer_running == timer_running_after(
                old(self)@.arm_timer_running,
                step.timer,
            ),
            final(self)@.capturing == capturing_after(old(self)@.capturing, step.action),
            driver_consistent(final(self)@),
    {
        proof {
            use_type_invariant(&*self);
        }
        let mut machine = self.machine;
        let outcome = machine.on_event(ChordEvent::ArmTimerFired { at_ms });
        let action = match outcome {
            ChordOutcome::ModeResolved(m) => SessionAction::ShowPill(m),
            _ => SessionAction::Nothing,
        };
        *self = SessionDriver { machine, arm_timer_running: false, capturing: self.capturing };
        SessionStep { action, timer: TimerCommand::Clear }
    }
}

/// Every step of the driver keeps the arm timer running exactly while
/// arming, and audio captured exactly while arming or recording, provided
/// the loop does what each step asks.
pub proof fn lemma_session_step_keeps_driver_consistent(
    d: DriverState,
    raw: RawKeyEvent,
    listening_enabled: bool,
    at_ms: u64,
)
    requires
        driver_consistent(d),
    ensures
        ({
            let (n, step) = session_step(d.chord, raw, listening_enabled, at_ms);
            driver_consistent(
                DriverState {
                    chord: n,
                    arm_timer_running: timer_running_after(d.arm_timer_running, step.timer),
                    capturing: capturing_after(d.capturing, step.action),
                },
            )
        }),
        ({
            let (n, step) = timer_step(d.chord, at_ms);
            driver_consistent(
                DriverState {
                    chord: n,
                    arm_timer_running: timer_running_after(d.arm_timer_running, step.timer),
                    capturing: capturing_after(d.capturing, step.action),
                },
            )
        }),
{
}

/// Audio capture starts exactly when Right Command goes down while idle
/// and listening is enabled: at key-down, not when the mode resolves.
pub proof fn lemma_capture_starts_at_key_down(
    s: ChordState,
    raw: RawKeyEvent,
    listening_enabled: bool,
    at_ms: u64,
)
    ensures
        (session_step(s, raw, listening_enabled, at_ms).1.action == SessionAction::StartCapture)
            <==> (listening_enabled && raw == RawKeyEvent::Down(HotKey::RightCommand) && s.phase
            == Phase::Idle),
        timer_step(s, at_ms).1.action != SessionAction::StartCapture,
{
}

/// With listening disabled, no new session starts, whatever the event.
pub proof fn lemma_no_session_while_not_listening(s: ChordState, raw: RawKeyEvent, at_ms: u64)
    requires
        s.phase == Phase::Idle,
    ensures
        session_step(s, raw, false, at_ms).0.phase == Phase::Idle,
        session_step(s, raw, false, at_ms).1.action == SessionAction::Nothing,
{
}

/// Only a recording that was not cancelled is transcribed, in the mode it
/// was resolved to, only on release of Right Command, and once: the
/// machine is back in Idle afterwards.
pub proof fn lemma_only_a_finished_recording_is_transcribed(
    s: ChordState,
    raw: RawKeyEvent,
    listening_enabled: bool,
    at_ms: u64,
    m: Mode,
)
    ensures
        (session_step(s, raw, listening_enabled, at_ms).1.action == SessionAction::FinishCapture(m))
            <==> (s.phase == Phase::Recording(m) && raw == RawKeyEvent::Up(HotKey::RightCommand)),
        session_step(s, raw, listening_enabled, at_ms).1.action == SessionAction::FinishCapture(m)
            ==> session_step(s, raw, listening_enabled, at_ms).0.phase == Phase::Idle,
        timer_step(s, at_ms).1.action != SessionAction::FinishCapture(m),
{
}

/// A cancelled session never reaches the pipeline: from Cancelled, no
/// event transcribes, and releasing Right Command returns to Idle.
pub proof fn lemma_cancelled_session_ends_silently(
    s: ChordState,
    raw: RawKeyEvent,
    listening_enabled: bool,
    at_ms: u64,
)
    requires
        s.phase == Phase::Cancelled,
    ensures
        session_step(s, raw, listening_enabled, at_ms).1.action == SessionAction::Nothing,
        raw == RawKeyEvent::Up(HotKey::RightCommand) ==> session_step(
            s,
            raw,
            listening_enabled,
            at_ms,
        ).0.phase == Phase::Idle,
{
}

/// The pill is shown exactly when the arm window elapses while arming,
/// for the resolved mode.
pub proof fn lemma_pill_shown_on_resolution(s: ChordState, at_ms: u64, m: Mode)
    ensures
        (timer_step(s, at_ms).1.action == SessionAction::ShowPill(m)) <==> (s.phase
            == Phase::Arming && m == resolved_mode(s.right_option_held)),
{
}

/// The first delay before the global listener is started again after it
/// failed to start.
pub const INITIAL_RETRY_DELAY_MS: u64 = 1000;

/// The longest delay between attempts to start the global listener.
pub const MAX_RETRY_DELAY_MS: u64 = 10_000;

pub open spec fn spec_next_retry_delay(delay_ms: u64) -> int {
    if 2 * delay_ms < MAX_RETRY_DELAY_MS {
        2 * delay_ms
    } else {
        MAX_RETRY_DELAY_MS as int
    }
}

/// The delay after a failed attempt to start the listener, given the
/// delay before it: doubled, up to the maximum.
pub fn next_retry_delay_ms(delay_ms: u64) -> (r: u64)
    ensures
        r == spec_next_retry_delay(delay_ms),
{
    if delay_ms < MAX_RETRY_DELAY_MS / 2 {
        2 * delay_ms
    } else {
        MAX_RETRY_DELAY_MS
    }
}

/// Retry delays never exceed the maximum, and never shrink while below it.
pub proof fn lemma_retry_delay_bounded(delay_ms: u64)
    ensures
        spec_next_retry_delay(delay_ms) <= MAX_RETRY_DELAY_MS,
        delay_ms <= MAX_RETRY_DELAY_MS ==> delay_ms <= spec_next_retry_delay(delay_ms),
{
}

/// Esc during a recording, in either mode, cancels it (capture dropped and
/// the pill told to fade); at any other time Esc does nothing. Releasing
/// Esc never does anything.
pub proof fn lemma_escape_cancels_every_recording(
    s: ChordState,
    listening_enabled: bool,
    at_ms: u64,
)
    ensures
        s.phase is Recording ==> session_step(
            s,
            RawKeyEvent::Down(HotKey::Escape),
            listening_enabled,
            at_ms,
        ).1.action == SessionAction::CancelSession,
        !(s.phase is Recording) ==> session_step(
            s,
            RawKeyEvent::Down(HotKey::Escape),
            listening_enabled,
            at_ms,
        ).1.action == SessionAction::Nothing,
        session_step(s, RawKeyEvent::Up(HotKey::Escape), listening_enabled, at_ms).1.action
            == SessionAction::Nothing,
{
}

/// Capture is dropped as an accidental tap exactly when Right Command is
/// released while arming, and cancelled exactly when Esc is pressed while
/// recording.
pub proof fn lemma_discard_and_cancel_are_distinct(
    s: ChordState,
    raw: RawKeyEvent,
    listening_enabled: bool,
    at_ms: u64,
)
    ensures
        (session_step(s, raw, listening_enabled, at_ms).1.action == SessionAction::DiscardCapture)
            <==> (raw == RawKeyEvent::Up(HotKey::RightCommand) && s.phase == Phase::Arming),
        (session_step(s, raw, listening_enabled, at_ms).1.action == SessionAction::CancelSession)
            <==> (raw == RawKeyEvent::Down(HotKey::Escape) && s.phase is Recording),
{
}

/// The listener forwards every key that plays a role: a press as `Down`
/// of that role and a release as `Up`; keys with no role are dropped.
pub proof fn lemma_role_keys_are_forwarded(key: PhysicalKey, platform: Platform)
    ensures
        forall|h: HotKey|
            hotkey_for(key, platform) == Some(h) ==> spec_raw_key_event(key, true, platform) == Some(
                RawKeyEvent::Down(h),
            ) && spec_raw_key_event(key, false, platform) == Some(RawKeyEvent::Up(h)),
        hotkey_for(key, platform) is None ==> spec_raw_key_event(key, true, platform) is None
            && spec_raw_key_event(key, false, platform) is None,
{
}

/// On each platform, each role's key reaches the loop: pressing it gives
/// `Down` of that role and releasing it `Up`. In particular Esc always
/// arrives, so it can cancel a recording.
pub proof fn lemma_every_role_reaches_the_loop(platform: Platform, role: HotKey)
    ensures
        exists|k: PhysicalKey|
            spec_raw_key_event(k, true, platform) == Some(RawKeyEvent::Down(role))
                && #[trigger] spec_raw_key_event(k, false, platform) == Some(RawKeyEvent::Up(role)),
{
    crate::hotkey::keymap::lemma_each_role_has_exactly_one_key(platform, role);
    let k = choose|k: PhysicalKey| hotkey_for(k, platform) == Some(role);
    lemma_role_keys_are_forwarded(k, platform);
    assert(spec_raw_key_event(k, false, platform) == Some(RawKeyEvent::Up(role)));
}

} // verus!
