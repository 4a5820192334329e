//! The chord-resolution state machine.
//!
//! Right Command is contained inside Right Command + Right Option, so on
//! key-down the mode cannot be known yet. The machine arms on key-down
//! and resolves the mode when the arm window elapses. It is pure and
//! clock-agnostic: the driver owns the real timer and feeds its expiry in
//! as an `ArmTimerFired` event, so every transition is a function of the
//! current state and the event alone.

use vstd::prelude::*;

verus! {

/// The chord-resolution window: after Right Command goes down, the mode
/// (Dictate vs Command) is decided this many milliseconds later.
pub const ARM_WINDOW_MS: u64 = 150;

#[derive(Debug, Clone, Copy, PartialEq, Eq, Structural)]
pub enum Mode {
    Dictate,
    Command,
}

#[derive(Debug, Clone, Copy, PartialEq, Eq, Structural)]
pub enum Phase {
    Idle,
    Arming,
    Recording(Mode),
    Cancelled,
}

#[derive(Debug, Clone, Copy, PartialEq, Eq, Structural)]
pub enum ChordEvent {
    RightCommandDown { at_ms: u64 },
    RightCommandUp { at_ms: u64 },
    RightOptionDown,
    RightOptionUp,
    Escape,
    /// Fed in by the driver once the arm window's timer elapses.
    ArmTimerFired { at_ms: u64 },
}

#[derive(Debug, Clone, Copy, PartialEq, Eq, Structural)]
pub enum ChordOutcome {
    /// Nothing the caller needs to act on.
    Nothing,
    /// Entered Arming: start buffering audio immediately, before the
    /// mode is known, or the first syllable gets clipped.
    ArmStarted,
    /// The arm window elapsed; the mode is now known.
    ModeResolved(Mode),
    /// Esc was pressed mid-recording: discard, type nothing.
    Cancelled,
    /// Released during Arming, before the timer fired: a no-op tap.
    AccidentalTap,
    /// A session (recording or cancelled) just ended on key-up.
    Idle,
}

/// The abstract state of a `ChordMachine`.
pub struct ChordState {
    pub phase: Phase,
    pub right_option_held: bool,
}

/// The mode a resolving arm window picks, given whether Right Option is
/// held at that moment.
pub open spec fn resolved_mode(right_option_held: bool) -> Mode {
    if right_option_held {
        Mode::Command
    } else {
        Mode::Dictate
    }
}

/// One transition of the chord machine: the next state and the outcome
/// reported for `event` in state `s`.
pub open spec fn chord_step(s: ChordState, event: ChordEvent) -> (ChordState, ChordOutcome) {
    match event {
        ChordEvent::RightOptionDown => (
            ChordState { phase: s.phase, right_option_held: true },
            ChordOutcome::Nothing,
        ),
        ChordEvent::RightOptionUp => (
            ChordState { phase: s.phase, right_option_held: false },
            ChordOutcome::Nothing,
        ),
        ChordEvent::RightCommandDown { .. } => if s.phase == Phase::Idle {
            (
                ChordState { phase: Phase::Arming, right_option_held: s.right_option_held },
                ChordOutcome::ArmStarted,
            )
        } else {
            (s, ChordOutcome::Nothing)
        },
        ChordEvent::ArmTimerFired { .. } => if s.phase == Phase::Arming {
            (
                ChordState {
                    phase: Phase::Recording(resolved_mode(s.right_option_held)),
                    right_option_held: s.right_option_held,
                },
                ChordOutcome::ModeResolved(resolved_mode(s.right_option_held)),
            )
        } else {
            (s, ChordOutcome::Nothing)
        },
        ChordEvent::Escape => if s.phase is Recording {
            (
                ChordState { phase: Phase::Cancelled, right_option_held: s.right_option_held },
                ChordOutcome::Cancelled,
            )
        } else {
            (s, ChordOutcome::Nothing)
        },
        ChordEvent::RightCommandUp { .. } => (
            ChordState { phase: Phase::Idle, right_option_held: s.right_option_held },
            match s.phase {
                Phase::Arming => ChordOutcome::AccidentalTap,
                Phase::Recording(_) => ChordOutcome::Idle,
                Phase::Cancelled => ChordOutcome::Idle,
                Phase::Idle => ChordOutcome::Nothing,
            },
        ),
    }
}

#[derive(Clone, Copy)]
pub struct ChordMachine {
    phase: Phase,
    right_option_held: bool,
}

impl View for ChordMachine {
    type V = ChordState;

    closed spec fn view(&self) -> ChordState {
        ChordState { phase: self.phase, right_option_held: self.right_option_held }
    }
}

impl ChordMachine {
    pub fn new() -> (m: Self)
        ensures
            m@ == (ChordState { phase: Phase::Idle, right_option_held: false }),
    {
        ChordMachine { phase: Phase::Idle, right_option_held: false }
    }

    pub fn phase(&self) -> (p: Phase)
        ensures
            p == self@.phase,
    {
        self.phase
    }

    pub fn on_event(&mut self, event: ChordEvent) -> (outcome: ChordOutcome)
        ensures
            (final(self)@, outcome) == chord_step(old(self)@, event),
    {
        match event {
            ChordEvent::RightOptionDown => {
                self.right_option_held = true;
                ChordOutcome::Nothing
            },
            ChordEvent::RightOptionUp => {
                self.right_option_held = false;
                ChordOutcome::Nothing
            },
            ChordEvent::RightCommandDown { .. } => {
                if self.phase == Phase::Idle {
                    self.phase = Phase::Arming;
                    ChordOutcome::ArmStarted
                } else {
                    ChordOutcome::Nothing
                }
            },
            ChordEvent::ArmTimerFired { .. } => {
                if self.phase == Phase::Arming {
                    let mode = if self.right_option_held {
                        Mode::Command
                    } else {
                        Mode::Dictate
                    };
                    self.phase = Phase::Recording(mode);
                    ChordOutcome::ModeResolved(mode)
                } else {
                    ChordOutcome::Nothing
                }
            },
            ChordEvent::Escape => {
                if let Phase::Recording(_) = self.phase {
                    self.phase = Phase::Cancelled;
                    ChordOutcome::Cancelled
                } else {
                    ChordOutcome::Nothing
                }
            },
            ChordEvent::RightCommandUp { .. } => {
                let outcome = match self.phase {
                    Phase::Arming => ChordOutcome::AccidentalTap,
                    Phase::Recording(_) => ChordOutcome::Idle,
                    Phase::Cancelled => ChordOutcome::Idle,
                    Phase::Idle => ChordOutcome::Nothing,
                };
                self.phase = Phase::Idle;
                outcome
            },
        }
    }
}

impl Default for ChordMachine {
    fn default() -> (m: Self)
        ensures
            m@ == (ChordState { phase: Phase::Idle, right_option_held: false }),
    {
        Self::new()
    }
}

/// Releasing Right Command ends every session: whatever the state, the
/// machine is back in Idle afterwards.
pub proof fn lemma_release_returns_to_idle(s: ChordState, at_ms: u64)
    ensures
        chord_step(s, ChordEvent::RightCommandUp { at_ms }).0.phase == Phase::Idle,
{
}

/// The machine is clock-agnostic: the timestamps carried by events never
/// change a transition.
pub proof fn lemma_timestamps_never_matter(s: ChordState, a: u64, b: u64)
    ensures
        chord_step(s, ChordEvent::RightCommandDown { at_ms: a }) == chord_step(
            s,
            ChordEvent::RightCommandDown { at_ms: b },
        ),
        chord_step(s, ChordEvent::RightCommandUp { at_ms: a }) == chord_step(
            s,
            ChordEvent::RightCommandUp { at_ms: b },
        ),
        chord_step(s, ChordEvent::ArmTimerFired { at_ms: a }) == chord_step(
            s,
            ChordEvent::ArmTimerFired { at_ms: b },
        ),
{
}

/// A session arms exactly when Right Command goes down while Idle.
pub proof fn lemma_arms_only_from_idle(s: ChordState, e: ChordEvent)
    ensures
        (chord_step(s, e).1 == ChordOutcome::ArmStarted) <==> (s.phase == Phase::Idle
            && e is RightCommandDown),
        chord_step(s, e).0.phase == Phase::Arming ==> s.phase == Phase::Arming || (s.phase
            == Phase::Idle && e is RightCommandDown),
{
}

/// A recording starts only when the arm window elapses while arming, and
/// its mode is Command exactly when Right Option is held at that moment.
pub proof fn lemma_recording_entered_only_by_arm_timer(s: ChordState, e: ChordEvent)
    requires
        !(s.phase is Recording),
        chord_step(s, e).0.phase is Recording,
    ensures
        s.phase == Phase::Arming,
        e is ArmTimerFired,
        chord_step(s, e).0.phase == Phase::Recording(resolved_mode(s.right_option_held)),
        chord_step(s, e).1 == ChordOutcome::ModeResolved(resolved_mode(s.right_option_held)),
{
}

/// Once resolved, a recording's mode never changes: pressing or
/// releasing Right Option afterwards leaves it as it is.
pub proof fn lemma_mode_fixed_while_recording(s: ChordState, e: ChordEvent, m: Mode)
    requires
        s.phase == Phase::Recording(m),
        chord_step(s, e).0.phase is Recording,
    ensures
        chord_step(s, e).0.phase == Phase::Recording(m),
{
}

/// Esc cancels exactly a recording, and nothing else.
pub proof fn lemma_escape_cancels_only_a_recording(s: ChordState, e: ChordEvent)
    ensures
        (chord_step(s, e).1 == ChordOutcome::Cancelled) <==> (s.phase is Recording && e
            == ChordEvent::Escape),
        (chord_step(s, e).0.phase == Phase::Cancelled && s.phase != Phase::Cancelled) <==> (
        s.phase is Recording && e == ChordEvent::Escape),
{
}

/// Cancelled is terminal for its session: only releasing Right Command
/// leaves it, back to Idle, and no event there arms, resolves, cancels
/// or reports a tap.
pub proof fn lemma_cancelled_is_terminal(s: ChordState, e: ChordEvent)
    requires
        s.phase == Phase::Cancelled,
    ensures
        chord_step(s, e).0.phase == Phase::Cancelled || (e is RightCommandUp && chord_step(
            s,
            e,
        ).0.phase == Phase::Idle),
        chord_step(s, e).1 == ChordOutcome::Nothing || chord_step(s, e).1 == ChordOutcome::Idle,
{
}

/// Releasing Right Command before the arm window elapses is an
/// accidental tap, and nothing else is.
pub proof fn lemma_accidental_tap_is_release_while_arming(s: ChordState, e: ChordEvent)
    ensures
        (chord_step(s, e).1 == ChordOutcome::AccidentalTap) <==> (s.phase == Phase::Arming
            && e is RightCommandUp),
{
}

/// Right Option only records whether it is held: it never moves the
/// phase and never reports an outcome.
pub proof fn lemma_right_option_only_tracks_the_modifier(s: ChordState, held: bool)
    ensures
        chord_step(
            s,
            if held {
                ChordEvent::RightOptionDown
            } else {
                ChordEvent::RightOptionUp
            },
        ) == (ChordState { phase: s.phase, right_option_held: held }, ChordOutcome::Nothing),
{
}

/// The machine's state after `events`, in order, from `s`.
pub open spec fn run_events(s: ChordState, events: Seq<ChordEvent>) -> ChordState
    decreases events.len(),
{
    if events.len() == 0 {
        s
    } else {
        chord_step(run_events(s, events.drop_last()), events.last()).0
    }
}

/// Whether Right Option is held after `events`, as the keyboard says it:
/// the last Right Option event among them was a press, or, with none,
/// whether it was held before (`held`).
pub open spec fn option_held_after(held: bool, events: Seq<ChordEvent>) -> bool
    decreases events.len(),
{
    if events.len() == 0 {
        held
    } else if events.last() == ChordEvent::RightOptionDown {
        true
    } else if events.last() == ChordEvent::RightOptionUp {
        false
    } else {
        option_held_after(held, events.drop_last())
    }
}

/// Only Right Option events change whether Right Option is held: every
/// other event, in every phase, keeps it as it was.
pub proof fn lemma_only_option_events_change_the_modifier(s: ChordState, e: ChordEvent)
    requires
        e != ChordEvent::RightOptionDown,
        e != ChordEvent::RightOptionUp,
    ensures
        chord_step(s, e).0.right_option_held == s.right_option_held,
{
}

/// Through any sequence of events the machine knows whether Right Option
/// is held exactly as the keyboard does: the last Right Option event, in
/// whatever phase it came, decides.
pub proof fn lemma_modifier_tracks_the_keyboard(s: ChordState, events: Seq<ChordEvent>)
    ensures
        run_events(s, events).right_option_held == option_held_after(s.right_option_held, events),
    decreases events.len(),
{
    if events.len() > 0 {
        lemma_modifier_tracks_the_keyboard(s, events.drop_last());
        let e = events.last();
        if e != ChordEvent::RightOptionDown && e != ChordEvent::RightOptionUp {
            lemma_only_option_events_change_the_modifier(run_events(s, events.drop_last()), e);
        }
    }
}

/// When the arm window elapses, the mode resolved is Command exactly when
/// Right Option is held at that moment, and Dictate otherwise; so after
/// any events, including a Right Option press before Right Command went
/// down, the mode follows the keyboard.
pub proof fn lemma_mode_follows_the_keyboard(s: ChordState, events: Seq<ChordEvent>, at_ms: u64)
    requires
        run_events(s, events).phase == Phase::Arming,
    ensures
        chord_step(run_events(s, events), ChordEvent::ArmTimerFired { at_ms }).1
            == ChordOutcome::ModeResolved(
            if option_held_after(s.right_option_held, events) {
                Mode::Command
            } else {
                Mode::Dictate
            },
        ),
        chord_step(run_events(s, events), ChordEvent::ArmTimerFired { at_ms }).0.phase
            == Phase::Recording(
            if option_held_after(s.right_option_held, events) {
                Mode::Command
            } else {
                Mode::Dictate
            },
        ),
{
    lemma_modifier_tracks_the_keyboard(s, events);
}

} // verus!
