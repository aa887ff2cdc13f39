//! The stage machine behind the ADSR envelope: which stage follows a note-on,
//! a note-off, or the end of the current stage.

use vstd::prelude::*;

verus! {

/// Envelope state machine stages.
#[derive(Debug, Clone, Copy, PartialEq, Eq, Structural, Hash)]
pub enum EnvelopeState {
    /// Envelope is inactive (output = 0).
    Idle,
    /// Attack phase (rising from 0 to 1).
    Attack,
    /// Decay phase (falling from 1 to sustain level).
    Decay,
    /// Sustain phase (holding at sustain level).
    Sustain,
    /// Release phase (falling from current to 0).
    Release,
}

/// Stage entered on note-on: the attack restarts from any stage.
pub open spec fn gate_on_spec(s: EnvelopeState) -> EnvelopeState {
    EnvelopeState::Attack
}

/// Stage entered on note-off: an idle envelope stays idle, any other releases.
pub open spec fn gate_off_spec(s: EnvelopeState) -> EnvelopeState {
    if s == EnvelopeState::Idle {
        EnvelopeState::Idle
    } else {
        EnvelopeState::Release
    }
}

/// Stage entered when the current stage has run its course: attack gives way
/// to decay, decay to sustain, release to idle; sustain and idle hold.
pub open spec fn stage_end_spec(s: EnvelopeState) -> EnvelopeState {
    match s {
        EnvelopeState::Attack => EnvelopeState::Decay,
        EnvelopeState::Decay => EnvelopeState::Sustain,
        EnvelopeState::Release => EnvelopeState::Idle,
        EnvelopeState::Sustain => EnvelopeState::Sustain,
        EnvelopeState::Idle => EnvelopeState::Idle,
    }
}

/// An envelope is active in every stage but idle.
pub open spec fn is_active_spec(s: EnvelopeState) -> bool {
    s != EnvelopeState::Idle
}

impl EnvelopeState {
    /// The stage after a note-on (gate on).
    pub fn after_gate_on(self) -> (r: EnvelopeState)
        ensures
            r == gate_on_spec(self),
            r == EnvelopeState::Attack,
    {
        EnvelopeState::Attack
    }

    /// The stage after a note-off (gate off).
    pub fn after_gate_off(self) -> (r: EnvelopeState)
        ensures
            r == gate_off_spec(self),
            self == EnvelopeState::Idle ==> r == EnvelopeState::Idle,
            self != EnvelopeState::Idle ==> r == EnvelopeState::Release,
    {
        if self == EnvelopeState::Idle {
            EnvelopeState::Idle
        } else {
            EnvelopeState::Release
        }
    }

    /// The stage after the current stage completes.
    pub fn after_stage_end(self) -> (r: EnvelopeState)
        ensures
            r == stage_end_spec(self),
            self == EnvelopeState::Attack ==> r == EnvelopeState::Decay,
            self == EnvelopeState::Decay ==> r == EnvelopeState::Sustain,
            self == EnvelopeState::Sustain ==> r == EnvelopeState::Sustain,
            self == EnvelopeState::Release ==> r == EnvelopeState::Idle,
            self == EnvelopeState::Idle ==> r == EnvelopeState::Idle,
    {
        match self {
            EnvelopeState::Attack => EnvelopeState::Decay,
            EnvelopeState::Decay => EnvelopeState::Sustain,
            EnvelopeState::Release => EnvelopeState::Idle,
            EnvelopeState::Sustain => EnvelopeState::Sustain,
            EnvelopeState::Idle => EnvelopeState::Idle,
        }
    }

    /// Whether an envelope in this stage produces output (is not idle).
    pub fn is_active(self) -> (r: bool)
        ensures
            r == is_active_spec(self),
            r <==> self != EnvelopeState::Idle,
    {
        self != EnvelopeState::Idle
    }
}

/// A note-off never wakes an idle envelope and never silences an active one at
/// once: activity is the same before and after it, and a released envelope
/// stays released on a second note-off.
pub proof fn lemma_gate_off_keeps_activity(s: EnvelopeState)
    ensures
        is_active_spec(gate_off_spec(s)) == is_active_spec(s),
        gate_off_spec(gate_off_spec(s)) == gate_off_spec(s),
{
}

/// A note-on always makes the envelope active.
pub proof fn lemma_gate_on_activates(s: EnvelopeState)
    ensures
        is_active_spec(gate_on_spec(s)),
        gate_on_spec(s) == EnvelopeState::Attack,
{
}

/// Without gate events the envelope settles: after at most three stage ends
/// it rests in sustain or idle, which stage ends never leave; a release always
/// ends in idle.
pub proof fn lemma_stages_settle(s: EnvelopeState)
    ensures
        ({
            let t = stage_end_spec(stage_end_spec(stage_end_spec(s)));
            t == EnvelopeState::Sustain || t == EnvelopeState::Idle
        }),
        stage_end_spec(EnvelopeState::Sustain) == EnvelopeState::Sustain,
        stage_end_spec(EnvelopeState::Idle) == EnvelopeState::Idle,
        stage_end_spec(EnvelopeState::Release) == EnvelopeState::Idle,
        stage_end_spec(gate_off_spec(s)) == EnvelopeState::Idle,
{
}

/// Only a note-on leaves the idle stage.
pub proof fn lemma_idle_needs_gate_on(s: EnvelopeState)
    requires
        s == EnvelopeState::Idle,
    ensures
        stage_end_spec(s) == EnvelopeState::Idle,
        gate_off_spec(s) == EnvelopeState::Idle,
{
}

/// A note-on runs the envelope through attack, decay and sustain in that
/// order: the first stage end after it enters decay, the second sustain, and
/// sustain then holds until a note-off, which releases; the release ends in
/// idle. Each of these stages is distinct from the others.
pub proof fn lemma_adsr_order(s: EnvelopeState)
    ensures
        stage_end_spec(gate_on_spec(s)) == EnvelopeState::Decay,
        stage_end_spec(stage_end_spec(gate_on_spec(s))) == EnvelopeState::Sustain,
        gate_off_spec(stage_end_spec(stage_end_spec(gate_on_spec(s)))) == EnvelopeState::Release,
        stage_end_spec(gate_off_spec(gate_on_spec(s))) == EnvelopeState::Idle,
        gate_on_spec(s) != stage_end_spec(gate_on_spec(s)),
        stage_end_spec(gate_on_spec(s)) != stage_end_spec(stage_end_spec(gate_on_spec(s))),
        is_active_spec(stage_end_spec(stage_end_spec(gate_on_spec(s)))),
{
}

} // verus!
