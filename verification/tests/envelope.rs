use naad::envelope::EnvelopeState;

const ALL: [EnvelopeState; 5] = [
    EnvelopeState::Idle,
    EnvelopeState::Attack,
    EnvelopeState::Decay,
    EnvelopeState::Sustain,
    EnvelopeState::Release,
];

#[test]
fn envelope_stage_order() {
    assert_eq!(EnvelopeState::Attack.after_stage_end(), EnvelopeState::Decay);
    assert_eq!(EnvelopeState::Decay.after_stage_end(), EnvelopeState::Sustain);
    assert_eq!(EnvelopeState::Sustain.after_stage_end(), EnvelopeState::Sustain);
    assert_eq!(EnvelopeState::Release.after_stage_end(), EnvelopeState::Idle);
    assert_eq!(EnvelopeState::Idle.after_stage_end(), EnvelopeState::Idle);
}

#[test]
fn envelope_gate_events() {
    for s in ALL {
        assert_eq!(s.after_gate_on(), EnvelopeState::Attack);
        assert!(s.after_gate_on().is_active());
        assert_eq!(s.after_gate_off().is_active(), s.is_active());
    }
    assert_eq!(EnvelopeState::Idle.after_gate_off(), EnvelopeState::Idle);
    assert_eq!(EnvelopeState::Sustain.after_gate_off(), EnvelopeState::Release);
    assert_eq!(EnvelopeState::Attack.after_gate_off(), EnvelopeState::Release);
    assert!(!EnvelopeState::Idle.is_active());
}

#[test]
fn envelope_settles_within_three_stage_ends() {
    for s in ALL {
        let t = s.after_stage_end().after_stage_end().after_stage_end();
        assert!(t == EnvelopeState::Sustain || t == EnvelopeState::Idle);
        assert_eq!(s.after_gate_off().after_stage_end(), EnvelopeState::Idle);
    }
}
