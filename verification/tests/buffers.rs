use naad::delay::DelayBuffer;
use naad::mod_matrix::{ModDestination, ModSource, RoutingSlots, MAX_ROUTINGS};

#[test]
fn test_delay_line_basic() {
    let mut dl = DelayBuffer::new(10, 0.0f32);
    dl.write(1.0);
    // Reading with delay 0 should return the just-written sample
    let val = dl.tap(0);
    assert!((val - 1.0).abs() < f32::EPSILON);
}

#[test]
fn test_delay_line_delayed() {
    let mut dl = DelayBuffer::new(10, 0.0f32);
    dl.write(1.0);
    for _ in 0..5 {
        dl.write(0.0);
    }
    let val = dl.tap(5);
    assert!(
        (val - 1.0).abs() < f32::EPSILON,
        "expected 1.0 at 5 sample delay, got {val}"
    );
}

#[test]
fn delay_buffer_history_wraps() {
    let mut dl = DelayBuffer::new(4, 0i32);
    assert_eq!(dl.capacity(), 4);
    for x in 1..=6 {
        dl.write(x);
    }
    // Most recent first; 1 and 2 were forgotten.
    assert_eq!(dl.tap(0), 6);
    assert_eq!(dl.tap(1), 5);
    assert_eq!(dl.tap(2), 4);
    assert_eq!(dl.tap(3), 3);
    assert_eq!(dl.write_position(), 2);
    assert_eq!(dl.slots(), &vec![5, 6, 3, 4]);
}

#[test]
fn delay_buffer_zero_capacity_is_one() {
    let mut dl = DelayBuffer::new(0, 7u8);
    assert_eq!(dl.capacity(), 1);
    assert_eq!(dl.tap(0), 7);
    dl.write(9);
    assert_eq!(dl.tap(0), 9);
    assert_eq!(dl.write_position(), 0);
}

#[test]
fn delay_buffer_fill_and_parts() {
    let mut dl = DelayBuffer::new(3, 1u16);
    dl.write(5);
    dl.fill_all(0);
    assert_eq!((dl.tap(0), dl.tap(1), dl.tap(2)), (0, 0, 0));
    let back = DelayBuffer::from_parts(vec![10u16, 20, 30], 1).unwrap();
    assert_eq!(back.tap(0), 10);
    assert_eq!(back.tap(1), 30);
    assert_eq!(back.tap(2), 20);
    assert!(DelayBuffer::<u16>::from_parts(vec![], 0).is_none());
    assert!(DelayBuffer::from_parts(vec![1u16], 1).is_none());
}

#[test]
fn test_max_routings() {
    let mut m = RoutingSlots::new();
    for _ in 0..MAX_ROUTINGS {
        assert!(m.add((ModSource::Lfo1, ModDestination::Pitch)));
    }
    // 17th should fail
    assert!(!m.add((ModSource::Lfo1, ModDestination::Pitch)));
    assert_eq!(m.len(), MAX_ROUTINGS);
}

#[test]
fn routing_slots_remove_and_edit() {
    let mut m = RoutingSlots::new();
    m.add(1u32);
    m.add(2);
    m.add(3);
    m.remove(1);
    assert_eq!(m.items(), &vec![1, 3]);
    m.remove(5);
    assert_eq!(m.len(), 2);
    *m.get_mut(0) = 7;
    assert_eq!(m.items(), &vec![7, 3]);
    m.clear();
    assert_eq!(m.len(), 0);
    let restored = RoutingSlots::from_vec(vec![4u32; 20]);
    assert_eq!(restored.len(), 20);
}

#[test]
fn mod_slots_are_distinct() {
    let sources = [
        ModSource::Lfo1,
        ModSource::Lfo2,
        ModSource::AmpEnvelope,
        ModSource::FilterEnvelope,
        ModSource::Velocity,
        ModSource::ModWheel,
        ModSource::Aftertouch,
        ModSource::PitchBend,
    ];
    let dests = [
        ModDestination::Pitch,
        ModDestination::FilterCutoff,
        ModDestination::FilterResonance,
        ModDestination::Amplitude,
        ModDestination::Pan,
        ModDestination::PulseWidth,
        ModDestination::FmIndex,
        ModDestination::LfoRate,
    ];
    for (i, s) in sources.iter().enumerate() {
        assert_eq!(s.slot(), i);
    }
    for (i, d) in dests.iter().enumerate() {
        assert_eq!(d.slot(), i);
    }
}
