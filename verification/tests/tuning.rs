use naad::tuning::{interval_ratio, note_name, note_scale_position, system_name, TuningSystem};

#[test]
fn test_note_name() {
    assert_eq!(note_name(69), "A4");
    assert_eq!(note_name(60), "C4");
    assert_eq!(note_name(72), "C5");
}

#[test]
fn note_name_extremes() {
    assert_eq!(note_name(0), "C-1");
    assert_eq!(note_name(1), "C#-1");
    assert_eq!(note_name(11), "B-1");
    assert_eq!(note_name(12), "C0");
    assert_eq!(note_name(127), "G9");
    assert_eq!(note_name(131), "B9");
    assert_eq!(note_name(132), "C10");
    assert_eq!(note_name(255), "D#20");
}

#[test]
fn scale_position_of_a4_and_c4() {
    assert_eq!(note_scale_position(69), (0, 9));
    assert_eq!(note_scale_position(60), (0, 0));
    assert_eq!(note_scale_position(59), (-1, 11));
    assert_eq!(note_scale_position(0), (-5, 0));
    assert_eq!(note_scale_position(255), (16, 3));
}

#[test]
fn scale_position_octave_equivalence() {
    for note in 0u8..=243 {
        let (o1, d1) = note_scale_position(note);
        let (o2, d2) = note_scale_position(note + 12);
        assert_eq!(d1, d2);
        assert_eq!(o2, o1 + 1);
        assert_eq!(o1 * 12 + d1 as i32, note as i32 - 60);
    }
}

#[test]
fn tuning_system_names() {
    assert_eq!(system_name(TuningSystem::EqualTemperament), "Equal Temperament");
    assert_eq!(system_name(TuningSystem::JustIntonation), "Just Intonation");
    assert_eq!(system_name(TuningSystem::Pythagorean), "Pythagorean");
}

#[test]
fn rational_scale_tables() {
    let just: [f32; 12] = [
        1.0, 16.0 / 15.0, 9.0 / 8.0, 6.0 / 5.0, 5.0 / 4.0, 4.0 / 3.0, 45.0 / 32.0, 3.0 / 2.0,
        8.0 / 5.0, 5.0 / 3.0, 9.0 / 5.0, 15.0 / 8.0,
    ];
    let pyth: [f32; 12] = [
        1.0, 256.0 / 243.0, 9.0 / 8.0, 32.0 / 27.0, 81.0 / 64.0, 4.0 / 3.0, 729.0 / 512.0,
        3.0 / 2.0, 128.0 / 81.0, 27.0 / 16.0, 16.0 / 9.0, 243.0 / 128.0,
    ];
    for i in 0..12 {
        let (n, d) = interval_ratio(TuningSystem::JustIntonation, i).unwrap();
        assert_eq!(n as f32 / d as f32, just[i]);
        let (n, d) = interval_ratio(TuningSystem::Pythagorean, i).unwrap();
        assert_eq!(n as f32 / d as f32, pyth[i]);
        assert!(interval_ratio(TuningSystem::EqualTemperament, i).is_none());
    }
    // Ascending within one octave.
    for i in 1..12 {
        assert!(just[i - 1] < just[i] && just[i] < 2.0);
        assert!(pyth[i - 1] < pyth[i] && pyth[i] < 2.0);
    }
}
