use naad::dsp_util::xorshift32;
use naad::noise::{pink_advance, Xorshift32, PINK_OCTAVES};

#[test]
fn test_xorshift32_zero_state_guard() {
    // Without the guard, xorshift32(0) loops on 0 forever.
    let mut state = 0u32;
    let v = xorshift32(&mut state);
    assert_ne!(v, 0, "zero-state guard must produce non-zero output");
    assert_ne!(state, 0, "state must not remain zero after step");
}

#[test]
fn test_xorshift32_deterministic() {
    let mut a = 42u32;
    let mut b = 42u32;
    for _ in 0..100 {
        assert_eq!(xorshift32(&mut a), xorshift32(&mut b));
    }
}

#[test]
fn xorshift32_known_values() {
    // x = 1: x ^= x << 13 -> 0x2001; x ^= x >> 17 -> 0x2001; x ^= x << 5 -> 0x42021.
    let mut s = 1u32;
    assert_eq!(xorshift32(&mut s), 0x0004_2021);
    assert_eq!(s, 0x0004_2021);
    // A zero state steps from one.
    let mut z = 0u32;
    assert_eq!(xorshift32(&mut z), 0x0004_2021);
}

#[test]
fn xorshift32_state_is_output() {
    let mut s = 12345u32;
    for _ in 0..50 {
        let v = xorshift32(&mut s);
        assert_eq!(v, s);
        assert_ne!(v, 0);
    }
}

#[test]
fn xorshift_generator_matches_shared_step() {
    let mut g = Xorshift32::new(42);
    let mut s = 42u32;
    for _ in 0..1000 {
        assert_eq!(g.next(), xorshift32(&mut s));
    }
    assert_eq!(g.state(), s);
}

#[test]
fn xorshift_generator_zero_seed() {
    let mut g = Xorshift32::new(0);
    assert_eq!(g.state(), 1);
    assert_eq!(g.next(), 0x0004_2021);
}

#[test]
fn pink_schedule_octave_rates() {
    let mut counter = 0u32;
    let mut updates = [0u32; PINK_OCTAVES];
    for _ in 0..1024 {
        let changed = pink_advance(&mut counter);
        for (i, u) in updates.iter_mut().enumerate() {
            if changed & (1 << i) != 0 {
                *u += 1;
            }
        }
    }
    assert_eq!(counter, 1024);
    // Row i updates once every 2^i samples.
    for (i, &u) in updates.iter().enumerate().take(11) {
        assert_eq!(u, 1024 >> i, "octave {i}");
    }
    assert_eq!(updates[11], 0);
}

#[test]
fn pink_schedule_examples() {
    let mut c = 0u32;
    assert_eq!(pink_advance(&mut c), 0b1);
    assert_eq!(c, 1);
    assert_eq!(pink_advance(&mut c), 0b11);
    assert_eq!(pink_advance(&mut c), 0b1);
    assert_eq!(pink_advance(&mut c), 0b111);
    let mut w = u32::MAX;
    assert_eq!(pink_advance(&mut w), u32::MAX);
    assert_eq!(w, 0);
}
