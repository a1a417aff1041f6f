use attorand::Rng;
use attorand::RNG_SEED;

/// Just a quick sanity check for the 'less than or equal to' statement.
#[test]
fn it_works() {
    let mut rng = Rng::new_default();
    for _ in 0..100 {
        let randers = rng.next_u64_max(2);
        println!("{}", randers);
        assert!(randers <= 2);
    }
}

#[test]
fn same_seed_same_bytes() {
    let mut a = Rng::new_with_seed(12345);
    let mut b = Rng::new_with_seed(12345);
    for _ in 0..256 {
        assert_eq!(a.next_byte(), b.next_byte());
    }
}

#[test]
fn same_seed_same_mixed_operations() {
    let mut a = Rng::new_with_seed(0xFEED_FACE);
    let mut b = Rng::new_with_seed(0xFEED_FACE);
    for _ in 0..20 {
        assert_eq!(a.next_u64(), b.next_u64());
        assert_eq!(a.next_bool(), b.next_bool());
        assert_eq!(a.next_byte(), b.next_byte());
        assert_eq!(a.next_u64_max(100), b.next_u64_max(100));
    }
}

#[test]
fn default_seed_is_the_documented_constant() {
    let mut a = Rng::new_default();
    let mut b = Rng::new_with_seed(RNG_SEED);
    for _ in 0..64 {
        assert_eq!(a.next_byte(), b.next_byte());
    }
}

#[test]
fn default_runs_repeat_themselves() {
    let mut a = Rng::new_default();
    let mut b = Rng::new_default();
    for _ in 0..64 {
        assert_eq!(a.next_u64(), b.next_u64());
    }
}

#[test]
fn bounded_draws_stay_in_range() {
    let bounds: [u64; 8] = [1, 2, 3, 7, 100, 1 << 33, u64::MAX - 1, u64::MAX];
    for &max in bounds.iter() {
        let mut rng = Rng::new_with_seed(max);
        for _ in 0..50 {
            assert!(rng.next_u64_max(max) <= max);
        }
    }
}

#[test]
fn max_zero_always_returns_zero() {
    let mut rng = Rng::new_with_seed(7);
    for _ in 0..32 {
        assert_eq!(rng.next_u64_max(0), 0);
    }
}

#[test]
fn u64_is_big_endian_packing_of_bytes() {
    let mut wide = Rng::new_with_seed(42);
    let mut narrow = Rng::new_with_seed(42);
    for _ in 0..8 {
        let from_wide = wide.next_u64();
        let mut packed: u64 = 0;
        for _ in 0..8 {
            packed = (packed << 8) | narrow.next_byte() as u64;
        }
        assert_eq!(from_wide, packed);
    }
}

#[test]
fn full_range_bound_matches_plain_u64() {
    // With max == u64::MAX the covering mask keeps every bit, so the very
    // first draw is accepted and the sampler returns it unchanged.
    let mut a = Rng::new_with_seed(9);
    let mut b = Rng::new_with_seed(9);
    for _ in 0..16 {
        assert_eq!(a.next_u64_max(u64::MAX), b.next_u64());
    }
}

#[test]
fn power_of_two_bound_keeps_low_bits() {
    // With max == 255 the mask is exactly the low byte, every draw is
    // accepted, and the sampler returns the low byte of the draw.
    let mut a = Rng::new_with_seed(11);
    let mut b = Rng::new_with_seed(11);
    for _ in 0..16 {
        assert_eq!(a.next_u64_max(255), b.next_u64() & 255);
    }
}

#[test]
fn bool_matches_byte_parity() {
    let mut a = Rng::new_with_seed(1);
    let mut b = Rng::new_with_seed(1);
    for _ in 0..100 {
        assert_eq!(a.next_bool(), b.next_byte() % 2 == 0);
    }
    // The boolean pull consumed exactly one byte each time: the two
    // streams are still aligned.
    for _ in 0..16 {
        assert_eq!(a.next_byte(), b.next_byte());
    }
}

#[test]
fn stream_never_runs_dry() {
    let mut rng = Rng::new_with_seed(0xABCD);
    let mut drawn: u32 = 0;
    for _ in 0..10_000 {
        let _ = rng.next_byte();
        drawn += 1;
    }
    assert_eq!(drawn, 10_000);
}

#[test]
fn seed_zero_bounded_scenario() {
    let mut rng = Rng::new_with_seed(0);
    for _ in 0..100 {
        let v = rng.next_u64_max(2);
        assert!(v == 0 || v == 1 || v == 2);
    }
}
