use forge::random::{apply_decay, derive_number_from_hash, ENHANCE_MAX_MULTIPLIER, ENHANCE_MIN_MULTIPLIER};

#[test]
fn zero_hash_draws_the_minimum() {
    assert_eq!(derive_number_from_hash(&[0u8; 32], 320, 600), 320);
}

#[test]
fn words_are_read_little_endian() {
    let mut h = [0u8; 32];
    h[0] = 1;
    assert_eq!(derive_number_from_hash(&h, 320, 600), 321);
    let mut g = [0u8; 32];
    g[7] = 1;
    // 2^56 mod 281 == 99
    assert_eq!(derive_number_from_hash(&g, 320, 600), 320 + ((1u64 << 56) % 281));
}

#[test]
fn words_sum_with_wraparound() {
    assert_eq!(derive_number_from_hash(&[0xff; 32], 320, 600), 417);
}

#[test]
fn counting_bytes_hash() {
    let mut h = [0u8; 32];
    for (i, b) in h.iter_mut().enumerate() {
        *b = i as u8;
    }
    assert_eq!(derive_number_from_hash(&h, 320, 600), 533);
}

#[test]
fn draw_stays_in_range_and_is_repeatable() {
    for seed in 0u32..200 {
        let mut h = [0u8; 32];
        for (i, b) in h.iter_mut().enumerate() {
            *b = (seed.wrapping_mul(2654435761).wrapping_add(i as u32 * 97) >> 3) as u8;
        }
        let a = derive_number_from_hash(&h, ENHANCE_MIN_MULTIPLIER, ENHANCE_MAX_MULTIPLIER);
        let b = derive_number_from_hash(&h, ENHANCE_MIN_MULTIPLIER, ENHANCE_MAX_MULTIPLIER);
        assert!((320..=600).contains(&a));
        assert_eq!(a, b);
    }
}

#[test]
fn decay_three_ticks_late_floors_at_minimum() {
    let target = 1000u64;
    let tolerance = target + 6;
    assert_eq!(apply_decay(500, tolerance + 3, target), 320);
}

#[test]
fn no_decay_at_tolerance() {
    let target = 1000u64;
    assert_eq!(apply_decay(500, target + 6, target), 500);
    assert_eq!(apply_decay(599, target + 1, target), 599);
}

#[test]
fn decay_halves_per_late_tick() {
    let target = 50u64;
    assert_eq!(apply_decay(10_000, target + 7, target), 5_000);
    assert_eq!(apply_decay(10_000, target + 8, target), 2_500);
    assert_eq!(apply_decay(600, target + 7, target), 320);
}

#[test]
fn decay_after_very_long_delay() {
    assert_eq!(apply_decay(u64::MAX, u64::MAX, 0), 320);
    assert_eq!(apply_decay(u64::MAX, 6 + 64, 0), 320);
    assert_eq!(apply_decay(u64::MAX, 6 + 63, 0), 320);
    assert_eq!(apply_decay(u64::MAX, 6 + 40, 0), u64::MAX >> 40);
}

#[test]
fn decay_with_target_near_the_end_of_time() {
    assert_eq!(apply_decay(444, u64::MAX, u64::MAX - 3), 444);
}
