use wade::rng::Rng;

#[test]
fn same_seed_same_sequence() {
    let mut a = Rng::new(42);
    let mut b = Rng::new(42);
    for _ in 0..100 {
        assert_eq!(a.next_u64(), b.next_u64());
    }
}

#[test]
fn zero_seed_is_not_stuck() {
    let mut r = Rng::new(0);
    assert_ne!(r.next_u64(), r.next_u64());
}

#[test]
fn range_inclusive_stays_in_bounds() {
    let mut r = Rng::new(7);
    for _ in 0..1_000 {
        let v = r.range_inclusive(2_000, 6_000);
        assert!((2_000..=6_000).contains(&v));
    }
    assert_eq!(r.range_inclusive(5, 5), 5);
    assert_eq!(r.range_inclusive(9, 3), 9);
}

#[test]
fn xorshift_star_gives_its_known_first_value() {
    // One xorshift step of 1 is 0x2000001, times the multiplier, wrapping.
    let mut r = Rng::new(1);
    assert_eq!(r.next_u64(), 0x0200_0001u64.wrapping_mul(0x2545_F491_4F6C_DD1D));
    assert!(r.state_is_nonzero());
}

#[test]
fn the_whole_range_of_u64_draws_any_value() {
    let mut a = Rng::new(11);
    let mut b = Rng::new(11);
    assert_eq!(a.range_inclusive(0, u64::MAX), b.next_u64());
}
