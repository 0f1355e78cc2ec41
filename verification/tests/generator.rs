use loot_oracle::rng::{DotnetRng, MBIG};

#[test]
fn same_seed_same_draws() {
    for seed in [-7, -1, 0, 1, 42, 9999, i32::MAX, i32::MIN] {
        let mut a = DotnetRng::new(seed);
        let mut b = DotnetRng::new(seed);
        for _ in 0..50 {
            assert_eq!(a.next(), b.next());
        }
    }
}

#[test]
fn draws_stay_in_range() {
    for seed in 0..300 {
        let mut rng = DotnetRng::new(seed);
        for _ in 0..20 {
            let s = rng.next();
            assert!((-1..MBIG).contains(&s));
        }
        let mut rng = DotnetRng::new(seed);
        for _ in 0..20 {
            let d = rng.next_range(7);
            assert!((0..7).contains(&d));
        }
        let mut rng = DotnetRng::new(seed);
        for _ in 0..20 {
            let d = rng.next_range(9);
            assert!((0..9).contains(&d));
        }
    }
}

#[test]
fn range_draw_of_zero_bound_is_zero() {
    let mut rng = DotnetRng::new(123);
    for _ in 0..10 {
        assert_eq!(rng.next_range(0), 0);
    }
}

#[test]
fn state_advances_every_draw() {
    // A draw must consume state: two consecutive draws of one instance are
    // not the replay of one draw from two instances.
    let mut one = DotnetRng::new(77);
    let first = one.next();
    let second = one.next();
    let mut fresh = DotnetRng::new(77);
    assert_eq!(fresh.next(), first);
    assert_ne!(first, second);
}

#[test]
fn pinned_sample_sequences() {
    // Regression anchors: the first raw samples for two seeds, recorded from
    // this generator. Any change to seeding or stepping shows up here.
    let mut rng = DotnetRng::new(12345);
    let got: Vec<i32> = (0..5).map(|_| rng.next()).collect();
    assert_eq!(got, vec![143337951, 150666398, 1663795458, 1097663221, 1712597933]);
    let mut rng = DotnetRng::new(0);
    let got: Vec<i32> = (0..5).map(|_| rng.next()).collect();
    assert_eq!(got, vec![1559595546, 1755192844, 1649316166, 1198642031, 442452829]);
}
