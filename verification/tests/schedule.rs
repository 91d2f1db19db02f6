use exponential_backoff::rng::{LCG_INC, LCG_MUL};
use exponential_backoff::{Backoff, Delay, Iter, SeededRng};

#[test]
fn max_backoff_without_crashing() {
    let retries: u32 = u32::MAX;
    let min = Delay::maximum();
    let backoff = Backoff::new(retries, min, None);

    let mut counter: u32 = 0;
    let mut iter = backoff.iter();
    while let Some(_duration) = iter.next() {
        counter += 1;
        if counter > 32 {
            break;
        }
    }
}

#[test]
fn iterator_completes() {
    let retries: u32 = 3;
    let min = Delay::from_millis(10);
    let max = Delay::from_millis(20);
    let backoff = Backoff::new(retries, min, Some(max));
    let mut counter: u32 = 0;
    let mut iter = backoff.iter();
    while let Some(_duration) = iter.next() {
        counter += 1;
    }
    assert_eq!(counter, 1 + retries);
}

#[test]
fn scenario_stays_within_bounds() {
    let retries: u32 = 8;
    let min = Delay::from_millis(10);
    let max = Delay::from_millis(20);
    let backoff = Backoff::new(retries, min, Some(max));
    let mut pulls: u32 = 0;
    let mut iter = backoff.iter();
    while let Some(d) = iter.next() {
        pulls += 1;
        assert!(min.le(&d));
        assert!(d.le(&max));
    }
    assert_eq!(pulls, 9);
}

#[test]
fn zero_jitter_exact_schedule() {
    let mut backoff = Backoff::new(5, Delay::from_millis(10), None);
    backoff.set_jitter_percent(0);
    let mut iter = backoff.iter();
    let expected: [u128; 6] = [10, 20, 40, 80, 160, 320];
    for i in 0..6usize {
        let d = iter.next().expect("a value before exhaustion");
        assert_eq!(d.as_nanos(), expected[i] * 1_000_000);
    }
    assert!(iter.next().is_none());
}

#[test]
fn seeded_runs_reproduce() {
    let backoff = Backoff::new(6, Delay::from_millis(10), Some(Delay::from_millis(500)));
    let mut a = backoff.iter_with(SeededRng::from_seed(42));
    let mut b = backoff.iter_with(SeededRng::from_seed(42));
    loop {
        match (a.next(), b.next()) {
            (None, None) => break,
            (Some(da), Some(db)) => assert_eq!(da.as_nanos(), db.as_nanos()),
            _ => panic!("sequences diverged"),
        }
    }
}

#[test]
fn exhaustion_is_absorbing() {
    let backoff = Backoff::new(2, Delay::from_millis(5), None);
    let mut iter = backoff.iter_with(SeededRng::from_seed(7));
    let mut produced: u32 = 0;
    while let Some(_d) = iter.next() {
        produced += 1;
    }
    assert_eq!(produced, 3);
    for _ in 0..5usize {
        assert!(iter.next().is_none());
    }
}

#[test]
fn resume_from_count() {
    let mut backoff = Backoff::new(3, Delay::from_millis(10), None);
    backoff.set_jitter_percent(0);
    let mut iter = Iter::with_count(&backoff, 2, SeededRng::from_seed(1));
    assert_eq!(iter.next().expect("index 2").as_nanos(), 40_000_000);
    assert_eq!(iter.next().expect("index 3").as_nanos(), 80_000_000);
    assert!(iter.next().is_none());
}

#[test]
fn jitter_draw_matches_model() {
    let min_nanos: u128 = 100_000_000;
    let backoff = Backoff::new(0, Delay::from_millis(100), None);
    let seed: u64 = 99;
    let state2: u64 = seed.wrapping_mul(LCG_MUL).wrapping_add(LCG_INC);
    let random: u128 = (state2 % 60) as u128;
    let scaled: u128 = min_nanos * 100;
    let after_jitter: u128 = if random < 30 {
        scaled - (scaled * random) / 100
    } else {
        scaled + (scaled * (random / 2)) / 100
    };
    let expected: u128 = (after_jitter / 100).max(min_nanos);
    let mut iter = backoff.iter_with(SeededRng::from_seed(seed));
    assert_eq!(iter.next().expect("one value").as_nanos(), expected);
    assert!(iter.next().is_none());
}

#[test]
fn jitter_perturbs_within_strict_bounds() {
    let mut backoff = Backoff::new(50, Delay::from_millis(100), None);
    backoff.set_factor(1);
    backoff.set_jitter_percent(100);
    let mut iter = backoff.iter();
    while let Some(d) = iter.next() {
        assert!(d.as_nanos() >= 100_000_000);
        assert!(d.as_nanos() < 200_000_000);
    }
}

#[test]
fn defaults_are_factor_two_jitter_thirty() {
    let backoff = Backoff::new(1, Delay::from_millis(10), None);
    assert_eq!(backoff.retries(), 1);
    assert_eq!(backoff.factor(), 2);
    assert_eq!(backoff.jitter_percent(), 30);
    assert_eq!(backoff.min().as_nanos(), 10_000_000);
    assert!(backoff.max().is_none());
}

#[test]
fn setters_replace_fields() {
    let mut backoff = Backoff::new(1, Delay::from_millis(10), Some(Delay::from_millis(40)));
    backoff.set_factor(3);
    backoff.set_jitter_percent(0);
    assert_eq!(backoff.factor(), 3);
    assert_eq!(backoff.jitter_percent(), 0);
    assert_eq!(backoff.max().expect("a maximum").as_nanos(), 40_000_000);
    let mut iter = backoff.iter();
    assert_eq!(iter.next().expect("index 0").as_nanos(), 10_000_000);
    assert_eq!(iter.next().expect("index 1").as_nanos(), 30_000_000);
    assert!(iter.next().is_none());
}
