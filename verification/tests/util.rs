use caravel::util::{generate_duration, generate_token, splayed_seconds};

#[test]
fn util_test_generate_duration() {
    let interval = 30; // 30 minutes
    let splay = 10; // 10 seconds
                    // it should be between 29:50 and 30:10 or 1790 and 1810 seconds
    let d = generate_duration(interval, splay);
    println!("Duration: {:?}", d);
    assert!(d.as_secs() >= 1790 && d.as_secs() <= 1810);
}

#[test]
fn agent_test_generate_duration() {
    let interval = 30; // 30 minutes
    let splay = 10; // 10 seconds
                    // it should be between 29:50 and 30:10 or 1790 and 1810 seconds
    let d = generate_duration(interval, splay);
    println!("Duration: {:?}", d);
    assert!(d.as_secs() >= 1790 && d.as_secs() <= 1810);
}

#[test]
fn duration_is_whole_seconds() {
    assert_eq!(generate_duration(0, 0), std::time::Duration::from_secs(60));
    assert_eq!(generate_duration(30, 0), std::time::Duration::from_secs(1800));
    for _ in 0..50 {
        assert_eq!(generate_duration(3, 7).subsec_nanos(), 0);
    }
}

#[test]
fn duration_without_splay_is_the_interval() {
    assert_eq!(generate_duration(30, 0).as_secs(), 1800);
    assert_eq!(generate_duration(1, 0).as_secs(), 60);
    assert_eq!(generate_duration(0, 0).as_secs(), 60);
}

#[test]
fn duration_stays_within_the_splay() {
    let mut seen = std::collections::BTreeSet::new();
    for _ in 0..400 {
        let secs = generate_duration(2, 5).as_secs();
        assert!((115..=125).contains(&secs), "{}", secs);
        seen.insert(secs);
    }
    // The splay moves the interval: not every wait is the same.
    assert!(seen.len() > 1);
    assert!(seen.iter().any(|secs| *secs != 115));
}

#[test]
fn splayed_seconds_adds_the_offset_to_the_minutes() {
    assert_eq!(splayed_seconds(30, 0), 1800);
    assert_eq!(splayed_seconds(30, 10), 1810);
    assert_eq!(splayed_seconds(30, -10), 1790);
    assert_eq!(splayed_seconds(0, 7), 7);
    assert_eq!(splayed_seconds(1, -59), 1);
}

#[test]
fn splayed_seconds_of_nothing_is_a_minute() {
    assert_eq!(splayed_seconds(0, 0), 60);
    assert_eq!(splayed_seconds(1, -60), 60);
    assert_eq!(splayed_seconds(2, -120), 60);
}

#[test]
fn splayed_seconds_below_zero_wrap() {
    assert_eq!(splayed_seconds(0, -1), u64::MAX);
    assert_eq!(splayed_seconds(1, -70), u64::MAX - 9);
    assert_eq!(splayed_seconds(0, i64::MIN), 1u64 << 63);
    assert_eq!(splayed_seconds(0, -5), (-5i64) as u64);
}

#[test]
fn token_is_fixed() {
    assert_eq!(generate_token(), "spiderman");
}
