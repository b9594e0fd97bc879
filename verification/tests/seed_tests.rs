use rnd::seed::nano_time;
use rnd::seed::raw_seed_with;
use rnd::seed::SeedState;
use rnd::seed::EPOCH_OFFSET_SECS;

use chrono::offset::Utc;
use chrono::DateTime;

#[test]
fn test_epoch_begin() {
    let begin = std::time::UNIX_EPOCH + std::time::Duration::from_secs(EPOCH_OFFSET_SECS);
    let datetime: DateTime<Utc> = begin.into();
    let s = datetime.to_string();
    assert_eq!(s, "2022-01-01 00:00:00 UTC");
    println!("epoch begin: {}", s);
}

#[test]
fn test_nano_time() {
    let fst = nano_time();
    assert!(fst > 518_400_000_000_000);
    println!("fst: {}", fst);
    let snd = nano_time();
    println!("snd: {}", snd);
    assert!(snd >= fst);
}

#[test]
fn test_raw_seed_sequence_distinct() {
    // Sequential seeds from one subsystem state are non-zero and differ
    // from the seed handed out immediately before, even under rapid
    // calls.
    let mut state = SeedState::new();
    let mut previous = 0i64;
    for _ in 0..1000 {
        let seed = raw_seed_with(&mut state);
        assert_ne!(seed, 0);
        assert_ne!(seed, previous);
        previous = seed;
    }
}
