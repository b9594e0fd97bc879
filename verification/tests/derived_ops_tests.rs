use rnd::pseudo_random::Lcg64Xor1024Mix;
use rnd::pseudo_random::PseudoRandom as _;
use rnd::pseudo_random::PseudoRandomOps as _;
use rnd::pseudo_random::Stc64;
use rnd::pseudo_random::XoShiRo256StarStar;

#[test]
fn test_next_int_is_high_half() {
    let mut a = Stc64::new_from(77);
    let mut b = Stc64::new_from(77);
    for _ in 0..32 {
        let long = a.next_long();
        let int = b.next_int();
        assert_eq!(int, ((long as u64 >> 32) as u32) as i32);
    }
}

#[test]
fn test_next_bool_is_sign_bit() {
    let mut a = XoShiRo256StarStar::new_from(9);
    let mut b = XoShiRo256StarStar::new_from(9);
    for _ in 0..32 {
        let long = a.next_long();
        let flag = b.next_bool();
        assert_eq!(flag, long < 0);
    }
}

#[test]
fn test_next_long_up_to_in_range() {
    let mut prng = Stc64::new_from(1234);
    for n in [1i64, 2, 3, 7, 10, 1000, 1 << 32, i64::MAX] {
        for _ in 0..64 {
            let v = prng.next_long_up_to(n);
            assert!(0 <= v && v < n);
        }
    }
}

#[test]
fn test_next_long_up_to_power_of_two_masks() {
    for n in [1i64, 2, 8, 1024, 1 << 40, 1 << 62] {
        let mut bounded = Stc64::new_from(555);
        let mut raw = Stc64::new_from(555);
        for _ in 0..16 {
            let v = bounded.next_long_up_to(n);
            let x = raw.next_long();
            assert_eq!(v, x & (n - 1));
        }
    }
}

#[test]
fn test_next_int_up_to_in_range() {
    let mut prng = Lcg64Xor1024Mix::new_from(42);
    for n in [1i32, 2, 6, 100, i32::MAX] {
        for _ in 0..32 {
            let v = prng.next_int_up_to(n);
            assert!(0 <= v && v < n);
        }
    }
}

#[test]
fn test_next_long_from_interval_in_range() {
    let mut prng = XoShiRo256StarStar::new_from(31);
    for (min, max) in [(-10i64, 10i64), (0, 0), (5, 6), (-1000000, -999990), (i64::MIN / 4, i64::MAX / 4)] {
        for _ in 0..32 {
            let v = prng.next_long_from_interval(min, max);
            assert!(min <= v && v <= max);
        }
    }
}

#[test]
fn test_next_int_from_interval_in_range() {
    let mut prng = Stc64::new_from(8);
    for (min, max) in [(-3i32, 3i32), (7, 7), (i32::MIN, i32::MAX), (100, 101)] {
        for _ in 0..32 {
            let v = prng.next_int_from_interval(min, max);
            assert!(min <= v && v <= max);
        }
    }
}

#[test]
fn test_next_bytes_decomposes_words() {
    let mut filler = Stc64::new_from(99);
    let mut raw = Stc64::new_from(99);
    let mut bytes = vec![0u8; 13];
    filler.next_bytes(&mut bytes);
    assert_eq!(bytes.len(), 13);
    let w0 = raw.next_long() as u64;
    let w1 = raw.next_long() as u64;
    for i in 0..8 {
        assert_eq!(bytes[i], (w0 >> (8 * i)) as u8);
    }
    for i in 8..13 {
        assert_eq!(bytes[i], (w1 >> (8 * (i - 8))) as u8);
    }
}

#[test]
fn test_next_longs_matches_next_long() {
    let mut filler = Lcg64Xor1024Mix::new_from(64);
    let mut raw = Lcg64Xor1024Mix::new_from(64);
    let mut longs = vec![0i64; 20];
    filler.next_longs(&mut longs);
    for i in 0..20 {
        assert_eq!(longs[i], raw.next_long());
    }
}
