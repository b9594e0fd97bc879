use rnd::pseudo_random::Lcg64Xor1024Mix;
use rnd::pseudo_random::PseudoRandom as _;
use rnd::pseudo_random::Stc64;
use rnd::pseudo_random::XoShiRo256StarStar;
use rnd::split_mix64::SplitMix64;
use rnd::split_mix64_seed::seed_with;
use rnd::split_mix64_seed::SeedContext;
use rnd::xor_shift_128plus::XorShift128Plus;

#[test]
fn test_seed_with_sequential_words_distinct() {
    // One context advances a persistent word by the golden ratio on
    // every request, so sequential state words never repeat.
    let mut ctx = SeedContext::new();
    let mut previous = seed_with(&mut ctx);
    for _ in 0..200 {
        let word = seed_with(&mut ctx);
        assert_ne!(word, previous);
        previous = word;
    }
}

#[test]
fn test_context_constructions_not_seeded_identically() {
    // Sequential constructions through one context advance its seed
    // stream, so the instances are not seeded identically.
    let mut ctx = SeedContext::new();
    let mut a = Stc64::new_with(&mut ctx);
    let mut b = Stc64::new_with(&mut ctx);
    assert_ne!(a.next_long(), b.next_long());

    let mut c = XoShiRo256StarStar::new_with(&mut ctx);
    let mut d = XoShiRo256StarStar::new_with(&mut ctx);
    assert_ne!(c.next_long(), d.next_long());

    let mut e = Lcg64Xor1024Mix::new_with(&mut ctx);
    let mut f = Lcg64Xor1024Mix::new_with(&mut ctx);
    assert_ne!(e.next_long(), f.next_long());

    let mut g = XorShift128Plus::new_with(&mut ctx);
    let mut h = XorShift128Plus::new_with(&mut ctx);
    assert_ne!(g.next_long(), h.next_long());

    let mut i = SplitMix64::new_with(&mut ctx);
    let mut j = SplitMix64::new_with(&mut ctx);
    assert_ne!(i.next_long(), j.next_long());
}

#[test]
fn test_default_instances_generate() {
    let mut stc = Stc64::default();
    assert_ne!(stc.next_long(), stc.next_long());
    let mut xo = XoShiRo256StarStar::default();
    assert_ne!(xo.next_long(), xo.next_long());
    let mut lcg = Lcg64Xor1024Mix::default();
    assert_ne!(lcg.next_long(), lcg.next_long());
    let mut sm = SplitMix64::default();
    assert_ne!(sm.next_long(), sm.next_long());
    let mut xs = XorShift128Plus::default();
    assert_ne!(xs.next_long(), xs.next_long());
}

#[test]
fn test_clone_preserves_stream() {
    let mut original = Stc64::new_from(2024);
    let mut copy = original.clone();
    for _ in 0..32 {
        assert_eq!(original.next_long(), copy.next_long());
    }
    let mut lcg = Lcg64Xor1024Mix::new_from(-7);
    let mut lcg_copy = lcg.clone();
    for _ in 0..32 {
        assert_eq!(lcg.next_long(), lcg_copy.next_long());
    }
}
