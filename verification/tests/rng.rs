use salmagundi::rng::XorShiftRng;

#[test]
fn from_seed_splits_the_seed_into_words() {
    let seed: u128 = (1u128 << 96) | (2u128 << 64) | (3u128 << 32) | 4u128;
    let rng = XorShiftRng::from_seed(seed);
    assert_eq!(rng.x, 1);
    assert_eq!(rng.y, 2);
    assert_eq!(rng.z, 3);
    assert_eq!(rng.w, 4);
}

#[test]
fn from_seed_zero_uses_the_fallback_state() {
    let rng = XorShiftRng::from_seed(0);
    assert_eq!(rng.x, 0x0BAD5EED);
    assert_eq!(rng.y, 0x0BAD5EED);
    assert_eq!(rng.z, 0x0BAD5EED);
    assert_eq!(rng.w, 0x0BAD5EED);
    assert_ne!(rng, XorShiftRng { x: 0, y: 0, z: 0, w: 0 });
}

#[test]
fn next_u32_follows_the_xorshift_recurrence() {
    let mut rng = XorShiftRng { x: 0, y: 0, z: 0, w: 1 };
    assert_eq!(rng.next_u32(), 1);
    assert_eq!(rng.next_u32(), 1);
    assert_eq!(rng.next_u32(), 1);
    // Now the state is (1, 1, 1, 1): t = 1 ^ (1 << 11) = 2049, and the new
    // last word is 1 ^ (2049 ^ (2049 >> 8)) = 2056.
    assert_eq!(rng.next_u32(), 2056);
}

#[test]
fn next_u64_draws_the_low_half_first() {
    let mut rng = XorShiftRng { x: 0, y: 0, z: 0, w: 1 };
    let v = rng.next_u64();
    assert_eq!(v, (1u64 << 32) | 1u64);
}

#[test]
fn gen_index_stays_below_the_bound() {
    let mut rng = XorShiftRng::from_seed(42);
    for bound in 1..50usize {
        let j = rng.gen_index(bound);
        assert!(j < bound);
    }
}

#[test]
fn gen_index_is_reproducible() {
    let mut a = XorShiftRng::from_seed(7);
    let mut b = XorShiftRng::from_seed(7);
    for _ in 0..100 {
        assert_eq!(a.gen_index(10), b.gen_index(10));
    }
    assert_eq!(a, b);
}

#[test]
fn shuffle_is_a_permutation() {
    let mut rng = XorShiftRng::from_seed(42);
    let mut v: Vec<u32> = (0..20).collect();
    rng.shuffle(&mut v);
    assert_eq!(v.len(), 20);
    let mut sorted = v.clone();
    sorted.sort();
    let expected: Vec<u32> = (0..20).collect();
    assert_eq!(sorted, expected);
}

#[test]
fn shuffle_is_reproducible() {
    let mut rng1 = XorShiftRng::from_seed(42);
    let mut v1: Vec<u32> = (0..20).collect();
    rng1.shuffle(&mut v1);
    let mut rng2 = XorShiftRng::from_seed(42);
    let mut v2: Vec<u32> = (0..20).collect();
    rng2.shuffle(&mut v2);
    assert_eq!(v1, v2);
    assert_eq!(rng1, rng2);
}

#[test]
fn shuffle_moves_something_for_this_seed() {
    let mut rng = XorShiftRng::from_seed(42);
    let mut v: Vec<u32> = (0..20).collect();
    rng.shuffle(&mut v);
    let identity: Vec<u32> = (0..20).collect();
    assert_ne!(v, identity);
}

#[test]
fn shuffle_of_short_vectors_draws_nothing() {
    let mut rng = XorShiftRng::from_seed(5);
    let before = rng;
    let mut empty: Vec<u32> = Vec::new();
    rng.shuffle(&mut empty);
    assert!(empty.is_empty());
    assert_eq!(rng, before);
    let mut single = vec![9u32];
    rng.shuffle(&mut single);
    assert_eq!(single, vec![9u32]);
    assert_eq!(rng, before);
}
