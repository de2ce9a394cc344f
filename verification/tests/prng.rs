use jord::prng::Prng;

#[test]
fn xorshift_sequence() {
    let mut p = Prng::new(1);
    assert_eq!(270369, p.next_u32());
    assert_eq!(67634689, p.next_u32());
    assert_eq!(2647435461, p.next_u32());
}

#[test]
fn zero_seed_is_replaced() {
    let mut p = Prng::new(0);
    let mut q = Prng::new(0x9E37_79B9);
    assert_eq!(1359758873, p.next_u32());
    assert_eq!(q.next_u32(), Prng::new(0).next_u32());
}

#[test]
fn never_zero() {
    let mut p = Prng::new(0);
    for _ in 0..10_000 {
        assert_ne!(0, p.next_u32());
    }
}

#[test]
fn shuffle_exact_order() {
    let mut p = Prng::new(42);
    let mut v = vec![1, 2, 3, 4, 5];
    p.shuffle(&mut v);
    assert_eq!(vec![2, 5, 4, 1, 3], v);
    assert_eq!(xorshift_after(3648046016), p.next_u32());
}

fn xorshift_after(x: u32) -> u32 {
    let mut x = x;
    x ^= x << 13;
    x ^= x >> 17;
    x ^= x << 5;
    x
}

#[test]
fn shuffle_zero_seed() {
    let mut p = Prng::new(0);
    let mut v: Vec<u32> = (0..10).collect();
    p.shuffle(&mut v);
    assert_eq!(vec![6, 7, 4, 0, 5, 1, 8, 2, 9, 3], v);
}

#[test]
fn shuffle_is_permutation_and_deterministic() {
    let mut a: Vec<u32> = (0..100).map(|i| i % 7).collect();
    let mut b = a.clone();
    let mut sorted = a.clone();
    Prng::new(7).shuffle(&mut a);
    Prng::new(7).shuffle(&mut b);
    assert_eq!(a, b);
    let mut s = a.clone();
    s.sort();
    sorted.sort();
    assert_eq!(sorted, s);
}

#[test]
fn shuffle_seeded_by_length() {
    let seed = (5u32).wrapping_mul(0x85EB_CA6B);
    let mut v = vec!['a', 'b', 'c', 'd', 'e'];
    Prng::new(seed).shuffle(&mut v);
    assert_eq!(vec!['a', 'c', 'e', 'd', 'b'], v);
}

#[test]
fn shuffle_short_slices_unchanged() {
    let mut p = Prng::new(3);
    let mut e: Vec<u8> = vec![];
    p.shuffle(&mut e);
    assert!(e.is_empty());
    let mut one = vec![9];
    p.shuffle(&mut one);
    assert_eq!(vec![9], one);
    assert_eq!(xorshift_after(3), p.next_u32());
}
