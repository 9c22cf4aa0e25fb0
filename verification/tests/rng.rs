use rusty_dasher::rng::{XorShift, SCRAMBLE, SEED};

fn reference(mut x: u64) -> (u64, u32) {
    x ^= x >> 12;
    x ^= x << 25;
    x ^= x >> 27;
    (x, (x.wrapping_mul(0x2545F4914F6CDD1D) >> 32) as u32)
}

#[test]
fn generator_matches_xorshift64() {
    let mut g = XorShift::new();
    assert_eq!(g.state, 0xC0FFEE_BAD5EED_u64 | 1);
    assert_eq!(SEED, 0xC0FFEEBAD5EED);
    assert_eq!(SCRAMBLE, 0x2545F4914F6CDD1D);
    let mut x = g.state;
    for _ in 0..1000 {
        let (nx, out) = reference(x);
        let got = g.next_u32();
        assert_eq!(got, out);
        assert_eq!(g.state, nx);
        assert_ne!(g.state, 0);
        x = nx;
    }
}

#[test]
fn outputs_vary() {
    let mut g = XorShift::new();
    let a = g.next_u32();
    let b = g.next_u32();
    assert_ne!(a, b);
    let mut one = XorShift { state: 1 };
    one.next_u32();
    assert_ne!(one.state, 1);
    assert_ne!(one.state, 0);
}
