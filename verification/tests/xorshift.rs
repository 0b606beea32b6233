use parlab::xorshift::Xorshift32;

#[test]
fn next_from_one() {
    let mut g = Xorshift32 { state: 1 };
    assert_eq!(g.next(), 270369);
    assert_eq!(g.state, 270369);
    assert_eq!(g.next(), 67634689);
}

#[test]
fn next_from_particle_seed() {
    let mut g = Xorshift32 { state: 1337 };
    assert_eq!(g.next(), 339970090);
}

#[test]
fn zero_state_stays_zero() {
    let mut g = Xorshift32 { state: 0 };
    assert_eq!(g.next(), 0);
    assert_eq!(g.next(), 0);
}

#[test]
fn nonzero_states_never_reach_zero() {
    let mut g = Xorshift32 { state: 0xFFFF_FFFF };
    for _ in 0..10_000 {
        assert_ne!(g.next(), 0);
    }
}

#[test]
fn copies_advance_independently() {
    let mut a = Xorshift32 { state: 99 };
    let b = a;
    a.next();
    assert_eq!(b.state, 99);
    assert_ne!(a.state, 99);
}
