use parlab::bank::{
    draw_accounts, draw_transfer, lock_order, opening_balances, total_balance, transfer, Prng,
};

#[test]
fn new_keeps_the_seed() {
    assert_eq!(Prng::new(42).state, 42);
}

#[test]
fn next_range_steps_the_lcg() {
    let mut p = Prng::new(42);
    assert_eq!(p.next_range(7), 3);
    assert_eq!(p.state, 10481999410520546993);
}

#[test]
fn next_range_one_is_always_zero() {
    let mut p = Prng::new(12345);
    for _ in 0..100 {
        assert_eq!(p.next_range(1), 0);
    }
}

#[test]
fn opening_balances_from_seed_42() {
    let mut p = Prng::new(42);
    let b = opening_balances(&mut p, 3);
    assert_eq!(b, vec![769, 153, 177]);
    assert_eq!(p.state, 7615522811268512075);
}

#[test]
fn opening_balances_lie_between_100_and_1099() {
    let mut p = Prng::new(42);
    let b = opening_balances(&mut p, 200);
    assert_eq!(b.len(), 200);
    assert!(b.iter().all(|&v| (100..1100).contains(&v)));
}

#[test]
fn total_of_balances() {
    assert_eq!(total_balance(&vec![769, 153, 177]), 1099);
    assert_eq!(total_balance(&vec![]), 0);
    assert_eq!(total_balance(&vec![-5, 5]), 0);
}

#[test]
fn transfer_moves_money_when_covered() {
    let (mut a, mut b) = (100, 20);
    assert!(transfer(&mut a, &mut b, 30));
    assert_eq!((a, b), (70, 50));
}

#[test]
fn transfer_of_exact_balance_empties_the_payer() {
    let (mut a, mut b) = (30, 0);
    assert!(transfer(&mut a, &mut b, 30));
    assert_eq!((a, b), (0, 30));
}

#[test]
fn transfer_refused_when_short() {
    let (mut a, mut b) = (10, 20);
    assert!(!transfer(&mut a, &mut b, 11));
    assert_eq!((a, b), (10, 20));
}

#[test]
fn transfers_conserve_the_total() {
    let mut p = Prng::new(42);
    let mut balances = opening_balances(&mut p, 20);
    let before = total_balance(&balances);
    let mut r = Prng::new(9999);
    for _ in 0..1000 {
        let from = r.next_range(20);
        let mut to = r.next_range(20);
        while from == to {
            to = r.next_range(20);
        }
        let amount = (r.next_range(50) + 1) as i32;
        let (lo, hi) = lock_order(from, to);
        let (left, right) = balances.split_at_mut(hi);
        let (first, second) = (&mut left[lo], &mut right[0]);
        if from < to {
            transfer(first, second, amount);
        } else {
            transfer(second, first, amount);
        }
    }
    assert_eq!(total_balance(&balances), before);
    assert!(balances.iter().all(|&v| v >= 0));
}

#[test]
fn lock_order_is_the_same_both_ways() {
    assert_eq!(lock_order(7, 3), (3, 7));
    assert_eq!(lock_order(3, 7), (3, 7));
    assert_eq!(lock_order(4, 4), (4, 4));
}

#[test]
fn draw_transfer_from_seed_42() {
    let mut p = Prng::new(42);
    assert_eq!(draw_transfer(&mut p, 7), Some((3, 5, 28)));
    assert_eq!(p.state, 7615522811268512075);
}

#[test]
fn draw_transfer_redraws_the_payee_until_it_differs() {
    let mut p = Prng::new(42);
    assert_eq!(draw_transfer(&mut p, 2), Some((1, 0, 14)));
    assert_eq!(p.state, 483838003013946848);
}

#[test]
fn draw_accounts_from_seed_777_redraws_once() {
    let mut p = Prng::new(777);
    assert_eq!(draw_accounts(&mut p, 2), Some((0, 1)));
    let mut q = Prng::new(777);
    q.next_range(2);
    q.next_range(2);
    q.next_range(2);
    assert_eq!(p.state, q.state);
}

#[test]
fn drawn_accounts_are_distinct_and_in_range() {
    let mut p = Prng::new(9999);
    for _ in 0..1000 {
        let (from, to, amount) = draw_transfer(&mut p, 200).unwrap();
        assert!(from < 200 && to < 200 && from != to);
        assert!((1..=50).contains(&amount));
    }
}

#[test]
fn a_run_of_transfers_keeps_the_total() {
    let mut p = Prng::new(42);
    let mut balances = opening_balances(&mut p, 10);
    let before = total_balance(&balances);
    let mut q = Prng::new(7);
    for _ in 0..500 {
        let (from, to, amount) = draw_transfer(&mut q, 10).unwrap();
        let (mut a, mut b) = (balances[from], balances[to]);
        transfer(&mut a, &mut b, amount);
        balances[from] = a;
        balances[to] = b;
        assert!(balances.iter().all(|&v| v >= 0));
    }
    assert_eq!(total_balance(&balances), before);
}
