use vstd::prelude::*;
use vstd::wrapping::u64_specs;

verus! {

/// One step of the linear congruential generator: multiply by
/// 6364136223846793005 and add 1442695040888963407, modulo 2^64.
#[verifier::opaque]
pub open spec fn lcg_step(state: u64) -> u64 {
    u64_specs::wrapping_add(u64_specs::wrapping_mul(state, 6364136223846793005u64), 1442695040888963407u64)
}

/// The generator state after `n` steps from `state`.
pub open spec fn lcg_iter(state: u64, n: nat) -> u64
    decreases n,
{
    if n == 0 {
        state
    } else {
        lcg_step(lcg_iter(state, (n - 1) as nat))
    }
}

/// The number a state yields for a bound `max`: its upper 32 bits modulo
/// `max`.
pub open spec fn lcg_draw(state: u64, max: nat) -> nat {
    ((state >> 32u64) as nat) % max
}

/// A pseudo-random generator for the bank simulation.
pub struct Prng {
    pub state: u64,
}

impl Prng {
    /// A generator whose state is the seed.
    pub fn new(seed: u64) -> (r: Self)
        ensures
            r.state == seed,
    {
        Self { state: seed }
    }

    /// Advances the generator one step and returns a number below `max`
    /// drawn from the new state.
    pub fn next_range(&mut self, max: usize) -> (r: usize)
        requires
            max > 0,
        ensures
            final(self).state == lcg_step(old(self).state),
            r == lcg_draw(final(self).state, max as nat),
            r < max,
    {
        proof {
            reveal(lcg_step);
        }
        self.state = self.state.wrapping_mul(6364136223846793005u64).wrapping_add(
            1442695040888963407u64,
        );
        let state = self.state;
        let high = state >> 32u64;
        assert(high < 0x1_0000_0000u64) by (bit_vector)
            requires
                high == state >> 32u64,
        ;
        (high as usize) % max
    }
}

proof fn lemma_iter_next(s: u64, n: nat)
    ensures
        lcg_iter(s, n + 1) == lcg_step(lcg_iter(s, n)),
{
}

/// The payer's index drawn for `n` accounts from a generator in state `s`:
/// the draw after one step.
pub open spec fn first_draw(s: u64, n: nat) -> nat {
    lcg_draw(lcg_iter(s, 1), n)
}

/// The `j`-th draw of a payee's index (`j` from 1): the draw after `1 + j`
/// steps.
pub open spec fn redraw(s: u64, n: nat, j: nat) -> nat {
    lcg_draw(lcg_iter(s, 1 + j), n)
}

/// Whether the `j`-th payee draw is the first one that differs from the
/// payer.
pub open spec fn first_distinct(s: u64, n: nat, j: nat) -> bool {
    &&& 1 <= j
    &&& redraw(s, n, j) != first_draw(s, n)
    &&& forall|i: nat| 1 <= i < j ==> #[trigger] redraw(s, n, i) == first_draw(s, n)
}

/// Whether the first `tries` payee draws all equal the payer.
pub open spec fn all_equal_payer(s: u64, n: nat, tries: nat) -> bool {
    forall|i: nat| 1 <= i <= tries ==> #[trigger] redraw(s, n, i) == first_draw(s, n)
}

/// Draws the two accounts of a transfer among `n`: a payer, then payees
/// until one differs from the payer. The redrawing gives up with `None`
/// after `u64::MAX` payee draws that all equal the payer: nothing here shows
/// that the generator always draws a different payee sooner, and the bound
/// only makes the loop finite (at a draw a nanosecond, reaching it would take
/// centuries).
pub fn draw_accounts(prng: &mut Prng, n: usize) -> (r: Option<(usize, usize)>)
    requires
        n >= 2,
    ensures
        r is None <==> all_equal_payer(old(prng).state, n as nat, u64::MAX as nat),
        r is None ==> final(prng).state == lcg_iter(old(prng).state, (1 + u64::MAX) as nat),
        r matches Some((from, to)) ==> {
            &&& from == first_draw(old(prng).state, n as nat)
            &&& from < n && to < n && from != to
            &&& exists|j: nat|
                j <= u64::MAX && #[trigger] first_distinct(old(prng).state, n as nat, j) && to
                    == redraw(old(prng).state, n as nat, j) && final(prng).state == lcg_iter(
                    old(prng).state,
                    1 + j,
                )
        },
{
    let ghost s = prng.state;
    let from = prng.next_range(n);
    proof {
        lemma_iter_next(s, 0);
    }
    let mut tries: u64 = 0;
    while tries < u64::MAX
        invariant
            n >= 2,
            s == old(prng).state,
            from == first_draw(s, n as nat),
            from < n,
            prng.state == lcg_iter(s, 1 + tries as nat),
            all_equal_payer(s, n as nat, tries as nat),
        decreases u64::MAX - tries,
    {
        let to = prng.next_range(n);
        proof {
            lemma_iter_next(s, 1 + tries as nat);
        }
        tries = tries + 1;
        if to != from {
            assert(first_distinct(s, n as nat, tries as nat));
            return Some((from, to));
        }
        assert(redraw(s, n as nat, tries as nat) == first_draw(s, n as nat));
    }
    None
}

/// Draws a transfer among `n` accounts: the payer and payee of
/// `draw_accounts`, then an amount from 1 to 50 drawn after them; `None`
/// where `draw_accounts` gives up.
pub fn draw_transfer(prng: &mut Prng, n: usize) -> (r: Option<(usize, usize, i32)>)
    requires
        n >= 2,
    ensures
        r is None <==> all_equal_payer(old(prng).state, n as nat, u64::MAX as nat),
        r matches Some((from, to, amount)) ==> {
            &&& from == first_draw(old(prng).state, n as nat)
            &&& from < n && to < n && from != to
            &&& 1 <= amount <= 50
            &&& exists|j: nat|
                j <= u64::MAX && #[trigger] first_distinct(old(prng).state, n as nat, j) && to
                    == redraw(old(prng).state, n as nat, j) && amount == lcg_draw(
                    lcg_iter(old(prng).state, 2 + j),
                    50,
                ) + 1 && final(prng).state == lcg_iter(old(prng).state, 2 + j)
        },
{
    let ghost s = prng.state;
    match draw_accounts(prng, n) {
        None => None,
        Some((from, to)) => {
            let ghost j = choose|j: nat|
                j <= u64::MAX && #[trigger] first_distinct(s, n as nat, j) && to == redraw(
                    s,
                    n as nat,
                    j,
                ) && prng.state == lcg_iter(s, 1 + j);
            let d = prng.next_range(50);
            proof {
                lemma_iter_next(s, 1 + j);
            }
            Some((from, to, (d + 1) as i32))
        },
    }
}

/// The opening balance drawn for an account from a generator state: 100 plus
/// a number below 1000.
pub open spec fn opening_balance(state: u64) -> int {
    lcg_draw(state, 1000) + 100int
}

/// The opening balances of `num_accounts` accounts: account `i` gets the
/// balance drawn from the generator after `i + 1` steps.
pub fn opening_balances(prng: &mut Prng, num_accounts: usize) -> (r: Vec<i32>)
    ensures
        r@.len() == num_accounts,
        forall|i: int|
            0 <= i < num_accounts ==> r@[i] == opening_balance(
                lcg_iter(old(prng).state, (i + 1) as nat),
            ),
        final(prng).state == lcg_iter(old(prng).state, num_accounts as nat),
{
    let ghost start = prng.state;
    let mut r: Vec<i32> = Vec::new();
    let mut i: usize = 0;
    while i < num_accounts
        invariant
            i <= num_accounts,
            r@.len() == i,
            prng.state == lcg_iter(start, i as nat),
            forall|k: int|
                0 <= k < i ==> r@[k] == opening_balance(lcg_iter(start, (k + 1) as nat)),
        decreases num_accounts - i,
    {
        let d = prng.next_range(1000);
        r.push((d + 100) as i32);
        i = i + 1;
    }
    r
}

/// The sum of the first `n` balances.
pub open spec fn sum_prefix(balances: Seq<i32>, n: int) -> int
    decreases n,
{
    if n <= 0 {
        0
    } else {
        sum_prefix(balances, n - 1) + balances[n - 1]
    }
}

/// The total of all balances.
pub open spec fn total(balances: Seq<i32>) -> int {
    sum_prefix(balances, balances.len() as int)
}

/// Whether every running sum of the balances fits a 32-bit signed integer,
/// so that adding them up in order does not overflow.
pub open spec fn sums_fit(balances: Seq<i32>) -> bool {
    forall|n: int| 0 <= n <= balances.len() ==> i32::MIN <= #[trigger] sum_prefix(balances, n) <= i32::MAX
}

/// The total money held by the accounts.
pub fn total_balance(balances: &Vec<i32>) -> (r: i32)
    requires
        sums_fit(balances@),
    ensures
        r == total(balances@),
{
    let mut sum: i32 = 0;
    let mut i: usize = 0;
    while i < balances.len()
        invariant
            i <= balances.len(),
            sums_fit(balances@),
            sum == sum_prefix(balances@, i as int),
        decreases balances.len() - i,
    {
        assert(i32::MIN <= sum_prefix(balances@, i + 1) <= i32::MAX);
        sum = sum + balances[i];
        i = i + 1;
    }
    sum
}

/// The lock order of two accounts: the lower index first.
pub open spec fn lock_pair(a: usize, b: usize) -> (usize, usize) {
    if a <= b {
        (a, b)
    } else {
        (b, a)
    }
}

/// The order in which the two accounts of a transfer are locked: the lower
/// index first.
pub fn lock_order(from: usize, to: usize) -> (r: (usize, usize))
    ensures
        r == lock_pair(from, to),
{
    if from <= to {
        (from, to)
    } else {
        (to, from)
    }
}

/// The two balances after a transfer of `amount`: moved when the payer holds
/// at least that much, unchanged otherwise.
pub open spec fn transfer_result(from_balance: int, to_balance: int, amount: int) -> (int, int) {
    if from_balance >= amount {
        (from_balance - amount, to_balance + amount)
    } else {
        (from_balance, to_balance)
    }
}

/// Moves `amount` from one balance to the other when the first holds at
/// least that much; says whether it did.
pub fn transfer(from_balance: &mut i32, to_balance: &mut i32, amount: i32) -> (moved: bool)
    requires
        *old(from_balance) >= amount ==> i32::MIN <= *old(from_balance) - amount <= i32::MAX
            && i32::MIN <= *old(to_balance) + amount <= i32::MAX,
    ensures
        moved == (*old(from_balance) >= amount),
        (*final(from_balance) as int, *final(to_balance) as int) == transfer_result(
            *old(from_balance) as int,
            *old(to_balance) as int,
            amount as int,
        ),
{
    if *from_balance >= amount {
        *from_balance = *from_balance - amount;
        *to_balance = *to_balance + amount;
        true
    } else {
        false
    }
}

/// Both threads of a transfer lock the same account first, whichever way the
/// money goes: the lock order of two accounts does not depend on which one
/// pays.
pub proof fn lemma_lock_order_symmetric(a: usize, b: usize)
    ensures
        lock_pair(a, b) == lock_pair(b, a),
        lock_pair(a, b).0 <= lock_pair(a, b).1,
{
}

/// A transfer keeps the sum of the two balances it touches.
pub proof fn lemma_transfer_conserves_pair(from_balance: int, to_balance: int, amount: int)
    ensures
        transfer_result(from_balance, to_balance, amount).0 + transfer_result(
            from_balance,
            to_balance,
            amount,
        ).1 == from_balance + to_balance,
{
}

/// A transfer of a non-negative amount between non-negative balances leaves
/// both non-negative: no account is overdrawn.
pub proof fn lemma_transfer_never_overdraws(from_balance: int, to_balance: int, amount: int)
    requires
        from_balance >= 0,
        to_balance >= 0,
        amount >= 0,
    ensures
        transfer_result(from_balance, to_balance, amount).0 >= 0,
        transfer_result(from_balance, to_balance, amount).1 >= 0,
{
}

proof fn lemma_sum_prefix_update(b: Seq<i32>, i: int, v: i32, n: int)
    requires
        0 <= i < b.len(),
        0 <= n <= b.len(),
    ensures
        sum_prefix(b.update(i, v), n) == sum_prefix(b, n) + (if i < n {
            v - b[i]
        } else {
            0
        }),
    decreases n,
{
    if n > 0 {
        lemma_sum_prefix_update(b, i, v, n - 1);
    }
}

/// Replacing the balances of two distinct accounts by a transfer's result
/// leaves the bank's total unchanged: money is neither made nor lost.
pub proof fn lemma_transfer_conserves_total(balances: Seq<i32>, from: int, to: int, amount: i32)
    requires
        0 <= from < balances.len(),
        0 <= to < balances.len(),
        from != to,
        i32::MIN <= transfer_result(balances[from] as int, balances[to] as int, amount as int).0
            <= i32::MAX,
        i32::MIN <= transfer_result(balances[from] as int, balances[to] as int, amount as int).1
            <= i32::MAX,
    ensures
        ({
            let r = transfer_result(balances[from] as int, balances[to] as int, amount as int);
            total(balances.update(from, r.0 as i32).update(to, r.1 as i32)) == total(balances)
        }),
{
    let r = transfer_result(balances[from] as int, balances[to] as int, amount as int);
    let b1 = balances.update(from, r.0 as i32);
    lemma_sum_prefix_update(balances, from, r.0 as i32, balances.len() as int);
    lemma_sum_prefix_update(b1, to, r.1 as i32, b1.len() as int);
}

/// The balances after a transfer `(from, to, amount)`: the two balances it
/// touches replaced by the transfer's result.
pub open spec fn apply_transfer(balances: Seq<i32>, t: (int, int, i32)) -> Seq<i32> {
    let r = transfer_result(balances[t.0] as int, balances[t.1] as int, t.2 as int);
    balances.update(t.0, r.0 as i32).update(t.1, r.1 as i32)
}

/// Whether a transfer can be made on these balances: between two distinct
/// accounts among them, with both new balances fitting an `i32`.
pub open spec fn transfer_fits(balances: Seq<i32>, t: (int, int, i32)) -> bool {
    let r = transfer_result(balances[t.0] as int, balances[t.1] as int, t.2 as int);
    &&& 0 <= t.0 < balances.len()
    &&& 0 <= t.1 < balances.len()
    &&& t.0 != t.1
    &&& i32::MIN <= r.0 <= i32::MAX
    &&& i32::MIN <= r.1 <= i32::MAX
}

/// The balances after a run of transfers made one after the other.
pub open spec fn apply_transfers(balances: Seq<i32>, ts: Seq<(int, int, i32)>) -> Seq<i32>
    decreases ts.len(),
{
    if ts.len() == 0 {
        balances
    } else {
        apply_transfer(apply_transfers(balances, ts.drop_last()), ts.last())
    }
}

/// Whether each transfer of a run can be made on the balances the earlier
/// ones left.
pub open spec fn transfers_fit(balances: Seq<i32>, ts: Seq<(int, int, i32)>) -> bool
    decreases ts.len(),
{
    ts.len() == 0 || (transfers_fit(balances, ts.drop_last()) && transfer_fits(
        apply_transfers(balances, ts.drop_last()),
        ts.last(),
    ))
}

/// A whole run of transfers, as the locked threads make them one at a time,
/// keeps the number of accounts and the bank's total: money is neither made
/// nor lost however many transfers are made.
pub proof fn lemma_transfers_conserve_total(balances: Seq<i32>, ts: Seq<(int, int, i32)>)
    requires
        transfers_fit(balances, ts),
    ensures
        apply_transfers(balances, ts).len() == balances.len(),
        total(apply_transfers(balances, ts)) == total(balances),
    decreases ts.len(),
{
    if ts.len() > 0 {
        lemma_transfers_conserve_total(balances, ts.drop_last());
        let b = apply_transfers(balances, ts.drop_last());
        let t = ts.last();
        lemma_transfer_conserves_total(b, t.0, t.1, t.2);
    }
}

/// A run of transfers of non-negative amounts between non-negative balances
/// leaves every balance non-negative: no account is ever overdrawn.
pub proof fn lemma_transfers_never_overdraw(balances: Seq<i32>, ts: Seq<(int, int, i32)>)
    requires
        transfers_fit(balances, ts),
        forall|i: int| 0 <= i < balances.len() ==> balances[i] >= 0,
        forall|k: int| 0 <= k < ts.len() ==> (#[trigger] ts[k]).2 >= 0,
    ensures
        forall|i: int|
            0 <= i < apply_transfers(balances, ts).len() ==> apply_transfers(balances, ts)[i] >= 0,
    decreases ts.len(),
{
    if ts.len() > 0 {
        assert forall|k: int| 0 <= k < ts.drop_last().len() implies (#[trigger] ts.drop_last()[k]).2
            >= 0 by {
            assert(ts.drop_last()[k] == ts[k]);
        }
        lemma_transfers_never_overdraw(balances, ts.drop_last());
        lemma_transfers_conserve_total(balances, ts.drop_last());
        let b = apply_transfers(balances, ts.drop_last());
        let t = ts.last();
        assert(t == ts[ts.len() - 1]);
        lemma_transfer_never_overdraws(b[t.0] as int, b[t.1] as int, t.2 as int);
    }
}

} // verus!
