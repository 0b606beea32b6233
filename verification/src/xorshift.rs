use vstd::prelude::*;

verus! {

/// One xorshift step on a 32-bit state: shifts by 13 left, 17 right, 5 left.
pub open spec fn xorshift_step(x: u32) -> u32 {
    let x1 = x ^ (x << 13u32);
    let x2 = x1 ^ (x1 >> 17u32);
    x2 ^ (x2 << 5u32)
}

/// The inverse of one xorshift step: undoes the three xor-shifts in reverse
/// order.
pub open spec fn xorshift_unstep(y: u32) -> u32 {
    let y2 = y ^ (y << 5u32) ^ (y << 10u32) ^ (y << 15u32) ^ (y << 20u32) ^ (y << 25u32) ^ (y
        << 30u32);
    let y1 = y2 ^ (y2 >> 17u32);
    y1 ^ (y1 << 13u32) ^ (y1 << 26u32)
}

/// A 32-bit xorshift pseudo-random generator.
#[derive(Clone, Copy)]
pub struct Xorshift32 {
    pub state: u32,
}

impl Xorshift32 {
    /// Advances the state by one xorshift step and returns the new state.
    pub fn next(&mut self) -> (r: u32)
        ensures
            final(self).state == xorshift_step(old(self).state),
            r == final(self).state,
    {
        let mut x = self.state;
        x ^= x << 13u32;
        x ^= x >> 17u32;
        x ^= x << 5u32;
        self.state = x;
        x
    }
}

/// The all-zero state is a fixed point of the generator.
pub proof fn lemma_xorshift_zero_fixed()
    ensures
        xorshift_step(0) == 0,
{
    assert(((0u32 ^ (0u32 << 13u32)) ^ ((0u32 ^ (0u32 << 13u32)) >> 17u32)) ^ (((0u32 ^ (0u32
        << 13u32)) ^ ((0u32 ^ (0u32 << 13u32)) >> 17u32)) << 5u32) == 0u32) by (bit_vector);
}

/// A step undone by `xorshift_unstep` gives back the state it started from,
/// and the other way round: the step is a bijection on 32-bit states.
pub proof fn lemma_xorshift_bijective(x: u32)
    ensures
        xorshift_unstep(xorshift_step(x)) == x,
        xorshift_step(xorshift_unstep(x)) == x,
{
    let x1 = x ^ (x << 13u32);
    let x2 = x1 ^ (x1 >> 17u32);
    let x3 = x2 ^ (x2 << 5u32);
    assert(x3 ^ (x3 << 5u32) ^ (x3 << 10u32) ^ (x3 << 15u32) ^ (x3 << 20u32) ^ (x3 << 25u32) ^ (x3
        << 30u32) == x2) by (bit_vector)
        requires
            x3 == x2 ^ (x2 << 5u32),
    ;
    assert(x2 ^ (x2 >> 17u32) == x1) by (bit_vector)
        requires
            x2 == x1 ^ (x1 >> 17u32),
    ;
    assert(x1 ^ (x1 << 13u32) ^ (x1 << 26u32) == x) by (bit_vector)
        requires
            x1 == x ^ (x << 13u32),
    ;
    let y = x;
    let y2 = y ^ (y << 5u32) ^ (y << 10u32) ^ (y << 15u32) ^ (y << 20u32) ^ (y << 25u32) ^ (y
        << 30u32);
    let y1 = y2 ^ (y2 >> 17u32);
    let y0 = y1 ^ (y1 << 13u32) ^ (y1 << 26u32);
    assert(y0 ^ (y0 << 13u32) == y1) by (bit_vector)
        requires
            y0 == y1 ^ (y1 << 13u32) ^ (y1 << 26u32),
    ;
    assert(y1 ^ (y1 >> 17u32) == y2) by (bit_vector)
        requires
            y1 == y2 ^ (y2 >> 17u32),
    ;
    assert(y2 ^ (y2 << 5u32) == y) by (bit_vector)
        requires
            y2 == y ^ (y << 5u32) ^ (y << 10u32) ^ (y << 15u32) ^ (y << 20u32) ^ (y << 25u32) ^ (y
                << 30u32),
    ;
}

/// Distinct states step to distinct states: generators seeded differently
/// never fall into the same state.
pub proof fn lemma_xorshift_injective(x: u32, y: u32)
    requires
        x != y,
    ensures
        xorshift_step(x) != xorshift_step(y),
{
    lemma_xorshift_bijective(x);
    lemma_xorshift_bijective(y);
}

/// A generator started from a non-zero state never reaches the zero state.
pub proof fn lemma_xorshift_nonzero(x: u32)
    requires
        x != 0,
    ensures
        xorshift_step(x) != 0,
{
    lemma_xorshift_zero_fixed();
    lemma_xorshift_bijective(x);
    lemma_xorshift_bijective(0);
}

} // verus!
