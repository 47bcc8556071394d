use vstd::prelude::*;

verus! {

/// The divisor of the discount rule.
pub const DISCOUNT_MODULUS: i32 = 5;

/// The base that is added to the remainder.
pub const DISCOUNT_BASE: i32 = 5;

/// Remainder of `a` by `m` under truncating division: its sign follows the
/// dividend, as Rust's `%` on signed integers does. (Spec `%` is Euclidean.)
pub open spec fn trunc_rem(a: int, m: int) -> int
    recommends
        m > 0,
{
    if a >= 0 {
        a % m
    } else {
        -((-a) % m)
    }
}

/// The discount for a quantity: its truncating remainder by five, plus five.
pub open spec fn discount_of(quantity: int) -> int {
    trunc_rem(quantity, DISCOUNT_MODULUS as int) + DISCOUNT_BASE as int
}

/// Computes the discount for `quantity`: `quantity % 5 + 5`, where the
/// remainder keeps the sign of `quantity`. Defined for every `i32`.
pub fn compute(quantity: i32) -> (r: i32)
    ensures
        r as int == discount_of(quantity as int),
        1 <= r <= 9,
        quantity >= 0 ==> 5 <= r <= 9,
        quantity <= 0 ==> 1 <= r <= 5,
{
    let remainder: i32 = quantity % DISCOUNT_MODULUS;
    remainder + DISCOUNT_BASE
}

} // verus!
