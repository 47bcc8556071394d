use vstd::prelude::*;

use crate::discount::discount_of;
use crate::user_fetch::fetched_id;

verus! {

/// One call of either entry point: the function and its argument.
pub enum Call {
    Compute(i32),
    Fetch(i32),
}

/// The result that a call returns, as the contracts of `compute` and
/// `fetch` state it.
pub open spec fn result_of(c: Call) -> int {
    match c {
        Call::Compute(q) => discount_of(q as int),
        Call::Fetch(x) => fetched_id(x as int),
    }
}

/// For every `i32` quantity, `i32::MIN` and `-1` included, the discount is
/// five plus a remainder `r` of the quantity by five that keeps the sign of
/// the quantity: `quantity - r` is a multiple of five, `|r| < 5`, and `r` is
/// never negative for a non-negative quantity nor positive for a negative one.
/// The discount thus lies between 1 and 9 and always fits an `i32`.
pub proof fn lemma_discount_total(quantity: i32)
    ensures
        ({
            let r = discount_of(quantity as int) - 5;
            &&& (quantity as int - r) % 5 == 0
            &&& -5 < r < 5
            &&& quantity >= 0 ==> r >= 0
            &&& quantity < 0 ==> r <= 0
        }),
        1 <= discount_of(quantity as int) <= 9,
{
}

/// The stub answers `1001` for every argument.
pub proof fn lemma_fetch_constant(x: i32, y: i32)
    ensures
        fetched_id(x as int) == 1001,
        fetched_id(x as int) == fetched_id(y as int),
{
}

/// Two results that `compute` returns for one quantity are equal, and so are
/// two results that `fetch` returns for one argument.
pub proof fn lemma_deterministic(q: i32, d1: i32, d2: i32, x: i32, f1: i32, f2: i32)
    requires
        d1 as int == discount_of(q as int),
        d2 as int == discount_of(q as int),
        f1 as int == fetched_id(x as int),
        f2 as int == fetched_id(x as int),
    ensures
        d1 == d2,
        f1 == f2,
{
}

/// In any sequence of calls, interleaved as one likes, each call returns what
/// its own function and argument give: two equal calls anywhere in the
/// sequence return equal results, whatever ran before or between them.
pub proof fn lemma_interleaved_calls(calls: Seq<Call>, results: Seq<int>, i: int, j: int)
    requires
        results.len() == calls.len(),
        forall|k: int| 0 <= k < calls.len() ==> #[trigger] results[k] == result_of(calls[k]),
        0 <= i < calls.len(),
        0 <= j < calls.len(),
        calls[i] == calls[j],
    ensures
        results[i] == results[j],
{
}

} // verus!
