use vstd::prelude::*;

verus! {

/// `x` raised to at least `lo`, then lowered to at most `hi`.
pub open spec fn clamp(x: int, lo: int, hi: int) -> int {
    let raised = if x < lo { lo } else { x };
    if raised > hi { hi } else { raised }
}

/// Limits `input` to the range `[min_value, max_value]`.
pub fn limit_u8(input: u8, min_value: u8, max_value: u8) -> (r: u8)
    ensures
        r == clamp(input as int, min_value as int, max_value as int),
{
    let raised: u8 = if input < min_value { min_value } else { input };
    if raised > max_value { max_value } else { raised }
}

/// Clamping into a non-empty range `[lo, hi]` always lands inside it, and
/// leaves a value that is already inside untouched.
pub proof fn lemma_clamp_in_range(x: int, lo: int, hi: int)
    requires
        lo <= hi,
    ensures
        lo <= clamp(x, lo, hi) <= hi,
        lo <= x <= hi ==> clamp(x, lo, hi) == x,
{
}

} // verus!
