use vstd::prelude::*;

verus! {

/// Fractional quantities are counted in thousandths: this many stand for 1.0.
/// What is finer than a thousandth cannot be told apart.
pub const WHOLE: u32 = 1000;

/// `value` held to the range from `low` to `high`.
pub open spec fn clamp(value: int, low: int, high: int) -> int {
    if value < low {
        low
    } else if value > high {
        high
    } else {
        value
    }
}

} // verus!
