use vstd::prelude::*;

verus! {

/// What a clamped component becomes.
#[derive(Clone, Copy, Debug, PartialEq, Eq, Structural)]
pub enum ClampPick {
    /// The lower bound's component.
    Min,
    /// The upper bound's component.
    Max,
    /// The component itself.
    Keep,
}

/// Chooses the value of one clamped component from two comparisons:
/// `at_or_below_min` is `x <= min`, `at_or_above_max` is `x >= max`.
/// The lower bound is tested first, so it wins when the range is inverted
/// and both comparisons hold.
pub fn clamp_pick(at_or_below_min: bool, at_or_above_max: bool) -> (r: ClampPick)
    ensures
        at_or_below_min ==> r == ClampPick::Min,
        !at_or_below_min && at_or_above_max ==> r == ClampPick::Max,
        !at_or_below_min && !at_or_above_max ==> r == ClampPick::Keep,
{
    if at_or_below_min {
        ClampPick::Min
    } else if at_or_above_max {
        ClampPick::Max
    } else {
        ClampPick::Keep
    }
}

/// How a vector is normalized.
#[derive(Clone, Copy, Debug, PartialEq, Eq, Structural)]
pub enum NormalizeStep {
    /// The vector is returned as it is: it has length zero.
    Unchanged,
    /// Each component is divided by the vector's length.
    DivideByLength,
}

/// Chooses how to normalize a vector from whether its length is exactly
/// zero. A zero vector stays zero rather than being divided by zero, and a
/// projection onto it is therefore zero.
pub fn normalize_step(length_is_zero: bool) -> (r: NormalizeStep)
    ensures
        length_is_zero <==> r == NormalizeStep::Unchanged,
        !length_is_zero <==> r == NormalizeStep::DivideByLength,
{
    if length_is_zero {
        NormalizeStep::Unchanged
    } else {
        NormalizeStep::DivideByLength
    }
}

/// Where the angle of a random spread comes from.
#[derive(Clone, Copy, Debug, PartialEq, Eq, Structural)]
pub enum SpreadPlan {
    /// A uniform draw from the open interval `(-amount, amount)`.
    Draw,
    /// No turn at all: a zero amount leaves no interval to draw from, and
    /// the vector is rotated by zero.
    Still,
    /// The interval `(-amount, amount)` is empty and the amount is not zero
    /// (it is negative, or not a number): there is no angle to draw.
    Empty,
}

/// Chooses the source of a spread's angle from two comparisons on the
/// amount: `above_zero` is `amount > 0`, `is_zero` is `amount == 0`.
pub fn spread_plan(above_zero: bool, is_zero: bool) -> (r: SpreadPlan)
    requires
        !(above_zero && is_zero),
    ensures
        above_zero <==> r == SpreadPlan::Draw,
        is_zero <==> r == SpreadPlan::Still,
        !above_zero && !is_zero <==> r == SpreadPlan::Empty,
{
    if above_zero {
        SpreadPlan::Draw
    } else if is_zero {
        SpreadPlan::Still
    } else {
        SpreadPlan::Empty
    }
}

} // verus!
