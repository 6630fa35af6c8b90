//! Settings for the corrections applied to the circulation strength and angle of attack, and the
//! choice of end conditions when smoothing values along a wing.

use vstd::prelude::*;

verus! {

/// Correction applied to the angle of attack.
#[derive(PartialEq, Eq, Structural, Clone, Copy, Debug)]
pub enum AngleOfAttackCorrection {
    NoCorrection,
    GaussianSmoothing,
}

impl Default for AngleOfAttackCorrection {
    /// No correction.
    fn default() -> (correction: Self)
        ensures
            correction == AngleOfAttackCorrection::NoCorrection,
    {
        AngleOfAttackCorrection::NoCorrection
    }
}

/// Determines which ends of a wing should have zero circulation.
#[derive(PartialEq, Eq, Structural, Clone, Copy, Debug)]
pub enum EndsWithZeroCirculation {
    Both,
    First,
    Last,
}

impl Default for EndsWithZeroCirculation {
    /// Both ends.
    fn default() -> (ends: Self)
        ensures
            ends == EndsWithZeroCirculation::Both,
    {
        EndsWithZeroCirculation::Both
    }
}

/// The kind of values that a smoothing is applied to.
#[derive(PartialEq, Eq, Structural, Clone, Copy, Debug)]
pub enum ValueTypeToBeSmoothed {
    Circulation,
    AngleOfAttack,
}

/// How the data is padded at an end of a wing before smoothing.
#[derive(PartialEq, Eq, Structural, Clone, Copy, Debug)]
pub enum SmoothingEndCondition {
    /// Padded with zeros.
    Zero,
    /// Padded with the angle of attack at which the wing section gives zero lift.
    ZeroLiftAngle,
    /// Padded with the value at the end.
    Extended,
}

/// The end condition at one end of a wing: the values are extended where the circulation is not
/// zero at that end; otherwise the end is padded with zeros for the circulation, and with the
/// zero-lift angle for the angle of attack.
pub open spec fn end_condition_for(
    non_zero_circulation_at_end: bool,
    value_type_to_be_smoothed: ValueTypeToBeSmoothed,
) -> SmoothingEndCondition {
    if non_zero_circulation_at_end {
        SmoothingEndCondition::Extended
    } else {
        match value_type_to_be_smoothed {
            ValueTypeToBeSmoothed::Circulation => SmoothingEndCondition::Zero,
            ValueTypeToBeSmoothed::AngleOfAttack => SmoothingEndCondition::ZeroLiftAngle,
        }
    }
}

/// Returns the end conditions at the start and at the end of a wing, given whether the
/// circulation is non-zero at each end and the kind of values to be smoothed.
pub fn smoothing_end_conditions(
    non_zero_circulation_at_ends: [bool; 2],
    value_type_to_be_smoothed: ValueTypeToBeSmoothed,
) -> (end_conditions: [SmoothingEndCondition; 2])
    ensures
        end_conditions@[0] == end_condition_for(non_zero_circulation_at_ends@[0], value_type_to_be_smoothed),
        end_conditions@[1] == end_condition_for(non_zero_circulation_at_ends@[1], value_type_to_be_smoothed),
{
    let mut end_conditions = [SmoothingEndCondition::Extended, SmoothingEndCondition::Extended];

    let mut i: usize = 0;
    while i < 2
        invariant
            0 <= i <= 2,
            end_conditions@.len() == 2,
            forall|j: int| 0 <= j < i ==> #[trigger] end_conditions@[j] == end_condition_for(
                non_zero_circulation_at_ends@[j],
                value_type_to_be_smoothed,
            ),
        decreases 2 - i,
    {
        let end_condition = if non_zero_circulation_at_ends[i] {
            SmoothingEndCondition::Extended
        } else {
            match value_type_to_be_smoothed {
                ValueTypeToBeSmoothed::Circulation => SmoothingEndCondition::Zero,
                ValueTypeToBeSmoothed::AngleOfAttack => SmoothingEndCondition::ZeroLiftAngle,
            }
        };
        end_conditions[i] = end_condition;
        i = i + 1;
    }
    end_conditions
}

/// Each end of a wing is decided by its own flag alone: an end with non-zero circulation is
/// extended, and an end with zero circulation is padded with zeros when smoothing the circulation
/// and with the zero-lift angle when smoothing the angle of attack.
pub proof fn lemma_end_condition_of_each_end(
    non_zero_circulation_at_ends: [bool; 2],
    value_type_to_be_smoothed: ValueTypeToBeSmoothed,
    end: int,
    end_conditions: [SmoothingEndCondition; 2],
)
    requires
        0 <= end < 2,
        end_conditions@[0] == end_condition_for(non_zero_circulation_at_ends@[0], value_type_to_be_smoothed),
        end_conditions@[1] == end_condition_for(non_zero_circulation_at_ends@[1], value_type_to_be_smoothed),
    ensures
        non_zero_circulation_at_ends@[end] ==> end_conditions@[end] == SmoothingEndCondition::Extended,
        !non_zero_circulation_at_ends@[end] && value_type_to_be_smoothed == ValueTypeToBeSmoothed::Circulation
            ==> end_conditions@[end] == SmoothingEndCondition::Zero,
        !non_zero_circulation_at_ends@[end] && value_type_to_be_smoothed == ValueTypeToBeSmoothed::AngleOfAttack
            ==> end_conditions@[end] == SmoothingEndCondition::ZeroLiftAngle,
{
}

} // verus!
