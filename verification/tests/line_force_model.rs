use std::ops::Range;

use stormbird::line_force_model::corrections::{
    smoothing_end_conditions, AngleOfAttackCorrection, EndsWithZeroCirculation,
    SmoothingEndCondition, ValueTypeToBeSmoothed,
};
use stormbird::line_force_model::solver_utils::ConvergenceCounter;
use stormbird::line_force_model::span_points::{span_point_value_sources, SpanPointSource};
use stormbird::line_force_model::wing_indices::{
    local_index_from_global, next_wing_range, section_values_from_wing_values,
    wing_index_from_global,
};

fn two_wings() -> Vec<Range<usize>> {
    vec![0..3, 3..5]
}

fn apply_sources(sources: &[SpanPointSource], values: &[f64]) -> Vec<f64> {
    sources
        .iter()
        .map(|source| match *source {
            SpanPointSource::Copied(i) => values[i],
            SpanPointSource::Averaged(i, j) => (values[i] + values[j]) * 0.5,
            SpanPointSource::Extrapolated(i, j) => values[i] + (values[i] - values[j]),
        })
        .collect()
}

#[test]
fn wing_index_of_each_line() {
    let wings = two_wings();
    let expected = [0, 0, 0, 1, 1];
    for (global_index, wing) in expected.iter().enumerate() {
        assert_eq!(wing_index_from_global(&wings, global_index), *wing);
    }
}

#[test]
fn wing_index_takes_first_matching_wing() {
    let overlapping = vec![0..4, 2..6];
    assert_eq!(wing_index_from_global(&overlapping, 3), 0);
    assert_eq!(wing_index_from_global(&overlapping, 5), 1);
}

#[test]
fn local_index_restarts_at_each_wing() {
    let wings = two_wings();
    let expected = [0, 1, 2, 0, 1];
    for (global_index, local) in expected.iter().enumerate() {
        let local_index = local_index_from_global(&wings, global_index);
        assert_eq!(local_index, *local);
        let wing = wing_index_from_global(&wings, global_index);
        assert_eq!(wings[wing].start + local_index, global_index);
    }
}

#[test]
fn adding_wings_one_by_one_gives_contiguous_ranges() {
    let mut wings: Vec<Range<usize>> = Vec::new();
    for nr_lines in [3usize, 0, 2] {
        let range = next_wing_range(&wings, nr_lines);
        wings.push(range);
    }
    assert_eq!(wings, vec![0..3, 3..3, 3..5]);
}

#[test]
fn section_values_repeat_the_wing_value() {
    let wings = two_wings();
    let values = section_values_from_wing_values(&wings, &[1.5, -2.0]);
    assert_eq!(values, vec![1.5, 1.5, 1.5, -2.0, -2.0]);
}

#[test]
fn section_values_of_strings_are_clones() {
    let wings = vec![0..1, 1..3];
    let values = section_values_from_wing_values(&wings, &["a".to_string(), "b".to_string()]);
    assert_eq!(values, vec!["a".to_string(), "b".to_string(), "b".to_string()]);
}

#[test]
fn span_point_sources_without_extrapolation() {
    let wings = two_wings();
    let sources = span_point_value_sources(&wings, 5, false);
    assert_eq!(
        sources,
        vec![
            SpanPointSource::Copied(0),
            SpanPointSource::Averaged(0, 1),
            SpanPointSource::Averaged(1, 2),
            SpanPointSource::Copied(2),
            SpanPointSource::Copied(3),
            SpanPointSource::Averaged(3, 4),
            SpanPointSource::Copied(4),
        ]
    );
    let values = apply_sources(&sources, &[1.0, 2.0, 4.0, 10.0, 20.0]);
    assert_eq!(values, vec![1.0, 1.5, 3.0, 4.0, 10.0, 15.0, 20.0]);
}

#[test]
fn span_point_sources_with_extrapolation() {
    let wings = two_wings();
    let sources = span_point_value_sources(&wings, 5, true);
    assert_eq!(sources[0], SpanPointSource::Extrapolated(0, 1));
    assert_eq!(sources[3], SpanPointSource::Extrapolated(2, 1));
    assert_eq!(sources[4], SpanPointSource::Extrapolated(3, 4));
    assert_eq!(sources[6], SpanPointSource::Extrapolated(4, 3));
    let values = apply_sources(&sources, &[1.0, 2.0, 4.0, 10.0, 20.0]);
    assert_eq!(values, vec![0.0, 1.5, 3.0, 6.0, 0.0, 15.0, 30.0]);
}

#[test]
fn span_points_are_lines_plus_wings() {
    let wings = vec![0..4, 4..6, 6..9];
    let sources = span_point_value_sources(&wings, 9, false);
    assert_eq!(sources.len(), 9 + 3);
    // Line 4 is the first line of wing 1: its span points are 4 + 1 and 4 + 1 + 1.
    assert_eq!(sources[5], SpanPointSource::Copied(4));
    assert_eq!(sources[6], SpanPointSource::Averaged(4, 5));
}

#[test]
fn end_conditions_for_circulation() {
    assert_eq!(
        smoothing_end_conditions([false, true], ValueTypeToBeSmoothed::Circulation),
        [SmoothingEndCondition::Zero, SmoothingEndCondition::Extended]
    );
}

#[test]
fn end_conditions_for_angle_of_attack() {
    assert_eq!(
        smoothing_end_conditions([false, false], ValueTypeToBeSmoothed::AngleOfAttack),
        [SmoothingEndCondition::ZeroLiftAngle, SmoothingEndCondition::ZeroLiftAngle]
    );
    assert_eq!(
        smoothing_end_conditions([true, true], ValueTypeToBeSmoothed::AngleOfAttack),
        [SmoothingEndCondition::Extended, SmoothingEndCondition::Extended]
    );
}

#[test]
fn defaults_of_correction_settings() {
    assert_eq!(AngleOfAttackCorrection::default(), AngleOfAttackCorrection::NoCorrection);
    assert_eq!(EndsWithZeroCirculation::default(), EndsWithZeroCirculation::Both);
}

#[test]
fn convergence_needs_enough_small_errors_in_a_row() {
    let allowed_error = 1e-6;
    let errors = [1e-7, 1e-7, 1e-3, 1e-8, 1e-8, 1e-8];
    let mut counter = ConvergenceCounter::new(3);
    let results: Vec<bool> = errors
        .iter()
        .map(|error| counter.test(*error < allowed_error))
        .collect();
    assert_eq!(results, vec![false, false, false, false, false, true]);
    assert_eq!(counter.number_of_sucesses, 3);
}

#[test]
fn convergence_with_zero_minimum_only_needs_a_small_error() {
    let mut counter = ConvergenceCounter::new(0);
    assert!(!counter.test(false));
    assert!(counter.test(true));
}
