//! Values at the span points of a line force model, obtained from values at its control points.
//!
//! Each wing with `n` span lines has `n` control points (one per line) and `n + 1` span points
//! (the ends of the lines). The value at an inner span point is the mean of the values at the two
//! control points beside it; the value at an end point is either copied from the nearest control
//! point or extrapolated from the two nearest ones.

use std::ops::Range;
use vstd::prelude::*;

use crate::line_force_model::wing_indices::{
    lemma_contiguous_lines_before, lemma_nr_lines_before_monotone, nr_lines, nr_lines_before, range_contains, range_len,
    wings_are_contiguous,
};

verus! {

/// Where the value at one span point comes from.
#[derive(PartialEq, Eq, Structural, Clone, Copy, Debug)]
pub enum SpanPointSource {
    /// The value at the given control point.
    Copied(usize),
    /// The mean of the values at the two given control points.
    Averaged(usize, usize),
    /// The value at the first given control point, extended past it by its difference to the
    /// value at the second one: `value[first] + (value[first] - value[second])`.
    Extrapolated(usize, usize),
}

/// Source of the first span point of a wing.
pub open spec fn first_span_point_source(wing: Range<usize>, extrapolate_ends: bool) -> SpanPointSource {
    if extrapolate_ends {
        SpanPointSource::Extrapolated(wing.start, (wing.start + 1) as usize)
    } else {
        SpanPointSource::Copied(wing.start)
    }
}

/// Source of the span point at the far end of the span line `line_index` of a wing.
pub open spec fn line_end_span_point_source(
    wing: Range<usize>,
    line_index: int,
    extrapolate_ends: bool,
) -> SpanPointSource {
    if line_index == wing.end - 1 {
        if extrapolate_ends {
            SpanPointSource::Extrapolated(line_index as usize, (line_index - 1) as usize)
        } else {
            SpanPointSource::Copied(line_index as usize)
        }
    } else {
        SpanPointSource::Averaged(line_index as usize, (line_index + 1) as usize)
    }
}

/// Sources of all span points of one wing: the first point, then the far end of each line.
pub open spec fn wing_span_point_sources(wing: Range<usize>, extrapolate_ends: bool) -> Seq<SpanPointSource> {
    seq![first_span_point_source(wing, extrapolate_ends)] + Seq::new(
        range_len(wing) as nat,
        |j: int| line_end_span_point_source(wing, wing.start + j, extrapolate_ends),
    )
}

/// Sources of the span points of the first `nr_wings` wings, wing after wing.
pub open spec fn span_point_sources(
    wing_indices: Seq<Range<usize>>,
    extrapolate_ends: bool,
    nr_wings: int,
) -> Seq<SpanPointSource>
    decreases nr_wings,
{
    if nr_wings <= 0 {
        seq![]
    } else {
        span_point_sources(wing_indices, extrapolate_ends, nr_wings - 1) + wing_span_point_sources(
            wing_indices[nr_wings - 1],
            extrapolate_ends,
        )
    }
}

/// Every control point that the sources of a wing read lies below `nr_ctrl_points`, and no index
/// computation of them runs below zero.
pub open spec fn wing_reads_are_in_bounds(wing: Range<usize>, nr_ctrl_points: int, extrapolate_ends: bool) -> bool {
    &&& wing.start < nr_ctrl_points
    &&& extrapolate_ends ==> wing.start + 1 < nr_ctrl_points
    &&& wing.start < wing.end ==> wing.end <= nr_ctrl_points
    &&& (extrapolate_ends && wing.start < wing.end) ==> wing.end >= 2
}

/// The control point indices named by a source.
pub open spec fn source_reads_below(source: SpanPointSource, nr_ctrl_points: int) -> bool {
    match source {
        SpanPointSource::Copied(i) => i < nr_ctrl_points,
        SpanPointSource::Averaged(i, j) => i < nr_ctrl_points && j < nr_ctrl_points,
        SpanPointSource::Extrapolated(i, j) => i < nr_ctrl_points && j < nr_ctrl_points,
    }
}

/// Returns, for each span point of the line force model in order, where its value comes from, given
/// the values at the `nr_ctrl_points` control points.
///
/// For each wing: the first span point copies the first control point value, or with
/// `extrapolate_ends` extrapolates it from the first two; each inner span point takes the mean of
/// the two control points beside it; the last span point copies the last control point value, or
/// extrapolates it from the last two.
pub fn span_point_value_sources(
    wing_indices: &[Range<usize>],
    nr_ctrl_points: usize,
    extrapolate_ends: bool,
) -> (sources: Vec<SpanPointSource>)
    requires
        forall|k: int|
            0 <= k < wing_indices@.len() ==> wing_reads_are_in_bounds(
                #[trigger] wing_indices@[k],
                nr_ctrl_points as int,
                extrapolate_ends,
            ),
        nr_lines_before(wing_indices@, wing_indices@.len() as int) + wing_indices@.len() <= usize::MAX,
    ensures
        sources@ == span_point_sources(wing_indices@, extrapolate_ends, wing_indices@.len() as int),
        forall|p: int| 0 <= p < sources@.len() ==> source_reads_below(#[trigger] sources@[p], nr_ctrl_points as int),
{
    let mut sources: Vec<SpanPointSource> = Vec::new();
    let mut wing_index: usize = 0;
    while wing_index < wing_indices.len()
        invariant
            0 <= wing_index <= wing_indices@.len(),
            forall|k: int|
                0 <= k < wing_indices@.len() ==> wing_reads_are_in_bounds(
                    #[trigger] wing_indices@[k],
                    nr_ctrl_points as int,
                    extrapolate_ends,
                ),
            nr_lines_before(wing_indices@, wing_indices@.len() as int) + wing_indices@.len() <= usize::MAX,
            sources@ == span_point_sources(wing_indices@, extrapolate_ends, wing_index as int),
            sources@.len() == nr_lines_before(wing_indices@, wing_index as int) + wing_index,
            forall|p: int| 0 <= p < sources@.len() ==> source_reads_below(#[trigger] sources@[p], nr_ctrl_points as int),
        decreases wing_indices.len() - wing_index,
    {
        let wing = Range { start: wing_indices[wing_index].start, end: wing_indices[wing_index].end };
        let ghost prefix = sources@;
        let ghost wing_sources = wing_span_point_sources(wing, extrapolate_ends);
        assert(wing_reads_are_in_bounds(wing_indices@[wing_index as int], nr_ctrl_points as int, extrapolate_ends));
        proof {
            lemma_nr_lines_before_monotone(wing_indices@, wing_index as int + 1, wing_indices@.len() as int);
        }
        let first_index = wing.start;
        if extrapolate_ends {
            sources.push(SpanPointSource::Extrapolated(first_index, first_index + 1));
        } else {
            sources.push(SpanPointSource::Copied(first_index));
        }
        let mut i: usize = wing.start;
        while i < wing.end
            invariant
                wing == wing_indices@[wing_index as int],
                wing_index < wing_indices@.len(),
                wing_reads_are_in_bounds(wing, nr_ctrl_points as int, extrapolate_ends),
                wing_sources == wing_span_point_sources(wing, extrapolate_ends),
                wing.start <= i,
                wing.start <= wing.end ==> i <= wing.end,
                wing.start > wing.end ==> i == wing.start,
                sources@ == prefix + wing_sources.take(1 + (i - wing.start)),
                nr_lines_before(wing_indices@, wing_index as int + 1) + wing_index + 1 <= usize::MAX,
                prefix.len() == nr_lines_before(wing_indices@, wing_index as int) + wing_index,
                forall|p: int| 0 <= p < sources@.len() ==> source_reads_below(#[trigger] sources@[p], nr_ctrl_points as int),
            decreases wing.end - i,
        {
            let last_index = wing.end - 1;
            let source = if i == last_index {
                if extrapolate_ends {
                    SpanPointSource::Extrapolated(last_index, last_index - 1)
                } else {
                    SpanPointSource::Copied(last_index)
                }
            } else {
                SpanPointSource::Averaged(i, i + 1)
            };
            proof {
                assert(source == wing_sources[1 + (i - wing.start)]);
                assert(wing_sources.take(1 + (i - wing.start) + 1) == wing_sources.take(1 + (i - wing.start)).push(source));
            }
            sources.push(source);
            i = i + 1;
        }
        proof {
            assert(wing_sources.take(1 + (i - wing.start)) == wing_sources);
            assert(sources@ == span_point_sources(wing_indices@, extrapolate_ends, wing_index as int + 1));
        }
        wing_index = wing_index + 1;
    }
    sources
}

/// The first `nr_wings` wings have one span point more than they have span lines.
pub proof fn lemma_span_point_sources_len(
    wing_indices: Seq<Range<usize>>,
    extrapolate_ends: bool,
    nr_wings: int,
)
    requires
        0 <= nr_wings <= wing_indices.len(),
    ensures
        span_point_sources(wing_indices, extrapolate_ends, nr_wings).len() == nr_lines_before(
            wing_indices,
            nr_wings,
        ) + nr_wings,
    decreases nr_wings,
{
    if nr_wings > 0 {
        lemma_span_point_sources_len(wing_indices, extrapolate_ends, nr_wings - 1);
    }
}

/// Adding wings leaves the span points of the earlier wings where they were.
pub proof fn lemma_span_point_sources_prefix(
    wing_indices: Seq<Range<usize>>,
    extrapolate_ends: bool,
    a: int,
    b: int,
    position: int,
)
    requires
        0 <= a <= b <= wing_indices.len(),
        0 <= position < span_point_sources(wing_indices, extrapolate_ends, a).len(),
    ensures
        span_point_sources(wing_indices, extrapolate_ends, b)[position] == span_point_sources(
            wing_indices,
            extrapolate_ends,
            a,
        )[position],
    decreases b - a,
{
    if a < b {
        lemma_span_point_sources_prefix(wing_indices, extrapolate_ends, a, b - 1, position);
        lemma_span_point_sources_len(wing_indices, extrapolate_ends, a);
        lemma_span_point_sources_len(wing_indices, extrapolate_ends, b - 1);
        lemma_nr_lines_before_monotone(wing_indices, a, b - 1);
    }
}

/// In a contiguous layout the model has `nr_lines + nr_wings` span points, and span line `i` of
/// wing `k` runs from span point `i + k` to span point `i + k + 1`: the point `i + k + 1` is the
/// far end of line `i`, and the point `i + k` is the first point of the wing when `i` is its first
/// line, or else the far end of line `i - 1`. These are the points that the wake takes as the
/// corners of the panel behind line `i`.
pub proof fn lemma_span_points_of_a_line(
    wing_indices: Seq<Range<usize>>,
    extrapolate_ends: bool,
    wing_index: int,
    line_index: int,
)
    requires
        wings_are_contiguous(wing_indices),
        0 <= wing_index < wing_indices.len(),
        range_contains(wing_indices[wing_index], line_index),
    ensures
        ({
            let sources = span_point_sources(wing_indices, extrapolate_ends, wing_indices.len() as int);
            &&& sources.len() == nr_lines(wing_indices) + wing_indices.len()
            &&& sources[line_index + wing_index + 1] == line_end_span_point_source(
                wing_indices[wing_index],
                line_index,
                extrapolate_ends,
            )
            &&& line_index == wing_indices[wing_index].start ==> sources[line_index + wing_index]
                == first_span_point_source(wing_indices[wing_index], extrapolate_ends)
            &&& line_index > wing_indices[wing_index].start ==> sources[line_index + wing_index]
                == line_end_span_point_source(wing_indices[wing_index], line_index - 1, extrapolate_ends)
        }),
{
    let n = wing_indices.len() as int;
    let k = wing_index;
    let wing = wing_indices[k];
    lemma_span_point_sources_len(wing_indices, extrapolate_ends, n);
    lemma_span_point_sources_len(wing_indices, extrapolate_ends, k);
    lemma_span_point_sources_len(wing_indices, extrapolate_ends, k + 1);
    lemma_contiguous_lines_before(wing_indices, n);
    lemma_contiguous_lines_before(wing_indices, k);
    let before = span_point_sources(wing_indices, extrapolate_ends, k);
    let upto = span_point_sources(wing_indices, extrapolate_ends, k + 1);
    let own = wing_span_point_sources(wing, extrapolate_ends);
    assert(upto == before + own);
    assert(before.len() == wing.start + k);
    let p_end = line_index + k + 1;
    let p_start = line_index + k;
    assert(upto[p_end] == own[p_end - before.len()]);
    assert(own[p_end - before.len()] == line_end_span_point_source(wing, line_index, extrapolate_ends));
    lemma_span_point_sources_prefix(wing_indices, extrapolate_ends, k + 1, n, p_end);
    lemma_span_point_sources_prefix(wing_indices, extrapolate_ends, k + 1, n, p_start);
    assert(upto[p_start] == own[p_start - before.len()]);
    if line_index > wing.start {
        assert(own[p_start - before.len()] == line_end_span_point_source(wing, line_index - 1, extrapolate_ends));
    }
}

/// Where each span point of a contiguous layout takes its value from, for span line `i` of wing
/// `k`: the span point at the far end of the line, at position `i + k + 1`, is the mean of control
/// points `i` and `i + 1` when the line is not the last of its wing, and otherwise the last
/// control point `i`, copied or extrapolated away from `i - 1`. When the line is the first of its
/// wing, the span point at its near end, at position `i + k`, is control point `i`, copied or
/// extrapolated away from `i + 1`.
pub proof fn lemma_span_point_sources_at_each_line(
    wing_indices: Seq<Range<usize>>,
    extrapolate_ends: bool,
    wing_index: int,
    line_index: int,
)
    requires
        wings_are_contiguous(wing_indices),
        0 <= wing_index < wing_indices.len(),
        range_contains(wing_indices[wing_index], line_index),
    ensures
        ({
            let sources = span_point_sources(wing_indices, extrapolate_ends, wing_indices.len() as int);
            let wing = wing_indices[wing_index];
            &&& sources.len() == nr_lines(wing_indices) + wing_indices.len()
            &&& line_index + 1 < wing.end ==> sources[line_index + wing_index + 1] == SpanPointSource::Averaged(
                line_index as usize,
                (line_index + 1) as usize,
            )
            &&& line_index + 1 == wing.end && !extrapolate_ends ==> sources[line_index + wing_index + 1]
                == SpanPointSource::Copied(line_index as usize)
            &&& line_index + 1 == wing.end && extrapolate_ends ==> sources[line_index + wing_index + 1]
                == SpanPointSource::Extrapolated(line_index as usize, (line_index - 1) as usize)
            &&& line_index == wing.start && !extrapolate_ends ==> sources[line_index + wing_index]
                == SpanPointSource::Copied(line_index as usize)
            &&& line_index == wing.start && extrapolate_ends ==> sources[line_index + wing_index]
                == SpanPointSource::Extrapolated(line_index as usize, (line_index + 1) as usize)
        }),
{
    lemma_span_points_of_a_line(wing_indices, extrapolate_ends, wing_index, line_index);
}

} // verus!
