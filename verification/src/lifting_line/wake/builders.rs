//! Building a wake behind a line force model, and listing its panels for export.

use std::ops::Range;
use vstd::prelude::*;
use vstd::arithmetic::div_mod::lemma_fundamental_div_mod_converse;

use crate::lifting_line::wake::dynamic_wake::Wake;
use crate::lifting_line::wake::indices::{WakeIndices, lemma_panel_indices_cover_the_panels};
use crate::line_force_model::wing_indices::{nr_lines, wings_are_contiguous};

verus! {

impl<Point: Copy, Strength: Copy, Panel: Clone> Wake<Point, Strength, Panel> {
    /// Builds a wake behind the wings with the given ranges of span lines, with
    /// `nr_panels_per_line_element` panels behind each span line.
    ///
    /// Every row of points starts at the span points of the wings, every point has the velocity
    /// `initial_velocity`, every panel starts with
    /// `initial_strength` and with a clone of `initial_panel`, and no time step has been
    /// completed.
    pub fn new(
        wing_indices: Vec<Range<usize>>,
        span_points: &[Point],
        nr_panels_per_line_element: usize,
        initial_velocity: Point,
        initial_strength: Strength,
        initial_panel: Panel,
    ) -> (wake: Self)
        requires
            wings_are_contiguous(wing_indices@),
            span_points@.len() == nr_lines(wing_indices@) + wing_indices@.len(),
            nr_panels_per_line_element < usize::MAX,
            span_points@.len() * (nr_panels_per_line_element + 1) <= usize::MAX,
        ensures
            wake.well_formed(),
            wake.indices.nr_points_along_span == span_points@.len(),
            wake.indices.nr_panels_along_span == nr_lines(wing_indices@),
            wake.indices.nr_panels_per_line_element == nr_panels_per_line_element,
            wake.indices.nr_points_per_line_element == nr_panels_per_line_element + 1,
            forall|f: int|
                0 <= f < wake.points@.len() ==> #[trigger] wake.points@[f] == span_points@[f % (span_points@.len() as int)],
            forall|f: int| 0 <= f < wake.velocity_at_points@.len() ==> #[trigger] wake.velocity_at_points@[f] == initial_velocity,
            forall|f: int| 0 <= f < wake.strengths@.len() ==> #[trigger] wake.strengths@[f] == initial_strength,
            forall|f: int| 0 <= f < wake.panels@.len() ==> cloned(initial_panel, #[trigger] wake.panels@[f]),
            wake.wing_indices == wing_indices,
            wake.number_of_time_steps_completed == 0,
    {
        let nr_span_lines: usize = if wing_indices.len() == 0 {
            0
        } else {
            wing_indices[wing_indices.len() - 1].end
        };
        let indices = WakeIndices::new(nr_span_lines, span_points.len(), nr_panels_per_line_element);
        let ghost along = span_points@.len() as int;
        let ghost per_line = nr_panels_per_line_element + 1;
        proof {
            assert(nr_span_lines * nr_panels_per_line_element <= along * per_line) by (nonlinear_arith)
                requires
                    nr_span_lines <= along,
                    nr_panels_per_line_element < per_line,
                    0 <= nr_span_lines,
                    0 <= nr_panels_per_line_element,
            ;
        }
        let nr_points = indices.nr_points();
        let nr_panels = indices.nr_panels();

        let mut points: Vec<Point> = Vec::new();
        let mut i_stream: usize = 0;
        while i_stream < indices.nr_points_per_line_element
            invariant
                indices.nr_points_along_span == span_points@.len(),
                along == span_points@.len(),
                per_line == indices.nr_points_per_line_element,
                nr_points == indices.nr_points_spec(),
                0 <= i_stream <= per_line,
                points@.len() == i_stream * along,
                i_stream * along <= nr_points,
                forall|f: int| 0 <= f < points@.len() ==> #[trigger] points@[f] == span_points@[f % along],
            decreases per_line - i_stream,
        {
            proof {
                assert((i_stream + 1) * along == i_stream * along + along) by (nonlinear_arith);
                assert((i_stream + 1) * along <= nr_points) by (nonlinear_arith)
                    requires
                        i_stream + 1 <= per_line,
                        nr_points == along * per_line,
                        0 <= along,
                ;
            }
            let mut i_span: usize = 0;
            while i_span < span_points.len()
                invariant
                    along == span_points@.len(),
                    0 <= i_span <= along,
                    0 <= i_stream,
                    points@.len() == i_stream * along + i_span,
                    forall|f: int| 0 <= f < points@.len() ==> #[trigger] points@[f] == span_points@[f % along],
                decreases along - i_span,
            {
                proof {
                    lemma_fundamental_div_mod_converse(i_stream * along + i_span, along, i_stream as int, i_span as int);
                }
                points.push(span_points[i_span]);
                i_span = i_span + 1;
            }
            i_stream = i_stream + 1;
        }
        proof {
            assert(points@.len() == nr_points) by (nonlinear_arith)
                requires
                    points@.len() == i_stream * along,
                    i_stream == per_line,
                    nr_points == along * per_line,
            ;
        }

        let mut velocity_at_points: Vec<Point> = Vec::new();
        let mut j: usize = 0;
        while j < nr_points
            invariant
                0 <= j <= nr_points,
                velocity_at_points@.len() == j,
                forall|f: int| 0 <= f < velocity_at_points@.len() ==> #[trigger] velocity_at_points@[f] == initial_velocity,
            decreases nr_points - j,
        {
            velocity_at_points.push(initial_velocity);
            j = j + 1;
        }

        let mut strengths: Vec<Strength> = Vec::new();
        let mut panels: Vec<Panel> = Vec::new();
        let mut i: usize = 0;
        while i < nr_panels
            invariant
                0 <= i <= nr_panels,
                strengths@.len() == i,
                panels@.len() == i,
                forall|f: int| 0 <= f < strengths@.len() ==> #[trigger] strengths@[f] == initial_strength,
                forall|f: int| 0 <= f < panels@.len() ==> cloned(initial_panel, #[trigger] panels@[f]),
            decreases nr_panels - i,
        {
            strengths.push(initial_strength);
            let panel = initial_panel.clone();
            panels.push(panel);
            i = i + 1;
        }

        Wake {
            indices,
            points,
            velocity_at_points,
            strengths,
            panels,
            wing_indices,
            number_of_time_steps_completed: 0,
        }
    }
}

impl<Point, Strength, Panel> Wake<Point, Strength, Panel> {
    /// Returns the indices of the corner points of every panel, in flat panel order, as used when
    /// the wake geometry is exported.
    pub fn panel_point_indices_of_all_panels(&self) -> (all_indices: Vec<[usize; 4]>)
        requires
            self.well_formed(),
        ensures
            all_indices@.len() == self.indices.nr_panels_spec(),
            forall|f: int, corner: int|
                0 <= f < all_indices@.len() && 0 <= corner < 4 ==> #[trigger] all_indices@[f]@[corner]
                    == self.corner_point_index(
                    f / (self.indices.nr_panels_along_span as int),
                    f % (self.indices.nr_panels_along_span as int),
                    corner,
                ),
    {
        let nr_panels = self.indices.nr_panels();
        let mut all_indices: Vec<[usize; 4]> = Vec::new();
        let mut panel_index: usize = 0;
        while panel_index < nr_panels
            invariant
                self.well_formed(),
                nr_panels == self.indices.nr_panels_spec(),
                0 <= panel_index <= nr_panels,
                all_indices@.len() == panel_index,
                forall|f: int, corner: int|
                    0 <= f < all_indices@.len() && 0 <= corner < 4 ==> #[trigger] all_indices@[f]@[corner]
                        == self.corner_point_index(
                        f / (self.indices.nr_panels_along_span as int),
                        f % (self.indices.nr_panels_along_span as int),
                        corner,
                    ),
            decreases nr_panels - panel_index,
        {
            proof {
                lemma_panel_indices_cover_the_panels(self.indices, 0, 0, panel_index as int);
            }
            let (stream_index, span_index) = self.indices.reverse_panel_index(panel_index);
            let point_indices = self.panel_point_indices(stream_index, span_index);
            all_indices.push(point_indices);
            panel_index = panel_index + 1;
        }
        all_indices
    }
}

} // verus!
