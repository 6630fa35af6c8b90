//! Updates of the values stored per point or per panel of the wake.

use vstd::prelude::*;

use crate::lifting_line::wake::dynamic_wake::Wake;
use crate::lifting_line::wake::indices::{
    WakeIndices, lemma_panel_indices_cover_the_panels, lemma_point_indices_cover_the_points,
};

verus! {

/// The values after shifting them one row downstream: every panel after the first row takes the
/// value that the panel in front of it held, and the first row keeps its values. In flat indices,
/// the panel at `f` in a later row takes the value at `f - nr_panels_along_span`.
pub open spec fn shifted_downstream<T>(indices: WakeIndices, values: Seq<T>) -> Seq<T> {
    let along = indices.nr_panels_along_span as int;
    Seq::new(
        values.len(),
        |f: int|
            if along <= f < indices.nr_panels_spec() {
                values[f - along]
            } else {
                values[f]
            },
    )
}

/// The values with the first entries replaced by `new_values`.
pub open spec fn with_leading_values<T>(values: Seq<T>, new_values: Seq<T>) -> Seq<T> {
    new_values + values.skip(new_values.len() as int)
}

/// Shifts values stored per panel downstream: the value of each panel is replaced by the value of
/// the panel in front of it in the stream-wise direction, starting from the last row so that every
/// panel takes the value from before the shift. The first row keeps its values.
pub fn shift_values_downstream<T: Copy>(indices: &WakeIndices, values: &mut Vec<T>)
    requires
        indices.nr_panels_spec() <= old(values)@.len(),
    ensures
        final(values)@ == shifted_downstream(*indices, old(values)@),
{
    let ghost old_values = values@;
    let nr_values = values.len();
    let ghost along = indices.nr_panels_along_span as int;
    let ghost nr_panels = indices.nr_panels_spec();
    let nr_streams = indices.nr_panels_per_line_element;
    let mut i_stream: usize = nr_streams;
    proof {
        assert(nr_streams * along == nr_panels) by (nonlinear_arith)
            requires nr_panels == along * nr_streams;
    }
    while i_stream > 1
        invariant
            i_stream <= nr_streams,
            nr_streams == indices.nr_panels_per_line_element,
            along == indices.nr_panels_along_span,
            nr_panels == indices.nr_panels_spec(),
            nr_streams * along == nr_panels,
            nr_panels <= old_values.len(),
            old_values.len() == nr_values,
            values@.len() == old_values.len(),
            forall|f: int|
                0 <= f < values@.len() ==> #[trigger] values@[f] == if i_stream * along <= f < nr_panels
                    && along <= f {
                    old_values[f - along]
                } else {
                    old_values[f]
                },
        decreases i_stream,
    {
        i_stream = i_stream - 1;
        let ghost row_start = i_stream * along;
        proof {
            assert(row_start + along == (i_stream + 1) * along) by (nonlinear_arith)
                requires row_start == i_stream * along;
            assert((i_stream - 1) * along == row_start - along) by (nonlinear_arith)
                requires row_start == i_stream * along;
            assert((i_stream + 1) * along <= nr_panels) by (nonlinear_arith)
                requires i_stream + 1 <= nr_streams, nr_streams * along == nr_panels, 0 <= along;
            assert(along <= row_start) by (nonlinear_arith)
                requires row_start == i_stream * along, i_stream >= 1, 0 <= along;
        }
        let mut i_span: usize = 0;
        while i_span < indices.nr_panels_along_span
            invariant
                1 <= i_stream < nr_streams,
                nr_streams == indices.nr_panels_per_line_element,
                along == indices.nr_panels_along_span,
                nr_panels == indices.nr_panels_spec(),
                nr_panels <= old_values.len(),
                old_values.len() == nr_values,
                row_start == i_stream * along,
                row_start + along == (i_stream + 1) * along,
                (i_stream - 1) * along == row_start - along,
                (i_stream + 1) * along <= nr_panels,
                along <= row_start,
                0 <= i_span <= along,
                values@.len() == old_values.len(),
                forall|f: int|
                    0 <= f < values@.len() ==> #[trigger] values@[f] == if ((i_stream + 1) * along <= f < nr_panels
                        && along <= f) || (row_start <= f < row_start + i_span) {
                        old_values[f - along]
                    } else {
                        old_values[f]
                    },
            decreases along - i_span,
        {
            assert(indices.panel_index_spec(i_stream as int, i_span as int) == row_start + i_span);
            assert(indices.panel_index_spec(i_stream - 1, i_span as int) == row_start - along + i_span);
            let current_index = indices.panel_index(i_stream, i_span);
            let previous_index = indices.panel_index(i_stream - 1, i_span);
            let previous_value = values[previous_index];
            values[current_index] = previous_value;
            i_span = i_span + 1;
        }
    }
    proof {
        if i_stream == 1 {
            assert(i_stream * along == along);
        } else {
            assert(i_stream == 0);
            assert(i_stream * along == 0);
        }
        assert(values@ =~= shifted_downstream(*indices, old_values));
    }
}

/// Replaces the first values with `new_values`, keeping the others.
pub fn set_leading_values<T: Copy>(values: &mut Vec<T>, new_values: &[T])
    requires
        new_values@.len() <= old(values)@.len(),
    ensures
        final(values)@ == with_leading_values(old(values)@, new_values@),
{
    let ghost old_values = values@;
    let mut i: usize = 0;
    while i < new_values.len()
        invariant
            new_values@.len() <= old_values.len(),
            values@.len() == old_values.len(),
            0 <= i <= new_values@.len(),
            forall|f: int| 0 <= f < i ==> #[trigger] values@[f] == new_values@[f],
            forall|f: int| i <= f < values@.len() ==> #[trigger] values@[f] == old_values[f],
        decreases new_values.len() - i,
    {
        values[i] = new_values[i];
        i = i + 1;
    }
    proof {
        assert(values@ =~= with_leading_values(old_values, new_values@));
    }
}

/// After a completed time step the strengths are shifted one row downstream and the first row
/// takes the new circulation strength of the wings. Then the panel in row `s > 0` holds the
/// strength that the panel in front of it held before the step, and the panel in the first row
/// holds the new strength of its span line.
pub proof fn lemma_strength_after_time_step<T>(
    indices: WakeIndices,
    old_strengths: Seq<T>,
    new_circulation_strength: Seq<T>,
    stream_index: int,
    span_index: int,
)
    requires
        old_strengths.len() == indices.nr_panels_spec(),
        new_circulation_strength.len() == indices.nr_panels_along_span,
        0 <= stream_index < indices.nr_panels_per_line_element,
        0 <= span_index < indices.nr_panels_along_span,
    ensures
        ({
            let updated = with_leading_values(shifted_downstream(indices, old_strengths), new_circulation_strength);
            &&& updated.len() == old_strengths.len()
            &&& stream_index == 0 ==> updated[indices.panel_index_spec(stream_index, span_index)]
                == new_circulation_strength[span_index]
            &&& stream_index > 0 ==> updated[indices.panel_index_spec(stream_index, span_index)]
                == old_strengths[indices.panel_index_spec(stream_index - 1, span_index)]
        }),
{
    let along = indices.nr_panels_along_span as int;
    let f = indices.panel_index_spec(stream_index, span_index);
    lemma_panel_indices_cover_the_panels(indices, stream_index, span_index, 0);
    let per_line = indices.nr_panels_per_line_element as int;
    assert(along <= along * per_line) by (nonlinear_arith)
        requires
            per_line >= 1,
            along >= 0,
    ;
    let shifted = shifted_downstream(indices, old_strengths);
    let updated = with_leading_values(shifted, new_circulation_strength);
    assert(updated.len() == old_strengths.len());
    if stream_index == 0 {
        assert(f == span_index) by (nonlinear_arith)
            requires
                f == stream_index * along + span_index,
                stream_index == 0,
        ;
        assert(updated[f] == new_circulation_strength[f]);
    }
    if stream_index > 0 {
        assert(f - along == (stream_index - 1) * along + span_index) by (nonlinear_arith)
            requires
                f == stream_index * along + span_index,
        ;
        assert(along <= f) by (nonlinear_arith)
            requires
                f == stream_index * along + span_index,
                stream_index >= 1,
                span_index >= 0,
                along >= 0,
        ;
        assert(updated[f] == shifted[f]);
    }
}

impl<Point: Copy, Strength: Copy, Panel> Wake<Point, Strength, Panel> {
    /// `after` holds the same data as `self` but for its points.
    pub open spec fn keeps_all_but_points(self, after: Self) -> bool {
        &&& after.indices == self.indices
        &&& after.velocity_at_points == self.velocity_at_points
        &&& after.strengths == self.strengths
        &&& after.panels == self.panels
        &&& after.wing_indices == self.wing_indices
        &&& after.number_of_time_steps_completed == self.number_of_time_steps_completed
    }

    /// `after` is `self` with the strengths shifted one row downstream.
    pub open spec fn strengths_streamed(self, after: Self) -> bool {
        &&& after.strengths@ == shifted_downstream(self.indices, self.strengths@)
        &&& after.indices == self.indices
        &&& after.points == self.points
        &&& after.velocity_at_points == self.velocity_at_points
        &&& after.panels == self.panels
        &&& after.wing_indices == self.wing_indices
        &&& after.number_of_time_steps_completed == self.number_of_time_steps_completed
    }

    /// `after` is `self` with every panel rebuilt by `new_panel` from its corner points and its
    /// flat index.
    pub open spec fn panels_rebuilt<F: Fn([Point; 4], usize) -> Panel>(self, after: Self, new_panel: &F) -> bool {
        &&& after.panels@.len() == self.panels@.len()
        &&& forall|f: usize|
            f < after.panels@.len() ==> self.is_built_panel(new_panel, f, #[trigger] after.panels@[f as int])
        &&& after.indices == self.indices
        &&& after.points == self.points
        &&& after.velocity_at_points == self.velocity_at_points
        &&& after.strengths == self.strengths
        &&& after.wing_indices == self.wing_indices
        &&& after.number_of_time_steps_completed == self.number_of_time_steps_completed
    }

    /// `after` is `self` with the first row of points moved onto `span_points`.
    pub open spec fn first_points_synchronized(self, after: Self, span_points: Seq<Point>) -> bool {
        &&& after.points@ == with_leading_values(self.points@, span_points)
        &&& self.keeps_all_but_points(after)
    }

    /// `after` is `self` with the points from the third row on streamed by `move_point`; the first
    /// two rows stay in place.
    pub open spec fn free_points_streamed<F: Fn(Point, Point, Point) -> Point>(self, after: Self, move_point: &F) -> bool {
        &&& after.points@.len() == self.points@.len()
        &&& forall|f: int|
            0 <= f < 2 * self.indices.nr_points_along_span && f < self.points@.len()
                ==> #[trigger] after.points@[f] == self.points@[f]
        &&& forall|f: int|
            2 * self.indices.nr_points_along_span <= f < self.points@.len()
                ==> self.is_streamed_point(move_point, f, #[trigger] after.points@[f])
        &&& self.keeps_all_but_points(after)
    }

    /// `after` is `self` with the second row of points, the first free points, moved by
    /// `new_point` from the span index, the wing point in front and the old position.
    pub open spec fn first_free_points_moved<F: Fn(usize, Point, Point) -> Point>(self, after: Self, new_point: &F) -> bool {
        let along = self.indices.nr_points_along_span as int;
        &&& after.points@.len() == self.points@.len()
        &&& forall|f: int|
            0 <= f < self.points@.len() && !(along <= f < 2 * along) ==> #[trigger] after.points@[f] == self.points@[f]
        &&& forall|i: int|
            0 <= i < along ==> new_point.ensures(
                (i as usize, self.points@[i], self.points@[i + along]),
                #[trigger] after.points@[i + along],
            )
        &&& self.keeps_all_but_points(after)
    }

    /// `after` is `self` with the last row of points moved by `new_last_point` from the span
    /// index, the point in front and, in a wake of more than one panel per line element, the
    /// point in front of that one.
    pub open spec fn last_points_moved<F: Fn(usize, Point, Option<Point>) -> Point>(
        self,
        after: Self,
        new_last_point: &F,
    ) -> bool {
        let along = self.indices.nr_points_along_span as int;
        let start_index_last = self.points@.len() - along;
        let start_index_previous = start_index_last - along;
        &&& after.points@.len() == self.points@.len()
        &&& forall|f: int| 0 <= f < start_index_last ==> #[trigger] after.points@[f] == self.points@[f]
        &&& forall|i: int|
            0 <= i < along ==> new_last_point.ensures(
                (
                    i as usize,
                    self.points@[start_index_previous + i],
                    if self.indices.nr_panels_per_line_element > 1 {
                        Some(self.points@[start_index_previous - along + i])
                    } else {
                        None
                    },
                ),
                #[trigger] after.points@[start_index_last + i],
            )
        &&& self.keeps_all_but_points(after)
    }

    /// `after` is `self` after one update of the wake points: the first row is synchronized to
    /// `span_points`, the free points are streamed by `move_point`, and then the first free points
    /// and the last points are moved by `new_first_free_point` and `new_last_point`.
    pub open spec fn wake_points_updated<FS, FF, FL>(
        self,
        after: Self,
        span_points: Seq<Point>,
        move_point: &FS,
        new_first_free_point: &FF,
        new_last_point: &FL,
    ) -> bool where
        FS: Fn(Point, Point, Point) -> Point,
        FF: Fn(usize, Point, Point) -> Point,
        FL: Fn(usize, Point, Option<Point>) -> Point,
     {
        exists|synchronized: Self, streamed: Self, moved: Self|
            #![trigger self.first_points_synchronized(synchronized, span_points),
                synchronized.free_points_streamed(streamed, move_point),
                moved.last_points_moved(after, new_last_point)]
            self.first_points_synchronized(synchronized, span_points)
                && synchronized.free_points_streamed(streamed, move_point)
                && streamed.first_free_points_moved(moved, new_first_free_point)
                && moved.last_points_moved(after, new_last_point)
    }

    /// Shifts the strength of the panels downstream: every panel behind the first row takes the
    /// strength that the panel in front of it had. The first row keeps its strengths.
    pub fn stream_strength_values_downstream(&mut self)
        requires
            old(self).well_formed(),
        ensures
            final(self).well_formed(),
            old(self).strengths_streamed(*final(self)),
    {
        let indices = self.indices;
        shift_values_downstream(&indices, &mut self.strengths);
    }

    /// Updates the strength of the panels closest to the wing geometry: the first entries of the
    /// strengths take the new circulation strength.
    pub fn update_wing_strength(&mut self, new_circulation_strength: &[Strength])
        requires
            old(self).well_formed(),
            new_circulation_strength@.len() <= old(self).strengths@.len(),
        ensures
            final(self).well_formed(),
            final(self).strengths@ == with_leading_values(old(self).strengths@, new_circulation_strength@),
            final(self).indices == old(self).indices,
            final(self).points == old(self).points,
            final(self).velocity_at_points == old(self).velocity_at_points,
            final(self).panels == old(self).panels,
            final(self).wing_indices == old(self).wing_indices,
            final(self).number_of_time_steps_completed == old(self).number_of_time_steps_completed,
    {
        set_leading_values(&mut self.strengths, new_circulation_strength);
    }

    /// Panel `panel` is what `new_panel` builds from the corner points of the panel with flat index
    /// `panel_index` and from that index.
    pub open spec fn is_built_panel<F: Fn([Point; 4], usize) -> Panel>(
        self,
        new_panel: &F,
        panel_index: usize,
        panel: Panel,
    ) -> bool {
        exists|panel_points: [Point; 4]|
            panel_points@ == self.corner_points(
                panel_index as int / (self.indices.nr_panels_along_span as int),
                panel_index as int % (self.indices.nr_panels_along_span as int),
            ) && #[trigger] new_panel.ensures((panel_points, panel_index), panel)
    }

    /// Recalculates the panel data from the current geometry of the wake: each panel is rebuilt by
    /// `new_panel` from its four corner points and its flat index.
    pub fn update_panel_data<F>(&mut self, new_panel: &F) where F: Fn([Point; 4], usize) -> Panel
        requires
            old(self).well_formed(),
            forall|points: [Point; 4], panel_index: usize| #[trigger] new_panel.requires((points, panel_index)),
        ensures
            final(self).well_formed(),
            old(self).panels_rebuilt(*final(self), new_panel),
    {
        let ghost old_self = *self;
        let nr_panels = self.indices.nr_panels();
        let mut i: usize = 0;
        while i < nr_panels
            invariant
                old_self.well_formed(),
                self.well_formed(),
                nr_panels == self.indices.nr_panels_spec(),
                0 <= i <= nr_panels,
                forall|points: [Point; 4], panel_index: usize| #[trigger] new_panel.requires((points, panel_index)),
                self.indices == old_self.indices,
                self.points == old_self.points,
                self.velocity_at_points == old_self.velocity_at_points,
                self.strengths == old_self.strengths,
                self.wing_indices == old_self.wing_indices,
                self.number_of_time_steps_completed == old_self.number_of_time_steps_completed,
                forall|f: usize| f < i ==> old_self.is_built_panel(new_panel, f, #[trigger] self.panels@[f as int]),
            decreases nr_panels - i,
        {
            proof {
                lemma_panel_indices_cover_the_panels(self.indices, 0, 0, i as int);
            }
            let (stream_index, span_index) = self.indices.reverse_panel_index(i);
            let panel_points = self.panel_points(stream_index, span_index);
            assert(panel_points@ =~= old_self.corner_points(stream_index as int, span_index as int));
            let panel = new_panel(panel_points, i);
            assert(old_self.is_built_panel(new_panel, i, panel));
            let ghost previous_panels = self.panels@;
            self.panels[i] = panel;
            proof {
                assert forall|f: usize| f < i + 1 implies old_self.is_built_panel(new_panel, f, #[trigger] self.panels@[f as int]) by {
                    if f < i {
                        assert(self.panels@[f as int] == previous_panels[f as int]);
                    }
                }
            }
            i = i + 1;
        }
    }

    /// The point at flat index `f` is what `move_point` gives for the point in front of it, the
    /// velocity stored there, and the point itself, all taken before the update.
    pub open spec fn is_streamed_point<F: Fn(Point, Point, Point) -> Point>(
        self,
        move_point: &F,
        f: int,
        new_point: Point,
    ) -> bool {
        let along = self.indices.nr_points_along_span as int;
        move_point.ensures((self.points@[f - along], self.velocity_at_points@[f - along], self.points@[f]), new_point)
    }

    /// Streams all free wake points downstream: from the third row on, each point is moved by
    /// `move_point` from the point in front of it, the velocity stored at that point and its own
    /// position, all as they were before the update. The rows are handled from the last one, so
    /// every point is moved from the old positions. The first two rows, which follow the wing
    /// geometry, are left in place.
    pub fn stream_free_wake_points_based_on_stored_velocity<F>(&mut self, move_point: &F)
        where F: Fn(Point, Point, Point) -> Point
        requires
            old(self).well_formed(),
            forall|a: Point, b: Point, c: Point| #[trigger] move_point.requires((a, b, c)),
        ensures
            final(self).well_formed(),
            old(self).free_points_streamed(*final(self), move_point),
    {
        let ghost old_self = *self;
        let ghost along = self.indices.nr_points_along_span as int;
        let ghost nr_points = self.indices.nr_points_spec();
        let nr_streams = self.indices.nr_points_per_line_element;
        proof {
            assert(nr_streams * along == nr_points) by (nonlinear_arith)
                requires nr_points == along * nr_streams;
        }
        let mut i_stream: usize = nr_streams;
        while i_stream > 2
            invariant
                old_self.well_formed(),
                self.well_formed(),
                i_stream <= nr_streams,
                nr_streams >= 2 ==> i_stream >= 2,
                nr_streams < 2 ==> i_stream == nr_streams,
                nr_streams == self.indices.nr_points_per_line_element,
                along == self.indices.nr_points_along_span,
                nr_points == self.indices.nr_points_spec(),
                nr_streams * along == nr_points,
                forall|a: Point, b: Point, c: Point| #[trigger] move_point.requires((a, b, c)),
                self.indices == old_self.indices,
                self.velocity_at_points == old_self.velocity_at_points,
                self.strengths == old_self.strengths,
                self.panels == old_self.panels,
                self.wing_indices == old_self.wing_indices,
                self.number_of_time_steps_completed == old_self.number_of_time_steps_completed,
                forall|f: int|
                    0 <= f < nr_points && !(i_stream * along <= f) ==> #[trigger] self.points@[f] == old_self.points@[f],
                forall|f: int|
                    0 <= f < nr_points && i_stream * along <= f ==> old_self.is_streamed_point(move_point, f, #[trigger] self.points@[f]),
            decreases i_stream,
        {
            i_stream = i_stream - 1;
            let ghost row_start = i_stream * along;
            proof {
                assert(row_start + along == (i_stream + 1) * along) by (nonlinear_arith)
                    requires row_start == i_stream * along;
                assert((i_stream + 1) * along <= nr_points) by (nonlinear_arith)
                    requires i_stream + 1 <= nr_streams, nr_streams * along == nr_points, 0 <= along;
                assert(2 * along <= row_start) by (nonlinear_arith)
                    requires row_start == i_stream * along, i_stream >= 2, 0 <= along;
            }
            let mut i_span: usize = 0;
            while i_span < self.indices.nr_points_along_span
                invariant
                    old_self.well_formed(),
                    self.well_formed(),
                    2 <= i_stream < nr_streams,
                    nr_streams == self.indices.nr_points_per_line_element,
                    along == self.indices.nr_points_along_span,
                    nr_points == self.indices.nr_points_spec(),
                    row_start == i_stream * along,
                    row_start + along == (i_stream + 1) * along,
                    (i_stream + 1) * along <= nr_points,
                    2 * along <= row_start,
                    0 <= i_span <= along,
                    forall|a: Point, b: Point, c: Point| #[trigger] move_point.requires((a, b, c)),
                    self.indices == old_self.indices,
                    self.velocity_at_points == old_self.velocity_at_points,
                    self.strengths == old_self.strengths,
                    self.panels == old_self.panels,
                    self.wing_indices == old_self.wing_indices,
                    self.number_of_time_steps_completed == old_self.number_of_time_steps_completed,
                    forall|f: int|
                        0 <= f < nr_points && !((i_stream + 1) * along <= f || row_start <= f < row_start + i_span)
                            ==> #[trigger] self.points@[f] == old_self.points@[f],
                    forall|f: int|
                        0 <= f < nr_points && ((i_stream + 1) * along <= f || row_start <= f < row_start + i_span)
                            ==> old_self.is_streamed_point(move_point, f, #[trigger] self.points@[f]),
                decreases along - i_span,
            {
                assert(self.indices.point_index_spec(i_stream as int, i_span as int) == row_start + i_span);
                assert((i_stream - 1) * along == row_start - along) by (nonlinear_arith)
                    requires row_start == i_stream * along;
                let previous_flat_index = self.indices.point_index(i_stream - 1, i_span);
                let current_flat_index = self.indices.point_index(i_stream, i_span);

                let previous_wake_point = self.points[previous_flat_index];
                let previous_velocity = self.velocity_at_points[previous_flat_index];
                let current_wake_point = self.points[current_flat_index];

                let new_point = move_point(previous_wake_point, previous_velocity, current_wake_point);
                assert(old_self.is_streamed_point(move_point, current_flat_index as int, new_point));
                self.points[current_flat_index] = new_point;
                i_span = i_span + 1;
            }
        }
        proof {
            if nr_streams >= 2 {
                assert(i_stream == 2);
                assert(i_stream * along == 2 * along);
            } else {
                assert(i_stream * along >= nr_points) by (nonlinear_arith)
                    requires i_stream == nr_streams, nr_streams * along == nr_points;
                assert(nr_points <= 2 * along) by (nonlinear_arith)
                    requires nr_streams < 2, nr_streams * along == nr_points, 0 <= along, 0 <= nr_streams;
            }
        }
    }

    /// Moves the first free wake points, the second row of points, which lie right behind the wing
    /// geometry: the point at span index `i` becomes `new_point(i, wing_point, old_point)`, where
    /// `wing_point` is the point in front of it on the wing and `old_point` its own position
    /// before the update. All other points stay in place.
    pub fn move_first_free_wake_points<F>(&mut self, new_point: &F)
        where F: Fn(usize, Point, Point) -> Point
        requires
            old(self).well_formed(),
            old(self).indices.nr_points_per_line_element >= 2 || old(self).indices.nr_points_along_span == 0,
            forall|i: usize, a: Point, b: Point| #[trigger] new_point.requires((i, a, b)),
        ensures
            final(self).well_formed(),
            old(self).first_free_points_moved(*final(self), new_point),
    {
        let ghost old_self = *self;
        let along = self.indices.nr_points_along_span;
        proof {
            assert(2 * along <= self.indices.nr_points_spec()) by (nonlinear_arith)
                requires
                    self.indices.nr_points_per_line_element >= 2 || along == 0,
                    self.indices.nr_points_spec() == along * self.indices.nr_points_per_line_element,
            ;
        }
        let mut i: usize = 0;
        while i < along
            invariant
                old_self.well_formed(),
                self.well_formed(),
                along == self.indices.nr_points_along_span,
                2 * along <= self.points@.len(),
                0 <= i <= along,
                forall|i: usize, a: Point, b: Point| #[trigger] new_point.requires((i, a, b)),
                self.indices == old_self.indices,
                self.velocity_at_points == old_self.velocity_at_points,
                self.strengths == old_self.strengths,
                self.panels == old_self.panels,
                self.wing_indices == old_self.wing_indices,
                self.number_of_time_steps_completed == old_self.number_of_time_steps_completed,
                forall|f: int|
                    0 <= f < self.points@.len() && !(along <= f < along + i) ==> #[trigger] self.points@[f]
                        == old_self.points@[f],
                forall|j: int|
                    0 <= j < i ==> new_point.ensures(
                        (j as usize, old_self.points@[j], old_self.points@[j + along]),
                        #[trigger] self.points@[j + along],
                    ),
            decreases along - i,
        {
            let wing_point = self.points[i];
            let old_point = self.points[i + along];
            let moved = new_point(i, wing_point, old_point);
            self.points[i + along] = moved;
            i = i + 1;
        }
    }

    /// Moves the last row of wake points: the point at span index `i` becomes
    /// `new_last_point(i, previous_point, second_previous_point)`, where `previous_point` is the
    /// point in front of it, and `second_previous_point` the point in front of that one when the
    /// wake has more than one panel per line element (`None` otherwise). All other points stay in
    /// place.
    pub fn move_last_wake_points<F>(&mut self, new_last_point: &F)
        where F: Fn(usize, Point, Option<Point>) -> Point
        requires
            old(self).well_formed(),
            old(self).indices.nr_points_per_line_element >= 2 || old(self).indices.nr_points_along_span == 0,
            forall|i: usize, a: Point, b: Option<Point>| #[trigger] new_last_point.requires((i, a, b)),
        ensures
            final(self).well_formed(),
            old(self).last_points_moved(*final(self), new_last_point),
    {
        let ghost old_self = *self;
        let nr_points = self.points.len();
        let nr_points_along_span = self.indices.nr_points_along_span;
        let ghost along = nr_points_along_span as int;
        let ghost per_line = self.indices.nr_points_per_line_element as int;

        let multi_panel_wake = self.indices.nr_panels_per_line_element > 1;
        proof {
            assert(2 * along <= nr_points) by (nonlinear_arith)
                requires
                    per_line >= 2 || along == 0,
                    nr_points == along * per_line,
                    along >= 0,
            ;
            if multi_panel_wake {
                assert(3 * along <= nr_points) by (nonlinear_arith)
                    requires
                        per_line >= 3,
                        nr_points == along * per_line,
                        along >= 0,
                ;
            }
        }

        let start_index_last = nr_points - nr_points_along_span;
        let start_index_previous = start_index_last - nr_points_along_span;

        let mut i: usize = 0;
        while i < nr_points_along_span
            invariant
                old_self.well_formed(),
                self.well_formed(),
                nr_points == self.points@.len(),
                nr_points_along_span == along,
                along == self.indices.nr_points_along_span,
                multi_panel_wake == (self.indices.nr_panels_per_line_element > 1),
                multi_panel_wake ==> 3 * along <= nr_points,
                2 * along <= nr_points,
                start_index_last == nr_points - along,
                start_index_previous == start_index_last - along,
                0 <= i <= along,
                forall|i: usize, a: Point, b: Option<Point>| #[trigger] new_last_point.requires((i, a, b)),
                self.indices == old_self.indices,
                self.velocity_at_points == old_self.velocity_at_points,
                self.strengths == old_self.strengths,
                self.panels == old_self.panels,
                self.wing_indices == old_self.wing_indices,
                self.number_of_time_steps_completed == old_self.number_of_time_steps_completed,
                forall|f: int|
                    0 <= f < nr_points && !(start_index_last <= f < start_index_last + i)
                        ==> #[trigger] self.points@[f] == old_self.points@[f],
                forall|j: int|
                    0 <= j < i ==> new_last_point.ensures(
                        (
                            j as usize,
                            old_self.points@[start_index_previous + j],
                            if old_self.indices.nr_panels_per_line_element > 1 {
                                Some(old_self.points@[start_index_previous - along + j])
                            } else {
                                None
                            },
                        ),
                        #[trigger] self.points@[start_index_last + j],
                    ),
            decreases along - i,
        {
            let previous_point = self.points[start_index_previous + i];
            let second_previous_point = if multi_panel_wake {
                Some(self.points[start_index_previous - nr_points_along_span + i])
            } else {
                None
            };
            let moved = new_last_point(i, previous_point, second_previous_point);
            self.points[start_index_last + i] = moved;
            i = i + 1;
        }
    }

    /// Moves the first row of wake points onto the span points of the line force model, which may
    /// have moved since the last time step.
    pub fn synchronize_first_points_to_wing_geometry(&mut self, span_points: &[Point])
        requires
            old(self).well_formed(),
            span_points@.len() <= old(self).points@.len(),
        ensures
            final(self).well_formed(),
            old(self).first_points_synchronized(*final(self), span_points@),
    {
        set_leading_values(&mut self.points, span_points);
    }

    /// Updates the wake points for a new time step: the first row is moved onto the span points,
    /// the free points are streamed downstream by `move_point`, and the first free points and the
    /// last points are moved by `new_first_free_point` and `new_last_point`, which treat these two
    /// rows as special cases.
    pub fn update_wake_points<FS, FF, FL>(
        &mut self,
        span_points: &[Point],
        move_point: &FS,
        new_first_free_point: &FF,
        new_last_point: &FL,
    ) where
        FS: Fn(Point, Point, Point) -> Point,
        FF: Fn(usize, Point, Point) -> Point,
        FL: Fn(usize, Point, Option<Point>) -> Point,
        requires
            old(self).well_formed(),
            old(self).indices.nr_points_per_line_element >= 2 || old(self).indices.nr_points_along_span == 0,
            span_points@.len() <= old(self).points@.len(),
            forall|a: Point, b: Point, c: Point| #[trigger] move_point.requires((a, b, c)),
            forall|i: usize, a: Point, b: Point| #[trigger] new_first_free_point.requires((i, a, b)),
            forall|i: usize, a: Point, b: Option<Point>| #[trigger] new_last_point.requires((i, a, b)),
        ensures
            final(self).well_formed(),
            old(self).wake_points_updated(
                *final(self),
                span_points@,
                move_point,
                new_first_free_point,
                new_last_point,
            ),
            old(self).keeps_all_but_points(*final(self)),
    {
        let ghost before = *self;
        self.synchronize_first_points_to_wing_geometry(span_points);
        let ghost synchronized = *self;
        self.stream_free_wake_points_based_on_stored_velocity(move_point);
        let ghost streamed = *self;
        self.move_first_free_wake_points(new_first_free_point);
        let ghost moved = *self;
        self.move_last_wake_points(new_last_point);
        assert(before.first_points_synchronized(synchronized, span_points@)
            && synchronized.free_points_streamed(streamed, move_point)
            && streamed.first_free_points_moved(moved, new_first_free_point)
            && moved.last_points_moved(*self, new_last_point));
    }

    /// Prepares the wake for the solver at a new time step: the wake points are updated as in
    /// `update_wake_points`, the panel data is rebuilt by `new_panel` from the new geometry, and
    /// the strengths are shifted one row downstream.
    pub fn update_before_solving<FS, FF, FL, FP>(
        &mut self,
        span_points: &[Point],
        move_point: &FS,
        new_first_free_point: &FF,
        new_last_point: &FL,
        new_panel: &FP,
    ) where
        FS: Fn(Point, Point, Point) -> Point,
        FF: Fn(usize, Point, Point) -> Point,
        FL: Fn(usize, Point, Option<Point>) -> Point,
        FP: Fn([Point; 4], usize) -> Panel,
        requires
            old(self).well_formed(),
            old(self).indices.nr_points_per_line_element >= 2 || old(self).indices.nr_points_along_span == 0,
            span_points@.len() <= old(self).points@.len(),
            forall|a: Point, b: Point, c: Point| #[trigger] move_point.requires((a, b, c)),
            forall|i: usize, a: Point, b: Point| #[trigger] new_first_free_point.requires((i, a, b)),
            forall|i: usize, a: Point, b: Option<Point>| #[trigger] new_last_point.requires((i, a, b)),
            forall|points: [Point; 4], panel_index: usize| #[trigger] new_panel.requires((points, panel_index)),
        ensures
            final(self).well_formed(),
            exists|moved: Self, rebuilt: Self|
                #![trigger old(self).wake_points_updated(moved, span_points@, move_point, new_first_free_point, new_last_point),
                    moved.panels_rebuilt(rebuilt, new_panel)]
                old(self).wake_points_updated(moved, span_points@, move_point, new_first_free_point, new_last_point)
                    && moved.panels_rebuilt(rebuilt, new_panel)
                    && rebuilt.strengths_streamed(*final(self)),
            final(self).strengths@ == shifted_downstream(old(self).indices, old(self).strengths@),
            final(self).velocity_at_points == old(self).velocity_at_points,
            final(self).indices == old(self).indices,
            final(self).wing_indices == old(self).wing_indices,
            final(self).number_of_time_steps_completed == old(self).number_of_time_steps_completed,
    {
        let ghost before = *self;
        self.update_wake_points(span_points, move_point, new_first_free_point, new_last_point);
        let ghost moved = *self;
        self.update_panel_data(new_panel);
        let ghost rebuilt = *self;
        self.stream_strength_values_downstream();
        assert(before.wake_points_updated(moved, span_points@, move_point, new_first_free_point, new_last_point)
            && moved.panels_rebuilt(rebuilt, new_panel)
            && rebuilt.strengths_streamed(*self));
    }

    /// Stores the velocity at the wake points that `velocity_at_wake_points` computes from the
    /// current state of the wake.
    pub fn update_velocity_at_points<FV>(&mut self, velocity_at_wake_points: &FV) where FV: Fn(&Self) -> Vec<Point>
        requires
            old(self).well_formed(),
            forall|wake: &Self| #[trigger] velocity_at_wake_points.requires((wake,)),
            forall|wake: &Self, velocity: Vec<Point>|
                #[trigger] velocity_at_wake_points.ensures((wake,), velocity) ==> velocity@.len() == wake.points@.len(),
        ensures
            final(self).well_formed(),
            velocity_at_wake_points.ensures((&*old(self),), final(self).velocity_at_points),
            final(self).indices == old(self).indices,
            final(self).points == old(self).points,
            final(self).strengths == old(self).strengths,
            final(self).panels == old(self).panels,
            final(self).wing_indices == old(self).wing_indices,
            final(self).number_of_time_steps_completed == old(self).number_of_time_steps_completed,
    {
        let velocity = velocity_at_wake_points(&*self);
        self.velocity_at_points = velocity;
    }

    /// `self` with its strengths replaced by `strengths`.
    pub open spec fn with_strengths(self, strengths: Vec<Strength>) -> Self {
        Wake {
            indices: self.indices,
            points: self.points,
            velocity_at_points: self.velocity_at_points,
            strengths: strengths,
            panels: self.panels,
            wing_indices: self.wing_indices,
            number_of_time_steps_completed: self.number_of_time_steps_completed,
        }
    }

    /// Completes a solved time step: the first row of strengths takes the new circulation
    /// strength, the velocity at the wake points is computed by `velocity_at_wake_points` on the
    /// wake with these strengths and stored, and the time step is counted as completed.
    ///
    /// The points and the strengths of the rows behind the first stay as they are: within a time
    /// step they are streamed downstream once, by `update_before_solving`, before the solver runs.
    /// `lemma_time_step_streams_strengths_and_points` states what the two calls together do.
    pub fn update_after_solving<FV>(
        &mut self,
        new_circulation_strength: &[Strength],
        velocity_at_wake_points: &FV,
    ) where FV: Fn(&Self) -> Vec<Point>
        requires
            old(self).well_formed(),
            new_circulation_strength@.len() <= old(self).strengths@.len(),
            old(self).number_of_time_steps_completed < usize::MAX,
            forall|wake: &Self| #[trigger] velocity_at_wake_points.requires((wake,)),
            forall|wake: &Self, velocity: Vec<Point>|
                #[trigger] velocity_at_wake_points.ensures((wake,), velocity) ==> velocity@.len() == wake.points@.len(),
        ensures
            final(self).well_formed(),
            final(self).strengths@ == with_leading_values(old(self).strengths@, new_circulation_strength@),
            velocity_at_wake_points.ensures(
                (&old(self).with_strengths(final(self).strengths),),
                final(self).velocity_at_points,
            ),
            final(self).number_of_time_steps_completed == old(self).number_of_time_steps_completed + 1,
            final(self).indices == old(self).indices,
            final(self).points == old(self).points,
            final(self).panels == old(self).panels,
            final(self).wing_indices == old(self).wing_indices,
    {
        self.update_wing_strength(new_circulation_strength);
        self.update_velocity_at_points(velocity_at_wake_points);
        self.number_of_time_steps_completed = self.number_of_time_steps_completed + 1;
    }
}

/// A time step, `update_before_solving` followed by `update_after_solving` with one new strength
/// per span line, streams the wake points and the strengths downstream once: the points are those
/// of one update of the wake points, every panel behind the first row holds the strength that the
/// panel in front of it held before the step, the first row holds the new circulation strength,
/// and one more time step is counted.
pub proof fn lemma_time_step_streams_strengths_and_points<Point, Strength, Panel, FS, FF, FL, FP>(
    before: Wake<Point, Strength, Panel>,
    prepared: Wake<Point, Strength, Panel>,
    solved: Wake<Point, Strength, Panel>,
    span_points: Seq<Point>,
    move_point: &FS,
    new_first_free_point: &FF,
    new_last_point: &FL,
    new_panel: &FP,
    new_circulation_strength: Seq<Strength>,
) where
    Point: Copy,
    Strength: Copy,
    FS: Fn(Point, Point, Point) -> Point,
    FF: Fn(usize, Point, Point) -> Point,
    FL: Fn(usize, Point, Option<Point>) -> Point,
    FP: Fn([Point; 4], usize) -> Panel,
    requires
        before.well_formed(),
        new_circulation_strength.len() == before.indices.nr_panels_along_span,
        new_circulation_strength.len() <= before.strengths@.len(),
        exists|moved: Wake<Point, Strength, Panel>, rebuilt: Wake<Point, Strength, Panel>|
            #![trigger before.wake_points_updated(moved, span_points, move_point, new_first_free_point, new_last_point),
                moved.panels_rebuilt(rebuilt, new_panel)]
            before.wake_points_updated(moved, span_points, move_point, new_first_free_point, new_last_point)
                && moved.panels_rebuilt(rebuilt, new_panel)
                && rebuilt.strengths_streamed(prepared),
        solved.strengths@ == with_leading_values(prepared.strengths@, new_circulation_strength),
        solved.points == prepared.points,
        solved.number_of_time_steps_completed == prepared.number_of_time_steps_completed + 1,
    ensures
        exists|moved: Wake<Point, Strength, Panel>|
            #![trigger before.wake_points_updated(moved, span_points, move_point, new_first_free_point, new_last_point)]
            before.wake_points_updated(moved, span_points, move_point, new_first_free_point, new_last_point)
                && solved.points == moved.points,
        solved.strengths@.len() == before.strengths@.len(),
        forall|stream_index: int, span_index: int|
            1 <= stream_index < before.indices.nr_panels_per_line_element && 0 <= span_index
                < before.indices.nr_panels_along_span ==> solved.strengths@[#[trigger] before.indices.panel_index_spec(
                stream_index,
                span_index,
            )] == before.strengths@[before.indices.panel_index_spec(stream_index - 1, span_index)],
        forall|span_index: int|
            0 <= span_index < before.indices.nr_panels_along_span ==> #[trigger] solved.strengths@[span_index]
                == new_circulation_strength[span_index],
        solved.number_of_time_steps_completed == before.number_of_time_steps_completed + 1,
{
    let (moved, rebuilt) = choose|moved: Wake<Point, Strength, Panel>, rebuilt: Wake<Point, Strength, Panel>|
        before.wake_points_updated(moved, span_points, move_point, new_first_free_point, new_last_point)
            && moved.panels_rebuilt(rebuilt, new_panel)
            && rebuilt.strengths_streamed(prepared);
    assert(moved.strengths == before.strengths && moved.indices == before.indices);
    assert(moved.number_of_time_steps_completed == before.number_of_time_steps_completed);
    assert(prepared.strengths@ == shifted_downstream(before.indices, before.strengths@));
    assert forall|stream_index: int, span_index: int|
        1 <= stream_index < before.indices.nr_panels_per_line_element && 0 <= span_index
            < before.indices.nr_panels_along_span implies solved.strengths@[#[trigger] before.indices.panel_index_spec(
            stream_index,
            span_index,
        )] == before.strengths@[before.indices.panel_index_spec(stream_index - 1, span_index)] by {
        lemma_strength_after_time_step(before.indices, before.strengths@, new_circulation_strength, stream_index, span_index);
    }
    assert forall|span_index: int|
        0 <= span_index < before.indices.nr_panels_along_span implies #[trigger] solved.strengths@[span_index]
            == new_circulation_strength[span_index] by {
        let along = before.indices.nr_panels_along_span as int;
        let per_line = before.indices.nr_panels_per_line_element as int;
        assert(per_line >= 1) by (nonlinear_arith)
            requires
                0 <= span_index < along,
                along <= along * per_line,
                per_line >= 0,
        ;
        lemma_strength_after_time_step(before.indices, before.strengths@, new_circulation_strength, 0, span_index);
    }
}

/// Flat point indices of neighbouring rows lie one row length apart, and rows from the third on
/// start at or after twice the row length.
proof fn lemma_point_rows(indices: WakeIndices, stream_index: int, span_index: int)
    requires
        0 <= stream_index < indices.nr_points_per_line_element,
        0 <= span_index < indices.nr_points_along_span,
    ensures
        0 <= indices.point_index_spec(stream_index, span_index) < indices.nr_points_spec(),
        indices.point_index_spec(stream_index, span_index) - indices.nr_points_along_span
            == indices.point_index_spec(stream_index - 1, span_index),
        indices.point_index_spec(stream_index, span_index) - 2 * indices.nr_points_along_span
            == indices.point_index_spec(stream_index - 2, span_index),
        indices.point_index_spec(0, span_index) == span_index,
        indices.point_index_spec(1, span_index) == span_index + indices.nr_points_along_span,
        stream_index >= 2 <==> indices.point_index_spec(stream_index, span_index) >= 2 * indices.nr_points_along_span,
        stream_index == 1 <==> (indices.nr_points_along_span <= indices.point_index_spec(stream_index, span_index)
            < 2 * indices.nr_points_along_span),
        stream_index == indices.nr_points_per_line_element - 1 <==> indices.point_index_spec(stream_index, span_index)
            >= indices.nr_points_spec() - indices.nr_points_along_span,
        stream_index == indices.nr_points_per_line_element - 1 ==> indices.point_index_spec(stream_index, span_index)
            == indices.nr_points_spec() - indices.nr_points_along_span + span_index,
{
    lemma_point_indices_cover_the_points(indices, stream_index, span_index);
    let n = indices.nr_points_along_span as int;
    let rows = indices.nr_points_per_line_element as int;
    let f = indices.point_index_spec(stream_index, span_index);
    assert(f - n == (stream_index - 1) * n + span_index) by (nonlinear_arith)
        requires f == stream_index * n + span_index;
    assert(f - 2 * n == (stream_index - 2) * n + span_index) by (nonlinear_arith)
        requires f == stream_index * n + span_index;
    assert(stream_index >= 2 <==> f >= 2 * n) by (nonlinear_arith)
        requires f == stream_index * n + span_index, 0 <= span_index < n, 0 <= stream_index;
    assert(stream_index == 1 <==> (n <= f < 2 * n)) by (nonlinear_arith)
        requires f == stream_index * n + span_index, 0 <= span_index < n, 0 <= stream_index;
    assert(stream_index == rows - 1 <==> f >= n * rows - n) by (nonlinear_arith)
        requires f == stream_index * n + span_index, 0 <= span_index < n, 0 <= stream_index < rows;
    assert(stream_index == rows - 1 ==> f == n * rows - n + span_index) by (nonlinear_arith)
        requires f == stream_index * n + span_index;
}

/// Streaming the free wake points moves the point at row `s`, from the third row on, with the
/// point in front of it at row `s - 1`, the velocity stored at that same point in front, and its
/// own old position; the first two rows and the stored velocities stay as they were.
pub proof fn lemma_free_points_stream_from_the_row_in_front<Point, Strength, Panel, F>(
    before: Wake<Point, Strength, Panel>,
    after: Wake<Point, Strength, Panel>,
    move_point: &F,
    stream_index: int,
    span_index: int,
) where Point: Copy, Strength: Copy, F: Fn(Point, Point, Point) -> Point
    requires
        before.well_formed(),
        before.free_points_streamed(after, move_point),
        0 <= stream_index < before.indices.nr_points_per_line_element,
        0 <= span_index < before.indices.nr_points_along_span,
    ensures
        ({
            let point = before.indices.point_index_spec(stream_index, span_index);
            let front = before.indices.point_index_spec(stream_index - 1, span_index);
            &&& stream_index >= 2 ==> move_point.ensures(
                (before.points@[front], before.velocity_at_points@[front], before.points@[point]),
                after.points@[point],
            )
            &&& stream_index < 2 ==> after.points@[point] == before.points@[point]
        }),
        after.points@.len() == before.points@.len(),
        after.velocity_at_points == before.velocity_at_points,
{
    lemma_point_rows(before.indices, stream_index, span_index);
    let point = before.indices.point_index_spec(stream_index, span_index);
    if stream_index >= 2 {
        assert(before.is_streamed_point(move_point, point, after.points@[point]));
    } else {
        assert(after.points@[point] == before.points@[point]);
    }
}

/// Moving the first free points moves the point at row 1 with the span index, the wing point in
/// front of it at row 0 and its own old position; all other rows stay as they were.
pub proof fn lemma_first_free_points_move_from_the_wing<Point, Strength, Panel, F>(
    before: Wake<Point, Strength, Panel>,
    after: Wake<Point, Strength, Panel>,
    new_point: &F,
    stream_index: int,
    span_index: int,
) where Point: Copy, Strength: Copy, F: Fn(usize, Point, Point) -> Point
    requires
        before.well_formed(),
        before.first_free_points_moved(after, new_point),
        0 <= stream_index < before.indices.nr_points_per_line_element,
        0 <= span_index < before.indices.nr_points_along_span,
    ensures
        ({
            let point = before.indices.point_index_spec(stream_index, span_index);
            &&& stream_index == 1 ==> new_point.ensures(
                (
                    span_index as usize,
                    before.points@[before.indices.point_index_spec(0, span_index)],
                    before.points@[point],
                ),
                after.points@[point],
            )
            &&& stream_index != 1 ==> after.points@[point] == before.points@[point]
        }),
        after.points@.len() == before.points@.len(),
{
    lemma_point_rows(before.indices, stream_index, span_index);
    let point = before.indices.point_index_spec(stream_index, span_index);
    if stream_index == 1 {
        assert(after.points@[span_index + before.indices.nr_points_along_span] == after.points@[point]);
    } else {
        assert(after.points@[point] == before.points@[point]);
    }
}

/// Moving the last points moves the point at the last row with the span index, the point in front
/// of it and, when the wake has more than one panel per line element, the point in front of that
/// one; all other rows stay as they were.
pub proof fn lemma_last_points_move_from_the_rows_in_front<Point, Strength, Panel, F>(
    before: Wake<Point, Strength, Panel>,
    after: Wake<Point, Strength, Panel>,
    new_last_point: &F,
    stream_index: int,
    span_index: int,
) where Point: Copy, Strength: Copy, F: Fn(usize, Point, Option<Point>) -> Point
    requires
        before.well_formed(),
        before.last_points_moved(after, new_last_point),
        0 <= stream_index < before.indices.nr_points_per_line_element,
        0 <= span_index < before.indices.nr_points_along_span,
    ensures
        ({
            let point = before.indices.point_index_spec(stream_index, span_index);
            let last_row = before.indices.nr_points_per_line_element - 1;
            &&& stream_index == last_row ==> new_last_point.ensures(
                (
                    span_index as usize,
                    before.points@[before.indices.point_index_spec(stream_index - 1, span_index)],
                    if before.indices.nr_panels_per_line_element > 1 {
                        Some(before.points@[before.indices.point_index_spec(stream_index - 2, span_index)])
                    } else {
                        None
                    },
                ),
                after.points@[point],
            )
            &&& stream_index < last_row ==> after.points@[point] == before.points@[point]
        }),
        after.points@.len() == before.points@.len(),
{
    lemma_point_rows(before.indices, stream_index, span_index);
    let n = before.indices.nr_points_along_span as int;
    let point = before.indices.point_index_spec(stream_index, span_index);
    let start_index_last = before.points@.len() - n;
    if stream_index == before.indices.nr_points_per_line_element - 1 {
        assert(point == start_index_last + span_index);
        assert(after.points@[start_index_last + span_index] == after.points@[point]);
    } else {
        assert(after.points@[point] == before.points@[point]);
    }
}

/// Synchronizing the first points puts span point `f` at wake point `f`, for every span point,
/// and leaves the other wake points as they were.
pub proof fn lemma_first_points_follow_the_span_points<Point, Strength, Panel>(
    before: Wake<Point, Strength, Panel>,
    after: Wake<Point, Strength, Panel>,
    span_points: Seq<Point>,
)
    where Point: Copy, Strength: Copy,
    requires
        before.first_points_synchronized(after, span_points),
        span_points.len() <= before.points@.len(),
    ensures
        after.points@.len() == before.points@.len(),
        forall|f: int| 0 <= f < span_points.len() ==> #[trigger] after.points@[f] == span_points[f],
        forall|f: int| span_points.len() <= f < before.points@.len() ==> #[trigger] after.points@[f] == before.points@[f],
{
}

/// Shifting values downstream gives every panel behind the first row the value of the panel in
/// front of it in the same span column, keeps the first row, and keeps any values stored past
/// the panels.
pub proof fn lemma_shift_takes_the_value_in_front<T>(
    indices: WakeIndices,
    values: Seq<T>,
    stream_index: int,
    span_index: int,
)
    requires
        indices.nr_panels_spec() <= values.len(),
        0 <= stream_index < indices.nr_panels_per_line_element,
        0 <= span_index < indices.nr_panels_along_span,
    ensures
        shifted_downstream(indices, values).len() == values.len(),
        stream_index == 0 ==> shifted_downstream(indices, values)[indices.panel_index_spec(0, span_index)]
            == values[span_index],
        stream_index > 0 ==> shifted_downstream(indices, values)[indices.panel_index_spec(stream_index, span_index)]
            == values[indices.panel_index_spec(stream_index - 1, span_index)],
        forall|f: int| indices.nr_panels_spec() <= f < values.len() ==> #[trigger] shifted_downstream(indices, values)[f]
            == values[f],
{
    lemma_panel_indices_cover_the_panels(indices, stream_index, span_index, 0);
    let n = indices.nr_panels_along_span as int;
    let f = indices.panel_index_spec(stream_index, span_index);
    assert(f - n == (stream_index - 1) * n + span_index) by (nonlinear_arith)
        requires f == stream_index * n + span_index;
    assert(stream_index > 0 <==> f >= n) by (nonlinear_arith)
        requires f == stream_index * n + span_index, 0 <= span_index < n, 0 <= stream_index;
    assert(stream_index == 0 ==> f == span_index) by (nonlinear_arith)
        requires f == stream_index * n + span_index;
}

/// Setting leading values puts the new value `f` at index `f`, for every new value, and keeps the
/// other values and the length.
pub proof fn lemma_leading_values_replace_the_first<T>(values: Seq<T>, new_values: Seq<T>)
    requires
        new_values.len() <= values.len(),
    ensures
        with_leading_values(values, new_values).len() == values.len(),
        forall|f: int| 0 <= f < new_values.len() ==> #[trigger] with_leading_values(values, new_values)[f] == new_values[f],
        forall|f: int| new_values.len() <= f < values.len() ==> #[trigger] with_leading_values(values, new_values)[f]
            == values[f],
{
}

/// Rebuilding the panel data gives the panel at row `s` behind span line `j` what `new_panel`
/// builds from the corner points of that panel and its flat index.
pub proof fn lemma_rebuilt_panel_comes_from_its_corners<Point, Strength, Panel, F>(
    before: Wake<Point, Strength, Panel>,
    after: Wake<Point, Strength, Panel>,
    new_panel: &F,
    stream_index: int,
    span_index: int,
) where Point: Copy, Strength: Copy, F: Fn([Point; 4], usize) -> Panel
    requires
        before.well_formed(),
        before.panels_rebuilt(after, new_panel),
        0 <= stream_index < before.indices.nr_panels_per_line_element,
        0 <= span_index < before.indices.nr_panels_along_span,
    ensures
        exists|panel_points: [Point; 4]|
            panel_points@ == before.corner_points(stream_index, span_index) && #[trigger] new_panel.ensures(
                (panel_points, before.indices.panel_index_spec(stream_index, span_index) as usize),
                after.panels@[before.indices.panel_index_spec(stream_index, span_index)],
            ),
{
    lemma_panel_indices_cover_the_panels(before.indices, stream_index, span_index, 0);
    crate::lifting_line::wake::indices::lemma_reverse_panel_index_undoes_panel_index(
        before.indices,
        stream_index,
        span_index,
    );
    let f = before.indices.panel_index_spec(stream_index, span_index);
    assert(before.is_built_panel(new_panel, f as usize, after.panels@[(f as usize) as int]));
}

} // verus!
