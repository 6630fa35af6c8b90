//! Initialization of the shape and strength of a wake at the beginning of a simulation.

use vstd::prelude::*;

use crate::lifting_line::wake::dynamic_wake::Wake;
use crate::lifting_line::wake::update_data::with_leading_values;

verus! {

/// A vector of `len` copies of `value`.
fn filled_vec<T: Copy>(value: T, len: usize) -> (values: Vec<T>)
    ensures
        values@ == Seq::new(len as nat, |i: int| value),
{
    let mut values: Vec<T> = Vec::new();
    let mut i: usize = 0;
    while i < len
        invariant
            0 <= i <= len,
            values@ == Seq::new(i as nat, |f: int| value),
        decreases len - i,
    {
        values.push(value);
        i = i + 1;
        assert(values@ =~= Seq::new(i as nat, |f: int| value));
    }
    values
}

impl<Point: Copy, Strength: Copy, Panel> Wake<Point, Strength, Panel> {
    /// `start` is `self` with every strength set to `zero_strength`, the velocity at every point
    /// set to `wake_building_velocity`, and the first row of points moved onto `span_points`.
    pub open spec fn is_initial_state(
        self,
        start: Self,
        span_points: Seq<Point>,
        zero_strength: Strength,
        wake_building_velocity: Point,
    ) -> bool {
        &&& start.indices == self.indices
        &&& start.points@ == with_leading_values(self.points@, span_points)
        &&& start.velocity_at_points@ == Seq::new(self.points@.len(), |i: int| wake_building_velocity)
        &&& start.strengths@ == Seq::new(self.indices.nr_panels_spec() as nat, |i: int| zero_strength)
        &&& start.panels == self.panels
        &&& start.wing_indices == self.wing_indices
        &&& start.number_of_time_steps_completed == self.number_of_time_steps_completed
    }

    /// Each state in `states` is the one before it after one update of the wake points.
    pub open spec fn is_wake_point_update_chain<FS, FF, FL>(
        states: Seq<Self>,
        span_points: Seq<Point>,
        move_point: &FS,
        new_first_free_point: &FF,
        new_last_point: &FL,
    ) -> bool where
        FS: Fn(Point, Point, Point) -> Point,
        FF: Fn(usize, Point, Point) -> Point,
        FL: Fn(usize, Point, Option<Point>) -> Point,
     {
        forall|j: int|
            #![trigger states[j]]
            0 <= j < states.len() - 1 ==> states[j].wake_points_updated(
                states[j + 1],
                span_points,
                move_point,
                new_first_free_point,
                new_last_point,
            )
    }

    /// Initializes the shape and strength of the wake, with a length set by the wake building
    /// velocity and the time step, at the beginning of a simulation.
    ///
    /// All strengths are set to `zero_strength` and the velocity at every point to
    /// `wake_building_velocity`. The first row of points is moved onto the span points, and the
    /// wake points are then updated as in `update_wake_points` once for each row of points, so
    /// that the wake is streamed out to its full length. `move_point` streams a point with the
    /// stored velocity over one time step. At the end the panel data is rebuilt by `new_panel`.
    pub fn initialize_with_velocity_and_time_step<FS, FF, FL, FP>(
        &mut self,
        span_points: &[Point],
        zero_strength: Strength,
        wake_building_velocity: Point,
        move_point: &FS,
        new_first_free_point: &FF,
        new_last_point: &FL,
        new_panel: &FP,
    ) where
        FS: Fn(Point, Point, Point) -> Point,
        FF: Fn(usize, Point, Point) -> Point,
        FL: Fn(usize, Point, Option<Point>) -> Point,
        FP: Fn([Point; 4], usize) -> Panel,
        requires
            old(self).well_formed(),
            old(self).indices.nr_points_per_line_element >= 2 || old(self).indices.nr_points_along_span == 0,
            span_points@.len() <= old(self).points@.len(),
            forall|a: Point, b: Point, c: Point| #[trigger] move_point.requires((a, b, c)),
            forall|i: usize, a: Point, b: Point| #[trigger] new_first_free_point.requires((i, a, b)),
            forall|i: usize, a: Point, b: Option<Point>| #[trigger] new_last_point.requires((i, a, b)),
            forall|points: [Point; 4], panel_index: usize| #[trigger] new_panel.requires((points, panel_index)),
        ensures
            final(self).well_formed(),
            exists|states: Seq<Self>|
                #![trigger Self::is_wake_point_update_chain(states, span_points@, move_point, new_first_free_point, new_last_point)]
                states.len() == old(self).indices.nr_points_per_line_element + 1
                    && old(self).is_initial_state(states[0], span_points@, zero_strength, wake_building_velocity)
                    && Self::is_wake_point_update_chain(states, span_points@, move_point, new_first_free_point, new_last_point)
                    && states.last().panels_rebuilt(*final(self), new_panel),
            final(self).strengths@ == Seq::new(old(self).indices.nr_panels_spec() as nat, |i: int| zero_strength),
            final(self).velocity_at_points@ == Seq::new(old(self).points@.len(), |i: int| wake_building_velocity),
            final(self).indices == old(self).indices,
            final(self).wing_indices == old(self).wing_indices,
            final(self).number_of_time_steps_completed == old(self).number_of_time_steps_completed,
    {
        let ghost before = *self;
        let nr_panels = self.indices.nr_panels();
        self.strengths = filled_vec(zero_strength, nr_panels);
        self.velocity_at_points = filled_vec(wake_building_velocity, self.points.len());
        self.synchronize_first_points_to_wing_geometry(span_points);

        let ghost mut states: Seq<Self> = seq![*self];
        assert(before.is_initial_state(states[0], span_points@, zero_strength, wake_building_velocity));

        let nr_initial_time_steps = self.indices.nr_points_per_line_element;
        let mut step: usize = 0;
        while step < nr_initial_time_steps
            invariant
                self.well_formed(),
                0 <= step <= nr_initial_time_steps,
                nr_initial_time_steps == self.indices.nr_points_per_line_element,
                self.indices == before.indices,
                nr_initial_time_steps >= 2 || self.indices.nr_points_along_span == 0,
                span_points@.len() <= self.points@.len(),
                forall|a: Point, b: Point, c: Point| #[trigger] move_point.requires((a, b, c)),
                forall|i: usize, a: Point, b: Point| #[trigger] new_first_free_point.requires((i, a, b)),
                forall|i: usize, a: Point, b: Option<Point>| #[trigger] new_last_point.requires((i, a, b)),
                states.len() == step + 1,
                before.is_initial_state(states[0], span_points@, zero_strength, wake_building_velocity),
                Self::is_wake_point_update_chain(states, span_points@, move_point, new_first_free_point, new_last_point),
                states.last() == *self,
                self.strengths@ == Seq::new(before.indices.nr_panels_spec() as nat, |i: int| zero_strength),
                self.velocity_at_points@ == Seq::new(before.points@.len(), |i: int| wake_building_velocity),
                self.wing_indices == before.wing_indices,
                self.number_of_time_steps_completed == before.number_of_time_steps_completed,
            decreases nr_initial_time_steps - step,
        {
            let ghost previous_states = states;
            self.update_wake_points(span_points, move_point, new_first_free_point, new_last_point);
            proof {
                states = states.push(*self);
                assert forall|j: int| #![trigger states[j]]
                    0 <= j < states.len() - 1 implies states[j].wake_points_updated(
                        states[j + 1],
                        span_points@,
                        move_point,
                        new_first_free_point,
                        new_last_point,
                    ) by {
                    if j < previous_states.len() - 1 {
                        assert(previous_states[j] == states[j]);
                        assert(previous_states[j + 1] == states[j + 1]);
                    } else {
                        assert(states[j] == previous_states.last());
                    }
                }
            }
            step = step + 1;
        }

        self.update_panel_data(new_panel);
        assert(states.last().panels_rebuilt(*self, new_panel));
    }
}

} // verus!
