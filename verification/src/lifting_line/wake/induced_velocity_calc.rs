//! Index logic of the induced velocity calculation: which panels act on which points, and which
//! corner points and panel data go into the induced velocity of a single panel.

use vstd::prelude::*;

use crate::lifting_line::wake::dynamic_wake::Wake;
use crate::lifting_line::wake::indices::lemma_panel_indices_cover_the_panels;
use crate::lifting_line::wake::dynamic_wake::lemma_first_wing_is_unique;
use crate::line_force_model::wing_indices::{is_first_wing_containing, lemma_every_line_has_one_wing, range_contains};

verus! {

impl<Point, Strength, Panel> Wake<Point, Strength, Panel> {
    /// The corner points of the panel at the given indices, in the order of `panel_point_indices`.
    pub open spec fn corner_points(self, stream_index: int, span_index: int) -> Seq<Point> {
        Seq::new(4, |corner: int| self.points@[self.corner_point_index(stream_index, span_index, corner)])
    }

    /// `velocity` is a result of `induced_velocity_with_unit_strength` on the corner points and the
    /// panel data of the panel at `stream_index`, `span_index`, the point and `off_body`.
    pub open spec fn is_unit_strength_velocity<Velocity, F: Fn(&[Point; 4], &Panel, Point, bool) -> Velocity>(
        self,
        induced_velocity_with_unit_strength: &F,
        stream_index: int,
        span_index: int,
        point: Point,
        off_body: bool,
        velocity: Velocity,
    ) -> bool {
        exists|panel_points: [Point; 4]|
            panel_points@ == self.corner_points(stream_index, span_index)
                && #[trigger] induced_velocity_with_unit_strength.ensures(
                (
                    &panel_points,
                    &self.panels@[self.indices.panel_index_spec(stream_index, span_index)],
                    point,
                    off_body,
                ),
                velocity,
            )
    }

    /// The panel with flat index `panel_index` acts on the control point `point_index`: always
    /// when self-induced velocities are kept, and otherwise only when the panel lies behind
    /// another wing than the point.
    pub open spec fn panel_acts_on_point(self, panel_index: int, point_index: int, neglect_self_induced: bool) -> bool {
        !neglect_self_induced || self.wing_of(panel_index % (self.indices.nr_panels_along_span as int))
            != self.wing_of(point_index)
    }

    /// Returns whether the panel with flat index `panel_index` contributes to the induced velocity
    /// at the control point with index `point_index`. With `neglect_self_induced`, the panels
    /// behind the wing that the point belongs to are left out.
    pub fn panel_induces_velocity_at(&self, panel_index: usize, point_index: usize, neglect_self_induced: bool) -> (acts: bool)
        requires
            self.well_formed(),
            panel_index < self.indices.nr_panels_spec(),
            point_index < self.indices.nr_panels_along_span,
        ensures
            acts == self.panel_acts_on_point(panel_index as int, point_index as int, neglect_self_induced),
    {
        if neglect_self_induced {
            proof {
                lemma_panel_indices_cover_the_panels(self.indices, 0, 0, panel_index as int);
            }
            let (_stream_index, span_index) = self.indices.reverse_panel_index(panel_index);
            proof {
                lemma_every_line_has_one_wing(self.wing_indices@, span_index as int);
                lemma_every_line_has_one_wing(self.wing_indices@, point_index as int);
            }
            let wing_index_panel = self.wing_index(span_index);
            let wing_index_point = self.wing_index(point_index);
            wing_index_panel != wing_index_point
        } else {
            true
        }
    }

    /// Returns how many of the first wake points get the induced velocity added to their velocity:
    /// the setting `end_index_induced_velocities_on_wake`, at most the number of points, and none
    /// before more than two time steps have been completed.
    pub fn induced_velocity_end_index(&self, end_index_induced_velocities_on_wake: usize) -> (end_index: usize)
        ensures
            end_index == induced_velocity_end_index_spec(
                end_index_induced_velocities_on_wake as int,
                self.points@.len() as int,
                self.number_of_time_steps_completed as int,
            ),
    {
        let end_index = if end_index_induced_velocities_on_wake < self.points.len() {
            end_index_induced_velocities_on_wake
        } else {
            self.points.len()
        };
        if end_index > 0 && self.number_of_time_steps_completed > 2 {
            end_index
        } else {
            0
        }
    }
}

/// The number of leading wake points whose velocity includes the induced velocity: the smaller of
/// the setting and the number of points, once more than two time steps have been completed, and
/// zero before.
pub open spec fn induced_velocity_end_index_spec(setting: int, nr_points: int, nr_time_steps_completed: int) -> int {
    let end_index = if setting < nr_points { setting } else { nr_points };
    if end_index > 0 && nr_time_steps_completed > 2 {
        end_index
    } else {
        0
    }
}

impl<Point: Copy, Strength, Panel> Wake<Point, Strength, Panel> {
    /// Calculates the induced velocity from a single panel at the input point with unit strength.
    ///
    /// The corner points of the panel and its panel data are handed to
    /// `induced_velocity_with_unit_strength`, together with the point and `off_body`.
    pub fn unit_strength_induced_velocity_from_panel<Velocity, F>(
        &self,
        stream_index: usize,
        span_index: usize,
        point: Point,
        off_body: bool,
        induced_velocity_with_unit_strength: &F,
    ) -> (velocity: Velocity) where F: Fn(&[Point; 4], &Panel, Point, bool) -> Velocity
        requires
            self.well_formed(),
            stream_index < self.indices.nr_panels_per_line_element,
            span_index < self.indices.nr_panels_along_span,
            forall|points: &[Point; 4], panel: &Panel, p: Point, b: bool|
                #[trigger] induced_velocity_with_unit_strength.requires((points, panel, p, b)),
        ensures
            self.is_unit_strength_velocity(
                induced_velocity_with_unit_strength,
                stream_index as int,
                span_index as int,
                point,
                off_body,
                velocity,
            ),
    {
        proof {
            lemma_panel_indices_cover_the_panels(self.indices, stream_index as int, span_index as int, 0);
        }
        let panel_index = self.indices.panel_index(stream_index, span_index);
        let panel_points = self.panel_points(stream_index, span_index);
        assert(panel_points@ =~= self.corner_points(stream_index as int, span_index as int));
        induced_velocity_with_unit_strength(&panel_points, &self.panels[panel_index], point, off_body)
    }

    /// Calculates the induced velocity from a single panel, given by its flat index, at the input
    /// point with unit strength.
    pub fn unit_strength_induced_velocity_from_panel_flat_index<Velocity, F>(
        &self,
        panel_index: usize,
        point: Point,
        off_body: bool,
        induced_velocity_with_unit_strength: &F,
    ) -> (velocity: Velocity) where F: Fn(&[Point; 4], &Panel, Point, bool) -> Velocity
        requires
            self.well_formed(),
            panel_index < self.indices.nr_panels_spec(),
            forall|points: &[Point; 4], panel: &Panel, p: Point, b: bool|
                #[trigger] induced_velocity_with_unit_strength.requires((points, panel, p, b)),
        ensures
            self.is_unit_strength_velocity(
                induced_velocity_with_unit_strength,
                panel_index as int / (self.indices.nr_panels_along_span as int),
                panel_index as int % (self.indices.nr_panels_along_span as int),
                point,
                off_body,
                velocity,
            ),
    {
        proof {
            lemma_panel_indices_cover_the_panels(self.indices, 0, 0, panel_index as int);
            crate::lifting_line::wake::indices::lemma_panel_index_undoes_reverse_panel_index(self.indices, panel_index as int);
        }
        let (stream_index, span_index) = self.indices.reverse_panel_index(panel_index);
        self.unit_strength_induced_velocity_from_panel(
            stream_index,
            span_index,
            point,
            off_body,
            induced_velocity_with_unit_strength,
        )
    }
}

/// The velocity model gives one result for each argument.
pub open spec fn gives_one_velocity<Point, Panel, Velocity, F: Fn(&[Point; 4], &Panel, Point, bool) -> Velocity>(
    induced_velocity_with_unit_strength: &F,
) -> bool {
    forall|points: &[Point; 4], panel: &Panel, point: Point, off_body: bool, v1: Velocity, v2: Velocity|
        #![trigger induced_velocity_with_unit_strength.ensures((points, panel, point, off_body), v1),
            induced_velocity_with_unit_strength.ensures((points, panel, point, off_body), v2)]
        induced_velocity_with_unit_strength.ensures((points, panel, point, off_body), v1)
            && induced_velocity_with_unit_strength.ensures((points, panel, point, off_body), v2) ==> v1 == v2
}

/// The unit-strength velocity of a panel does not depend on the strengths stored in the wake: two
/// wakes with the same indices, points, panel data and wings, whatever their strengths, allow the
/// same velocities for every panel, and the same velocity where the velocity model gives one
/// result for each argument.
pub proof fn lemma_unit_strength_velocity_ignores_strengths<Point, Strength, Panel, Velocity, F>(
    w1: Wake<Point, Strength, Panel>,
    w2: Wake<Point, Strength, Panel>,
    induced_velocity_with_unit_strength: &F,
    stream_index: int,
    span_index: int,
    point: Point,
    off_body: bool,
    velocity1: Velocity,
    velocity2: Velocity,
) where F: Fn(&[Point; 4], &Panel, Point, bool) -> Velocity
    requires
        w1.indices == w2.indices,
        w1.points@ == w2.points@,
        w1.panels@ == w2.panels@,
        w1.wing_indices@ == w2.wing_indices@,
    ensures
        w1.is_unit_strength_velocity(induced_velocity_with_unit_strength, stream_index, span_index, point, off_body, velocity1)
            <==> w2.is_unit_strength_velocity(induced_velocity_with_unit_strength, stream_index, span_index, point, off_body, velocity1),
        gives_one_velocity(induced_velocity_with_unit_strength)
            && w1.is_unit_strength_velocity(induced_velocity_with_unit_strength, stream_index, span_index, point, off_body, velocity1)
            && w2.is_unit_strength_velocity(induced_velocity_with_unit_strength, stream_index, span_index, point, off_body, velocity2)
            ==> velocity1 == velocity2,
{
    assert(w1.corner_points(stream_index, span_index) =~= w2.corner_points(stream_index, span_index));
    if gives_one_velocity(induced_velocity_with_unit_strength)
        && w1.is_unit_strength_velocity(induced_velocity_with_unit_strength, stream_index, span_index, point, off_body, velocity1)
        && w2.is_unit_strength_velocity(induced_velocity_with_unit_strength, stream_index, span_index, point, off_body, velocity2) {
        lemma_unit_strength_velocity_is_unique(
            w1, induced_velocity_with_unit_strength, stream_index, span_index, point, off_body, velocity1, velocity2);
    }
}

/// Where the velocity model gives one result for each argument, a panel has one unit-strength
/// velocity at a point.
pub proof fn lemma_unit_strength_velocity_is_unique<Point, Strength, Panel, Velocity, F>(
    wake: Wake<Point, Strength, Panel>,
    induced_velocity_with_unit_strength: &F,
    stream_index: int,
    span_index: int,
    point: Point,
    off_body: bool,
    velocity1: Velocity,
    velocity2: Velocity,
) where F: Fn(&[Point; 4], &Panel, Point, bool) -> Velocity
    requires
        gives_one_velocity(induced_velocity_with_unit_strength),
        wake.is_unit_strength_velocity(induced_velocity_with_unit_strength, stream_index, span_index, point, off_body, velocity1),
        wake.is_unit_strength_velocity(induced_velocity_with_unit_strength, stream_index, span_index, point, off_body, velocity2),
    ensures
        velocity1 == velocity2,
{
    let panel = wake.panels@[wake.indices.panel_index_spec(stream_index, span_index)];
    let points1 = choose|panel_points: [Point; 4]|
        panel_points@ == wake.corner_points(stream_index, span_index)
            && #[trigger] induced_velocity_with_unit_strength.ensures((&panel_points, &panel, point, off_body), velocity1);
    let points2 = choose|panel_points: [Point; 4]|
        panel_points@ == wake.corner_points(stream_index, span_index)
            && #[trigger] induced_velocity_with_unit_strength.ensures((&panel_points, &panel, point, off_body), velocity2);
    assert(points1 =~= points2);
    assert(induced_velocity_with_unit_strength.ensures((&points1, &panel, point, off_body), velocity2));
}

/// The unit-strength velocity of the panel at flat index `panel_index(s, j)` is the unit-strength
/// velocity of the panel at `s`, `j`: `unit_strength_induced_velocity_from_panel_flat_index` and
/// `unit_strength_induced_velocity_from_panel` allow the same velocities, and give the same one
/// where the velocity model gives one result for each argument.
pub proof fn lemma_flat_index_velocity_is_panel_velocity<Point, Strength, Panel, Velocity, F>(
    wake: Wake<Point, Strength, Panel>,
    induced_velocity_with_unit_strength: &F,
    stream_index: int,
    span_index: int,
    point: Point,
    off_body: bool,
    velocity1: Velocity,
    velocity2: Velocity,
) where F: Fn(&[Point; 4], &Panel, Point, bool) -> Velocity
    requires
        0 <= stream_index < wake.indices.nr_panels_per_line_element,
        0 <= span_index < wake.indices.nr_panels_along_span,
    ensures
        ({
            let flat = wake.indices.panel_index_spec(stream_index, span_index);
            let along = wake.indices.nr_panels_along_span as int;
            &&& flat / along == stream_index
            &&& flat % along == span_index
            &&& wake.is_unit_strength_velocity(induced_velocity_with_unit_strength, flat / along, flat % along, point, off_body, velocity1)
                <==> wake.is_unit_strength_velocity(induced_velocity_with_unit_strength, stream_index, span_index, point, off_body, velocity1)
            &&& gives_one_velocity(induced_velocity_with_unit_strength)
                && wake.is_unit_strength_velocity(induced_velocity_with_unit_strength, flat / along, flat % along, point, off_body, velocity1)
                && wake.is_unit_strength_velocity(induced_velocity_with_unit_strength, stream_index, span_index, point, off_body, velocity2)
                ==> velocity1 == velocity2
        }),
{
    crate::lifting_line::wake::indices::lemma_reverse_panel_index_undoes_panel_index(wake.indices, stream_index, span_index);
    let flat = wake.indices.panel_index_spec(stream_index, span_index);
    let along = wake.indices.nr_panels_along_span as int;
    if gives_one_velocity(induced_velocity_with_unit_strength)
        && wake.is_unit_strength_velocity(induced_velocity_with_unit_strength, flat / along, flat % along, point, off_body, velocity1)
        && wake.is_unit_strength_velocity(induced_velocity_with_unit_strength, stream_index, span_index, point, off_body, velocity2) {
        lemma_unit_strength_velocity_is_unique(
            wake, induced_velocity_with_unit_strength, stream_index, span_index, point, off_body, velocity1, velocity2);
    }
}

/// With self-induced velocities neglected, a panel acts on a control point exactly when the wing
/// that holds the span line behind which the panel lies does not hold the point; without
/// neglecting them, every panel acts on every point. Any wing `wing` that holds the panel's span
/// line decides it.
pub proof fn lemma_panel_acts_on_points_of_other_wings<Point, Strength, Panel>(
    wake: Wake<Point, Strength, Panel>,
    panel_index: int,
    point_index: int,
    neglect_self_induced: bool,
    wing: int,
)
    requires
        wake.well_formed(),
        0 <= panel_index < wake.indices.nr_panels_spec(),
        0 <= point_index < wake.indices.nr_panels_along_span,
        0 <= wing < wake.wing_indices@.len(),
        range_contains(wake.wing_indices@[wing], panel_index % (wake.indices.nr_panels_along_span as int)),
    ensures
        wake.panel_acts_on_point(panel_index, point_index, neglect_self_induced) == (!neglect_self_induced
            || !range_contains(wake.wing_indices@[wing], point_index)),
{
    let wings = wake.wing_indices@;
    let span_index = panel_index % (wake.indices.nr_panels_along_span as int);
    lemma_panel_indices_cover_the_panels(wake.indices, 0, 0, panel_index);
    lemma_every_line_has_one_wing(wings, span_index);
    lemma_every_line_has_one_wing(wings, point_index);
    lemma_first_wing_is_unique(wings, wing, wake.wing_of(span_index), span_index);
    let point_wing = choose|k: int| 0 <= k < wings.len() && range_contains(#[trigger] wings[k], point_index);
    assert(0 <= point_wing < wings.len() && range_contains(wings[point_wing], point_index));
    lemma_first_wing_is_unique(wings, point_wing, wake.wing_of(point_index), point_index);
    assert(wake.wing_of(span_index) == wing);
    assert(wake.wing_of(point_index) == point_wing);
    if range_contains(wings[wing], point_index) {
        lemma_first_wing_is_unique(wings, wing, point_wing, point_index);
        assert(wing == point_wing);
    } else {
        assert(wing != point_wing);
    }
}

/// Whether a panel behind span line `a` acts on the control point of span line `b` is the same as
/// whether a panel behind span line `b` acts on the control point of span line `a`, in any rows of
/// the wake: the wings act on each other alike.
pub proof fn lemma_panel_action_is_symmetric<Point, Strength, Panel>(
    wake: Wake<Point, Strength, Panel>,
    stream_index_a: int,
    stream_index_b: int,
    a: int,
    b: int,
    neglect_self_induced: bool,
)
    requires
        wake.well_formed(),
        0 <= stream_index_a < wake.indices.nr_panels_per_line_element,
        0 <= stream_index_b < wake.indices.nr_panels_per_line_element,
        0 <= a < wake.indices.nr_panels_along_span,
        0 <= b < wake.indices.nr_panels_along_span,
    ensures
        wake.panel_acts_on_point(wake.indices.panel_index_spec(stream_index_a, a), b, neglect_self_induced)
            == wake.panel_acts_on_point(wake.indices.panel_index_spec(stream_index_b, b), a, neglect_self_induced),
{
    let wings = wake.wing_indices@;
    let n = wake.indices.nr_panels_along_span as int;
    let pa = wake.indices.panel_index_spec(stream_index_a, a);
    let pb = wake.indices.panel_index_spec(stream_index_b, b);
    lemma_panel_indices_cover_the_panels(wake.indices, stream_index_a, a, 0);
    lemma_panel_indices_cover_the_panels(wake.indices, stream_index_b, b, 0);
    crate::lifting_line::wake::indices::lemma_reverse_panel_index_undoes_panel_index(wake.indices, stream_index_a, a);
    crate::lifting_line::wake::indices::lemma_reverse_panel_index_undoes_panel_index(wake.indices, stream_index_b, b);
    lemma_every_line_has_one_wing(wings, a);
    lemma_every_line_has_one_wing(wings, b);
    let wing_a = choose|k: int| 0 <= k < wings.len() && range_contains(#[trigger] wings[k], a);
    let wing_b = choose|k: int| 0 <= k < wings.len() && range_contains(#[trigger] wings[k], b);
    assert(0 <= wing_a < wings.len() && range_contains(wings[wing_a], a));
    assert(0 <= wing_b < wings.len() && range_contains(wings[wing_b], b));
    lemma_panel_acts_on_points_of_other_wings(wake, pa, b, neglect_self_induced, wing_a);
    lemma_panel_acts_on_points_of_other_wings(wake, pb, a, neglect_self_induced, wing_b);
    if range_contains(wings[wing_a], b) {
        lemma_first_wing_is_unique(wings, wing_a, wing_b, b);
    }
    if range_contains(wings[wing_b], a) {
        lemma_first_wing_is_unique(wings, wing_b, wing_a, a);
    }
}

/// Induced velocities are added to the wake points only after more than two completed time steps,
/// and then to the first `setting` points, at most all of them.
pub proof fn lemma_induced_velocity_end_index(setting: int, nr_points: int, nr_time_steps_completed: int)
    requires
        setting >= 0,
        nr_points >= 0,
    ensures
        nr_time_steps_completed <= 2 ==> induced_velocity_end_index_spec(setting, nr_points, nr_time_steps_completed) == 0,
        nr_time_steps_completed > 2 && setting <= nr_points ==> induced_velocity_end_index_spec(
            setting,
            nr_points,
            nr_time_steps_completed,
        ) == setting,
        nr_time_steps_completed > 2 && nr_points <= setting ==> induced_velocity_end_index_spec(
            setting,
            nr_points,
            nr_time_steps_completed,
        ) == nr_points,
{
}

/// The corners of the panel at row `s` behind span line `j` of wing `wing`: going around the
/// panel, the points `j + wing` and `j + wing + 1` of point row `s`, then the points
/// `j + wing + 1` and `j + wing` of point row `s + 1`. Each wing thus has its own column of points
/// at its far end, one more per wing than there are span lines.
pub proof fn lemma_corners_of_a_panel<Point, Strength, Panel>(
    wake: Wake<Point, Strength, Panel>,
    stream_index: int,
    span_index: int,
    wing: int,
)
    requires
        wake.well_formed(),
        0 <= stream_index < wake.indices.nr_panels_per_line_element,
        0 <= span_index < wake.indices.nr_panels_along_span,
        0 <= wing < wake.wing_indices@.len(),
        range_contains(wake.wing_indices@[wing], span_index),
    ensures
        wake.corner_point_index(stream_index, span_index, 0) == wake.indices.point_index_spec(stream_index, span_index + wing),
        wake.corner_point_index(stream_index, span_index, 1) == wake.indices.point_index_spec(stream_index, span_index + wing + 1),
        wake.corner_point_index(stream_index, span_index, 2) == wake.indices.point_index_spec(stream_index + 1, span_index + wing + 1),
        wake.corner_point_index(stream_index, span_index, 3) == wake.indices.point_index_spec(stream_index + 1, span_index + wing),
        wake.corner_points(stream_index, span_index) == seq![
            wake.points@[wake.indices.point_index_spec(stream_index, span_index + wing)],
            wake.points@[wake.indices.point_index_spec(stream_index, span_index + wing + 1)],
            wake.points@[wake.indices.point_index_spec(stream_index + 1, span_index + wing + 1)],
            wake.points@[wake.indices.point_index_spec(stream_index + 1, span_index + wing)],
        ],
{
    assert(is_first_wing_containing(wake.wing_indices@, wing, span_index)) by {
        lemma_every_line_has_one_wing(wake.wing_indices@, span_index);
    }
    lemma_first_wing_is_unique(wake.wing_indices@, wing, wake.wing_of(span_index), span_index);
    assert(wake.wing_of(span_index) == wing);
    let corners = wake.corner_points(stream_index, span_index);
    assert(corners[0] == wake.points@[wake.corner_point_index(stream_index, span_index, 0)]);
    assert(corners[1] == wake.points@[wake.corner_point_index(stream_index, span_index, 1)]);
    assert(corners[2] == wake.points@[wake.corner_point_index(stream_index, span_index, 2)]);
    assert(corners[3] == wake.points@[wake.corner_point_index(stream_index, span_index, 3)]);
    assert(corners =~= seq![
        wake.points@[wake.indices.point_index_spec(stream_index, span_index + wing)],
        wake.points@[wake.indices.point_index_spec(stream_index, span_index + wing + 1)],
        wake.points@[wake.indices.point_index_spec(stream_index + 1, span_index + wing + 1)],
        wake.points@[wake.indices.point_index_spec(stream_index + 1, span_index + wing)],
    ]);
}

/// The unit-strength velocity of the panel with flat index `f` is the velocity model applied to
/// the corner points of that panel and to the panel data stored at index `f`.
pub proof fn lemma_flat_index_velocity_uses_the_panel_data_at_that_index<Point, Strength, Panel, Velocity, F>(
    wake: Wake<Point, Strength, Panel>,
    induced_velocity_with_unit_strength: &F,
    panel_index: int,
    point: Point,
    off_body: bool,
    velocity: Velocity,
) where F: Fn(&[Point; 4], &Panel, Point, bool) -> Velocity
    requires
        wake.well_formed(),
        0 <= panel_index < wake.indices.nr_panels_spec(),
        wake.is_unit_strength_velocity(
            induced_velocity_with_unit_strength,
            panel_index / (wake.indices.nr_panels_along_span as int),
            panel_index % (wake.indices.nr_panels_along_span as int),
            point,
            off_body,
            velocity,
        ),
    ensures
        exists|panel_points: [Point; 4]|
            panel_points@ == wake.corner_points(
                panel_index / (wake.indices.nr_panels_along_span as int),
                panel_index % (wake.indices.nr_panels_along_span as int),
            ) && #[trigger] induced_velocity_with_unit_strength.ensures(
                (&panel_points, &wake.panels@[panel_index], point, off_body),
                velocity,
            ),
{
    lemma_panel_indices_cover_the_panels(wake.indices, 0, 0, panel_index);
    crate::lifting_line::wake::indices::lemma_panel_index_undoes_reverse_panel_index(wake.indices, panel_index);
}

} // verus!
