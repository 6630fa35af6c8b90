use std::ops::Range;

use stormbird::lifting_line::wake::dynamic_wake::Wake;

type Point = [f64; 3];

/// Two wings: the first with two span lines, the second with one. Each row of points holds
/// 3 + 2 = 5 points.
fn example_wake(nr_panels_per_line_element: usize) -> Wake<Point, f64, usize> {
    let wing_indices: Vec<Range<usize>> = vec![0..2, 2..3];
    let span_points: Vec<Point> = vec![
        [0.0, 0.0, 0.0],
        [0.0, 1.0, 0.0],
        [0.0, 2.0, 0.0],
        [5.0, 0.0, 0.0],
        [5.0, 1.0, 0.0],
    ];
    Wake::new(wing_indices, &span_points, nr_panels_per_line_element, [1.0, 0.0, 0.0], 0.0, 0)
}

#[test]
fn new_wake_repeats_span_points_downstream() {
    let wake = example_wake(2);
    assert_eq!(wake.indices.nr_points_along_span, 5);
    assert_eq!(wake.indices.nr_panels_along_span, 3);
    assert_eq!(wake.indices.nr_points_per_line_element, 3);
    assert_eq!(wake.points.len(), 15);
    assert_eq!(wake.strengths, vec![0.0; 6]);
    assert_eq!(wake.panels, vec![0; 6]);
    assert_eq!(wake.velocity_at_points, vec![[1.0, 0.0, 0.0]; 15]);
    for (flat_index, point) in wake.points.iter().enumerate() {
        assert_eq!(*point, wake.points[flat_index % 5]);
    }
    assert_eq!(wake.number_of_time_steps_completed, 0);
}

#[test]
fn wing_index_of_span_lines() {
    let wake = example_wake(2);
    assert_eq!(wake.wing_index(0), 0);
    assert_eq!(wake.wing_index(1), 0);
    assert_eq!(wake.wing_index(2), 1);
}

#[test]
fn panel_point_indices_skip_between_wings() {
    let wake = example_wake(2);
    assert_eq!(wake.panel_point_indices(0, 0), [0, 1, 6, 5]);
    assert_eq!(wake.panel_point_indices(0, 1), [1, 2, 7, 6]);
    // The panel behind the second wing starts one point further along the row.
    assert_eq!(wake.panel_point_indices(0, 2), [3, 4, 9, 8]);
    assert_eq!(wake.panel_point_indices(1, 2), [8, 9, 14, 13]);
}

#[test]
fn consecutive_panels_share_an_edge() {
    let wake = example_wake(3);
    for span_index in 0..3 {
        let front = wake.panel_point_indices(0, span_index);
        let back = wake.panel_point_indices(1, span_index);
        assert_eq!(front[3], back[0]);
        assert_eq!(front[2], back[1]);
    }
}

#[test]
fn wakes_of_different_wings_share_no_point() {
    let wake = example_wake(3);
    let first_wing: Vec<usize> = (0..3).flat_map(|s| {
        let a = wake.panel_point_indices(s, 0);
        let b = wake.panel_point_indices(s, 1);
        a.into_iter().chain(b)
    }).collect();
    for s in 0..3 {
        for index in wake.panel_point_indices(s, 2) {
            assert!(!first_wing.contains(&index));
        }
    }
}

#[test]
fn panel_points_are_the_corner_points() {
    let mut wake = example_wake(1);
    wake.points[6] = [1.0, 1.0, 0.0];
    let points = wake.panel_points(0, 1);
    assert_eq!(points, [[0.0, 1.0, 0.0], [0.0, 2.0, 0.0], [0.0, 2.0, 0.0], [1.0, 1.0, 0.0]]);
}

#[test]
fn strength_streams_downstream() {
    let mut wake = example_wake(3);
    wake.strengths = vec![1.0, 2.0, 3.0, 4.0, 5.0, 6.0, 7.0, 8.0, 9.0];
    wake.stream_strength_values_downstream();
    assert_eq!(wake.strengths, vec![1.0, 2.0, 3.0, 1.0, 2.0, 3.0, 4.0, 5.0, 6.0]);
}

#[test]
fn strength_after_time_step_is_strength_of_panel_in_front() {
    let mut wake = example_wake(3);
    wake.strengths = vec![1.0, 2.0, 3.0, 4.0, 5.0, 6.0, 7.0, 8.0, 9.0];
    let old_strengths = wake.strengths.clone();
    wake.stream_strength_values_downstream();
    wake.update_wing_strength(&[10.0, 20.0, 30.0]);
    assert_eq!(wake.strengths, vec![10.0, 20.0, 30.0, 1.0, 2.0, 3.0, 4.0, 5.0, 6.0]);
    for stream_index in 1..3 {
        for span_index in 0..3 {
            let current = wake.indices.panel_index(stream_index, span_index);
            let previous = wake.indices.panel_index(stream_index - 1, span_index);
            assert_eq!(wake.strengths[current], old_strengths[previous]);
        }
    }
}

#[test]
fn update_wing_strength_sets_first_panels_only() {
    let mut wake = example_wake(2);
    wake.strengths = vec![1.0; 6];
    wake.update_wing_strength(&[2.0, 3.0]);
    assert_eq!(wake.strengths, vec![2.0, 3.0, 1.0, 1.0, 1.0, 1.0]);
}

#[test]
fn synchronize_first_points_moves_first_row() {
    let mut wake = example_wake(1);
    let moved: Vec<Point> = (0..5).map(|i| [0.5, i as f64, 0.0]).collect();
    wake.synchronize_first_points_to_wing_geometry(&moved);
    assert_eq!(&wake.points[0..5], &moved[..]);
    assert_eq!(wake.points[5], [0.0, 0.0, 0.0]);
}

#[test]
fn update_panel_data_builds_each_panel_from_its_corners() {
    let mut wake = example_wake(2);
    for (flat_index, point) in wake.points.iter_mut().enumerate() {
        point[2] = flat_index as f64;
    }
    let new_panel = |points: [Point; 4], panel_index: usize| -> usize {
        points.iter().map(|p| p[2] as usize).sum::<usize>() * 100 + panel_index
    };
    wake.update_panel_data(&new_panel);
    // Panel 2 is behind the second wing: corners 3, 4, 9, 8.
    assert_eq!(wake.panels[2], (3 + 4 + 9 + 8) * 100 + 2);
    // Panel 3 is the first panel of the second row: corners 5, 6, 11, 10.
    assert_eq!(wake.panels[3], (5 + 6 + 11 + 10) * 100 + 3);
}

#[test]
fn unit_strength_velocity_uses_corners_and_panel_data() {
    let mut wake = example_wake(2);
    wake.panels = vec![10, 11, 12, 13, 14, 15];
    let influence = |points: &[Point; 4], panel: &usize, point: Point, off_body: bool| -> f64 {
        let offset = if off_body { 1000.0 } else { 0.0 };
        points[0][0] + points[2][1] + *panel as f64 + point[2] + offset
    };
    let velocity = wake.unit_strength_induced_velocity_from_panel(1, 2, [0.0, 0.0, 0.25], true, &influence);
    // Corner 0 is point 8 = (5, 0, 0), corner 2 is point 14 = (5, 1, 0), panel 5.
    assert_eq!(velocity, 5.0 + 1.0 + 15.0 + 0.25 + 1000.0);
    let from_flat = wake.unit_strength_induced_velocity_from_panel_flat_index(5, [0.0, 0.0, 0.25], true, &influence);
    assert_eq!(from_flat, velocity);
}

#[test]
fn free_wake_points_stream_with_stored_velocity() {
    let mut wake = example_wake(3);
    let time_step = 0.5;
    let move_point = |previous: Point, velocity: Point, _current: Point| -> Point {
        [
            previous[0] + time_step * velocity[0],
            previous[1] + time_step * velocity[1],
            previous[2] + time_step * velocity[2],
        ]
    };
    let old_points = wake.points.clone();
    wake.stream_free_wake_points_based_on_stored_velocity(&move_point);
    assert_eq!(&wake.points[0..10], &old_points[0..10]);
    for flat_index in 10..20 {
        let expected = move_point(old_points[flat_index - 5], [1.0, 0.0, 0.0], old_points[flat_index]);
        assert_eq!(wake.points[flat_index], expected);
    }
}

#[test]
fn induced_velocity_end_index_waits_for_time_steps() {
    let mut wake = example_wake(2);
    assert_eq!(wake.induced_velocity_end_index(7), 0);
    wake.number_of_time_steps_completed = 3;
    assert_eq!(wake.induced_velocity_end_index(7), 7);
    assert_eq!(wake.induced_velocity_end_index(100), 15);
    assert_eq!(wake.induced_velocity_end_index(0), 0);
}

#[test]
fn self_induced_panels_can_be_neglected() {
    let wake = example_wake(2);
    // Panel 4 lies behind span line 1, of the first wing.
    assert!(wake.panel_induces_velocity_at(4, 0, false));
    assert!(!wake.panel_induces_velocity_at(4, 0, true));
    assert!(wake.panel_induces_velocity_at(4, 2, true));
    assert!(!wake.panel_induces_velocity_at(5, 2, true));
}

#[test]
fn all_panel_point_indices_for_export() {
    let wake = example_wake(2);
    let all = wake.panel_point_indices_of_all_panels();
    assert_eq!(all.len(), 6);
    for (flat_index, indices) in all.iter().enumerate() {
        let (stream_index, span_index) = wake.indices.reverse_panel_index(flat_index);
        assert_eq!(*indices, wake.panel_point_indices(stream_index, span_index));
    }
    assert_eq!(all[5], [8, 9, 14, 13]);
}

#[test]
fn first_free_points_move_from_the_wing_points() {
    let mut wake = example_wake(2);
    let old_points = wake.points.clone();
    let new_point = |i: usize, wing_point: Point, old_point: Point| -> Point {
        [wing_point[0] + 1.0, wing_point[1], old_point[2] + i as f64]
    };
    wake.move_first_free_wake_points(&new_point);
    for i in 0..5 {
        assert_eq!(wake.points[5 + i], new_point(i, old_points[i], old_points[5 + i]));
    }
    assert_eq!(&wake.points[0..5], &old_points[0..5]);
    assert_eq!(&wake.points[10..15], &old_points[10..15]);
}

#[test]
fn last_points_move_from_the_row_in_front() {
    let mut wake = example_wake(2);
    for (flat_index, point) in wake.points.iter_mut().enumerate() {
        point[0] = flat_index as f64;
    }
    let old_points = wake.points.clone();
    let new_last_point = |_i: usize, previous: Point, second_previous: Option<Point>| -> Point {
        let second = second_previous.expect("two panels per line element");
        [2.0 * previous[0] - second[0], previous[1], previous[2]]
    };
    wake.move_last_wake_points(&new_last_point);
    for i in 0..5 {
        assert_eq!(wake.points[10 + i][0], 2.0 * old_points[5 + i][0] - old_points[i][0]);
    }
    assert_eq!(&wake.points[0..10], &old_points[0..10]);
}

#[test]
fn last_points_of_single_panel_wake_have_no_second_previous_point() {
    let mut wake = example_wake(1);
    let new_last_point = |i: usize, previous: Point, second_previous: Option<Point>| -> Point {
        assert!(second_previous.is_none());
        [previous[0] + 10.0, previous[1], i as f64]
    };
    wake.move_last_wake_points(&new_last_point);
    assert_eq!(wake.points[5], [10.0, 0.0, 0.0]);
    assert_eq!(wake.points[9], [15.0, 1.0, 4.0]);
}

#[test]
fn unit_strength_velocity_does_not_depend_on_strengths() {
    let mut wake = example_wake(2);
    wake.panels = vec![10, 11, 12, 13, 14, 15];
    let influence = |points: &[Point; 4], panel: &usize, point: Point, off_body: bool| -> f64 {
        let offset = if off_body { 1000.0 } else { 0.0 };
        points[1][0] + points[3][1] + *panel as f64 + point[0] + offset
    };
    let before = wake.unit_strength_induced_velocity_from_panel(1, 0, [0.5, 0.0, 0.0], false, &influence);
    wake.strengths = vec![3.0, -1.0, 7.5, 2.0, 0.25, 9.0];
    let after = wake.unit_strength_induced_velocity_from_panel(1, 0, [0.5, 0.0, 0.0], false, &influence);
    assert_eq!(before, after);
    // Corner 1 is point 6 = (0, 1, 0), corner 3 is point 10 = (0, 0, 0), panel 3.
    assert_eq!(after, 0.0 + 0.0 + 13.0 + 0.5);
}

#[test]
fn flat_index_velocity_is_panel_velocity_for_every_panel() {
    let mut wake = example_wake(3);
    for (flat_index, point) in wake.points.iter_mut().enumerate() {
        point[1] = flat_index as f64;
    }
    wake.panels = (0..9).map(|i| 100 + i).collect();
    let influence = |points: &[Point; 4], panel: &usize, point: Point, off_body: bool| -> f64 {
        let corners: f64 = points.iter().map(|p| p[1]).sum();
        corners * 1000.0 + *panel as f64 + point[2] + if off_body { 0.5 } else { 0.0 }
    };
    for stream_index in 0..3 {
        for span_index in 0..3 {
            let flat_index = wake.indices.panel_index(stream_index, span_index);
            let from_panel = wake.unit_strength_induced_velocity_from_panel(stream_index, span_index, [0.0, 0.0, 2.0], true, &influence);
            let from_flat = wake.unit_strength_induced_velocity_from_panel_flat_index(flat_index, [0.0, 0.0, 2.0], true, &influence);
            assert_eq!(from_flat, from_panel);
        }
    }
    // Panel 8 (row 2, behind the second wing) has the corners 13, 14, 19, 18.
    let last = wake.unit_strength_induced_velocity_from_panel_flat_index(8, [0.0, 0.0, 2.0], true, &influence);
    assert_eq!(last, (13.0 + 14.0 + 19.0 + 18.0) * 1000.0 + 108.0 + 2.0 + 0.5);
}

fn shifted_x(previous: Point, velocity: Point, _current: Point) -> Point {
    [previous[0] + 0.5 * velocity[0], previous[1] + 0.5 * velocity[1], previous[2] + 0.5 * velocity[2]]
}

#[test]
fn update_wake_points_runs_the_four_steps_in_order() {
    let mut wake = example_wake(3);
    let span_points: Vec<Point> = (0..5).map(|i| [0.0, i as f64, 1.0]).collect();
    let new_first_free_point = |_i: usize, wing_point: Point, _old_point: Point| -> Point {
        [wing_point[0] + 0.25, wing_point[1], wing_point[2]]
    };
    let new_last_point = |_i: usize, previous: Point, second_previous: Option<Point>| -> Point {
        let second = second_previous.expect("three panels per line element");
        [2.0 * previous[0] - second[0], previous[1], previous[2]]
    };
    let old_points = wake.points.clone();
    wake.update_wake_points(&span_points, &shifted_x, &new_first_free_point, &new_last_point);

    // First row on the span points, second row moved from them.
    assert_eq!(&wake.points[0..5], &span_points[..]);
    for i in 0..5 {
        assert_eq!(wake.points[5 + i], [0.25, i as f64, 1.0]);
    }
    // Third row streamed from the old second row with the stored velocity (1, 0, 0).
    for i in 0..5 {
        assert_eq!(wake.points[10 + i], shifted_x(old_points[5 + i], [1.0, 0.0, 0.0], old_points[10 + i]));
    }
    // Last row continues the direction of the two rows in front of it.
    for i in 0..5 {
        assert_eq!(wake.points[15 + i][0], 2.0 * wake.points[10 + i][0] - wake.points[5 + i][0]);
    }
}

#[test]
fn update_before_solving_rebuilds_panels_and_streams_strengths() {
    let mut wake = example_wake(2);
    wake.strengths = vec![1.0, 2.0, 3.0, 4.0, 5.0, 6.0];
    let span_points: Vec<Point> = (0..5).map(|i| [0.0, i as f64, 0.0]).collect();
    let new_first_free_point = |i: usize, wing_point: Point, _old_point: Point| -> Point {
        [wing_point[0] + 1.0, wing_point[1], i as f64]
    };
    let new_last_point = |_i: usize, previous: Point, _second_previous: Option<Point>| -> Point {
        [previous[0] + 1.0, previous[1], previous[2]]
    };
    let new_panel = |points: [Point; 4], panel_index: usize| -> usize {
        (points[0][0] + points[2][0]) as usize * 100 + panel_index
    };
    wake.update_before_solving(&span_points, &shifted_x, &new_first_free_point, &new_last_point, &new_panel);

    assert_eq!(wake.strengths, vec![1.0, 2.0, 3.0, 1.0, 2.0, 3.0]);
    assert_eq!(&wake.points[0..5], &span_points[..]);
    // Rows at x = 0, 1 and 2: the panels of the first row span x = 0 to 1, of the second 1 to 2.
    assert_eq!(wake.panels, vec![100, 101, 102, 303, 304, 305]);
    assert_eq!(wake.number_of_time_steps_completed, 0);
}

#[test]
fn update_after_solving_sets_strengths_velocity_and_counter() {
    let mut wake = example_wake(2);
    wake.strengths = vec![1.0; 6];
    let velocity_at_wake_points = |w: &Wake<Point, f64, usize>| -> Vec<Point> {
        // The velocity sees the new strengths and the counter before the increment.
        w.points.iter().map(|p| [w.strengths[0], p[1], w.number_of_time_steps_completed as f64]).collect()
    };
    wake.update_after_solving(&[4.0, 5.0, 6.0], &velocity_at_wake_points);
    assert_eq!(wake.strengths, vec![4.0, 5.0, 6.0, 1.0, 1.0, 1.0]);
    assert_eq!(wake.number_of_time_steps_completed, 1);
    assert_eq!(wake.velocity_at_points.len(), 15);
    assert_eq!(wake.velocity_at_points[6], [4.0, 1.0, 0.0]);

    wake.update_after_solving(&[7.0], &velocity_at_wake_points);
    assert_eq!(wake.number_of_time_steps_completed, 2);
    assert_eq!(wake.velocity_at_points[0], [7.0, 0.0, 1.0]);
}

#[test]
fn update_velocity_at_points_keeps_the_counter() {
    let mut wake = example_wake(1);
    wake.number_of_time_steps_completed = 4;
    let velocity_at_wake_points = |w: &Wake<Point, f64, usize>| -> Vec<Point> {
        vec![[w.number_of_time_steps_completed as f64, 0.0, 0.0]; w.points.len()]
    };
    wake.update_velocity_at_points(&velocity_at_wake_points);
    assert_eq!(wake.velocity_at_points, vec![[4.0, 0.0, 0.0]; 10]);
    assert_eq!(wake.number_of_time_steps_completed, 4);
}

#[test]
fn initialize_streams_the_wake_out_to_full_length() {
    let mut wake = example_wake(2);
    wake.strengths = vec![9.0; 6];
    let span_points: Vec<Point> = (0..5).map(|i| [0.0, i as f64, 0.0]).collect();
    let new_first_free_point = |_i: usize, wing_point: Point, _old_point: Point| -> Point {
        [wing_point[0] + 1.0, wing_point[1], wing_point[2]]
    };
    let new_last_point = |_i: usize, previous: Point, second_previous: Option<Point>| -> Point {
        let second = second_previous.expect("two panels per line element");
        [2.0 * previous[0] - second[0], previous[1], previous[2]]
    };
    let new_panel = |points: [Point; 4], panel_index: usize| -> usize {
        (points[2][0] - points[0][0]) as usize * 100 + panel_index
    };
    wake.initialize_with_velocity_and_time_step(
        &span_points,
        0.0,
        [2.0, 0.0, 0.0],
        &shifted_x,
        &new_first_free_point,
        &new_last_point,
        &new_panel,
    );
    assert_eq!(wake.strengths, vec![0.0; 6]);
    assert_eq!(wake.velocity_at_points, vec![[2.0, 0.0, 0.0]; 15]);
    for i in 0..5 {
        assert_eq!(wake.points[i], [0.0, i as f64, 0.0]);
        assert_eq!(wake.points[5 + i], [1.0, i as f64, 0.0]);
        assert_eq!(wake.points[10 + i], [2.0, i as f64, 0.0]);
    }
    // Every panel spans one unit downstream.
    assert_eq!(wake.panels, vec![100, 101, 102, 103, 104, 105]);
}

#[test]
fn time_step_streams_strengths_once_and_sets_the_first_row() {
    let mut wake = example_wake(3);
    wake.strengths = vec![1.0, 2.0, 3.0, 4.0, 5.0, 6.0, 7.0, 8.0, 9.0];
    let span_points: Vec<Point> = (0..5).map(|i| [0.0, i as f64, 0.0]).collect();
    let keep_first_free = |_i: usize, _wing_point: Point, old_point: Point| -> Point { old_point };
    let keep_last = |_i: usize, previous: Point, _second_previous: Option<Point>| -> Point { previous };
    let new_panel = |_points: [Point; 4], panel_index: usize| -> usize { panel_index };
    let velocity = |w: &Wake<Point, f64, usize>| -> Vec<Point> { w.points.clone() };

    wake.update_before_solving(&span_points, &shifted_x, &keep_first_free, &keep_last, &new_panel);
    wake.update_after_solving(&[10.0, 20.0, 30.0], &velocity);

    assert_eq!(wake.strengths, vec![10.0, 20.0, 30.0, 1.0, 2.0, 3.0, 4.0, 5.0, 6.0]);
    assert_eq!(wake.number_of_time_steps_completed, 1);
    assert_eq!(wake.velocity_at_points, wake.points);
}

#[test]
fn wake_without_wings_can_be_initialized_and_updated() {
    let mut wake: Wake<Point, f64, usize> = Wake::new(Vec::new(), &[], 0, [1.0, 0.0, 0.0], 0.0, 0);
    assert_eq!(wake.indices.nr_points_along_span, 0);
    assert_eq!(wake.indices.nr_points_per_line_element, 1);
    let new_first_free_point = |_i: usize, wing_point: Point, _old_point: Point| -> Point { wing_point };
    let new_last_point = |_i: usize, previous: Point, _second_previous: Option<Point>| -> Point { previous };
    let new_panel = |_points: [Point; 4], panel_index: usize| -> usize { panel_index };
    wake.initialize_with_velocity_and_time_step(
        &[],
        0.0,
        [2.0, 0.0, 0.0],
        &shifted_x,
        &new_first_free_point,
        &new_last_point,
        &new_panel,
    );
    wake.update_before_solving(&[], &shifted_x, &new_first_free_point, &new_last_point, &new_panel);
    assert!(wake.points.is_empty());
    assert!(wake.strengths.is_empty());
    assert!(wake.panels.is_empty());
}
