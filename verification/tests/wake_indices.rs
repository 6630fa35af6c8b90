use stormbird::lifting_line::wake::indices::WakeIndices;

fn example_indices() -> WakeIndices {
    WakeIndices::new(4, 6, 3)
}

#[test]
fn new_indices_have_one_more_point_row_than_panel_rows() {
    let indices = example_indices();
    assert_eq!(indices.nr_panels_along_span, 4);
    assert_eq!(indices.nr_points_along_span, 6);
    assert_eq!(indices.nr_panels_per_line_element, 3);
    assert_eq!(indices.nr_points_per_line_element, 4);
}

#[test]
fn panel_index_is_stream_wise_major() {
    let indices = example_indices();
    assert_eq!(indices.panel_index(0, 0), 0);
    assert_eq!(indices.panel_index(0, 3), 3);
    assert_eq!(indices.panel_index(1, 0), 4);
    assert_eq!(indices.panel_index(2, 3), 11);
}

#[test]
fn reverse_panel_index_splits_flat_index() {
    let indices = example_indices();
    assert_eq!(indices.reverse_panel_index(0), (0, 0));
    assert_eq!(indices.reverse_panel_index(5), (1, 1));
    assert_eq!(indices.reverse_panel_index(11), (2, 3));
}

#[test]
fn reverse_panel_index_undoes_panel_index() {
    let indices = example_indices();
    for stream_index in 0..indices.nr_panels_per_line_element {
        for span_index in 0..indices.nr_panels_along_span {
            let flat_index = indices.panel_index(stream_index, span_index);
            assert!(flat_index < indices.nr_panels());
            assert_eq!(indices.reverse_panel_index(flat_index), (stream_index, span_index));
        }
    }
    for flat_index in 0..indices.nr_panels() {
        let (stream_index, span_index) = indices.reverse_panel_index(flat_index);
        assert_eq!(indices.panel_index(stream_index, span_index), flat_index);
    }
}

#[test]
fn point_index_is_stream_wise_major() {
    let indices = example_indices();
    assert_eq!(indices.point_index(0, 5), 5);
    assert_eq!(indices.point_index(1, 0), 6);
    assert_eq!(indices.point_index(3, 5), 23);
    assert_eq!(indices.point_index(3, 5), indices.nr_points() - 1);
}

#[test]
fn totals_are_products() {
    let indices = example_indices();
    assert_eq!(indices.nr_panels(), 12);
    assert_eq!(indices.nr_points(), 24);
}

#[test]
fn empty_wake_has_no_panels() {
    let indices = WakeIndices::new(4, 6, 0);
    assert_eq!(indices.nr_panels(), 0);
    assert_eq!(indices.nr_points(), 6);
}
