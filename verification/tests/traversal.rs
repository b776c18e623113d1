use simplex_core::grid::{
    buffer_index_2d, buffer_index_3d, lane_columns, stride_breakdown, traversal_2d, traversal_3d,
};

#[test]
fn grid_7x3_is_row_major() {
    let order = traversal_2d(7, 3);
    assert_eq!(order.len(), 21);
    for (n, &(x, y)) in order.iter().enumerate() {
        assert_eq!(x, n % 7);
        assert_eq!(y, n / 7);
    }
}

#[test]
fn grid_3d_single_row() {
    let order = traversal_3d(5, 1, 1);
    assert_eq!(order.len(), 5);
    for (n, &(x, y, z)) in order.iter().enumerate() {
        assert_eq!((x, y, z), (n, 0, 0));
    }
}

#[test]
fn traversal_3d_is_row_major() {
    let order = traversal_3d(2, 3, 4);
    assert_eq!(order.len(), 24);
    for (n, &(x, y, z)) in order.iter().enumerate() {
        assert_eq!(x, n % 2);
        assert_eq!(y, (n / 2) % 3);
        assert_eq!(z, n / 6);
    }
}

#[test]
fn traversal_zero_dimension_is_empty() {
    assert!(traversal_2d(0, 5).is_empty());
    assert!(traversal_2d(5, 0).is_empty());
    assert!(traversal_3d(4, 0, 2).is_empty());
    assert!(traversal_3d(0, 3, 3).is_empty());
    assert!(traversal_3d(4, 3, 0).is_empty());
}

#[test]
fn buffer_index_matches_traversal() {
    for (n, &(x, y)) in traversal_2d(7, 3).iter().enumerate() {
        assert_eq!(buffer_index_2d(x, y, 7), n);
    }
    for (n, &(x, y, z)) in traversal_3d(4, 3, 2).iter().enumerate() {
        assert_eq!(buffer_index_3d(x, y, z, 4, 3), n);
    }
}

#[test]
fn traversal_visits_each_point_exactly_once() {
    let order = traversal_2d(7, 3);
    for x in 0..7 {
        for y in 0..3 {
            let hits = order.iter().filter(|&&p| p == (x, y)).count();
            assert_eq!(hits, 1);
            assert_eq!(order[y * 7 + x], (x, y));
        }
    }
    let order = traversal_3d(4, 3, 2);
    for x in 0..4 {
        for y in 0..3 {
            for z in 0..2 {
                let hits = order.iter().filter(|&&p| p == (x, y, z)).count();
                assert_eq!(hits, 1);
                assert_eq!(order[(z * 3 + y) * 4 + x], (x, y, z));
            }
        }
    }
}

#[test]
fn stride_breakdown_covers_row() {
    assert_eq!(stride_breakdown(6, 4), (1, 2));
    assert_eq!(stride_breakdown(7, 4), (1, 3));
    assert_eq!(stride_breakdown(8, 4), (2, 0));
    assert_eq!(stride_breakdown(5, 1), (5, 0));
    assert_eq!(stride_breakdown(0, 4), (0, 0));
    assert_eq!(stride_breakdown(3, 8), (0, 3));
    for width in 0..40usize {
        for lane in [1usize, 4, 8] {
            let (full, rem) = stride_breakdown(width, lane);
            assert_eq!(full * lane + rem, width);
            assert!(rem < lane);
        }
    }
}

#[test]
fn lane_columns_identity_at_all_widths() {
    for width in [0usize, 1, 3, 4, 5, 6, 7, 8, 12, 13] {
        for lane in [1usize, 4, 8] {
            let cols = lane_columns(width, lane);
            assert_eq!(cols.len(), width);
            for (c, &col) in cols.iter().enumerate() {
                assert_eq!(col, c);
            }
        }
    }
}

#[test]
fn remainder_tail_matches_scalar_columns() {
    // width 6 at lane width 4: one full stride, then a two-column tail.
    let (full, rem) = stride_breakdown(6, 4);
    assert_eq!((full, rem), (1, 2));
    let wide = lane_columns(6, 4);
    let scalar = lane_columns(6, 1);
    assert_eq!(wide, scalar);
    assert_eq!(&wide[full * 4..], &[4, 5]);
}
