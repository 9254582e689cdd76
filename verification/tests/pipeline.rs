use solar_system::render::{assemble_triangles, orbit_segments, polyline_segments, trail_pixel_color};

#[test]
fn triangles_from_vertex_groups() {
    assert_eq!(assemble_triangles(0), vec![]);
    assert_eq!(assemble_triangles(2), vec![]);
    assert_eq!(assemble_triangles(3), vec![(0, 1, 2)]);
    assert_eq!(assemble_triangles(8), vec![(0, 1, 2), (3, 4, 5)]);
    assert_eq!(assemble_triangles(9).len(), 3);
    assert_eq!(assemble_triangles(9)[2], (6, 7, 8));
}

#[test]
fn orbit_outline_is_closed() {
    assert_eq!(orbit_segments(0), vec![]);
    assert_eq!(orbit_segments(1), vec![(0, 0)]);
    assert_eq!(orbit_segments(4), vec![(0, 1), (1, 2), (2, 3), (3, 0)]);
    let segs = orbit_segments(100);
    assert_eq!(segs.len(), 100);
    assert_eq!(segs[99], (99, 0));
}

#[test]
fn polyline_joins_consecutive_points() {
    assert_eq!(polyline_segments(1), vec![]);
    assert_eq!(polyline_segments(3), vec![(0, 1), (1, 2)]);
}

#[test]
fn trail_pixel_replaces_alpha() {
    assert_eq!(trail_pixel_color(0xFFFFA500, 0), 0x00FFA500);
    assert_eq!(trail_pixel_color(0xFF32CD32, 255), 0xFF32CD32);
    assert_eq!(trail_pixel_color(0x00123456, 0x80), 0x80123456);
    // only the low byte of the alpha fits: 510 << 24 keeps 0xFE
    assert_eq!(trail_pixel_color(0xFF123456, 510), 0xFE123456);
    let once = trail_pixel_color(0xAB112233, 7);
    assert_eq!(trail_pixel_color(once, 200), trail_pixel_color(0xAB112233, 200));
}
