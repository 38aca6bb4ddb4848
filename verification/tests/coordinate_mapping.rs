use wayeyes::mapping::{
    map_cursor_coordinates, transformed_buffer_size, GlobalPosition, OutputGeometry,
    OutputTransform, Scale, StreamGeometry,
};

/// The floating-point coordinates of a global position, computed the way
/// the backends do: `origin + offset * (numerator / denominator)`.
fn to_point(position: GlobalPosition) -> (f64, f64) {
    let axis = |a: wayeyes::mapping::AxisPosition| {
        f64::from(a.origin)
            + f64::from(a.offset) * (a.scale.numerator as f64 / a.scale.denominator as f64)
    };
    (axis(position.x), axis(position.y))
}

fn assert_point_close(actual: (f64, f64), expected: (f64, f64)) {
    assert!((actual.0 - expected.0).abs() < 1e-9, "x: {actual:?}");
    assert!((actual.1 - expected.1).abs() < 1e-9, "y: {actual:?}");
}

#[test]
fn maps_fractionally_scaled_output_into_logical_coordinates() {
    let point = map_cursor_coordinates(
        (-1600, 100),
        Some((1600, 900)),
        Some((2560, 1440)),
        OutputTransform::Normal,
        1280,
        720,
    );

    assert_point_close(to_point(point), (-800.0, 550.0));
}

#[test]
fn rotated_output_uses_transformed_buffer_dimensions() {
    let point = map_cursor_coordinates(
        (300, -200),
        Some((720, 1280)),
        Some((1920, 1080)),
        OutputTransform::Rotate90,
        540,
        960,
    );

    assert_point_close(to_point(point), (660.0, 440.0));
}

#[test]
fn flipped_rotated_output_also_swaps_axes() {
    assert_eq!(
        transformed_buffer_size(2560, 1440, OutputTransform::Flipped270),
        (1440, 2560)
    );
}

#[test]
fn falls_back_to_unscaled_coordinates_until_metadata_arrives() {
    let point = map_cursor_coordinates(
        (-500, 25),
        Some((1600, 900)),
        None,
        OutputTransform::Normal,
        200,
        100,
    );

    assert_point_close(to_point(point), (-300.0, 125.0));
}

#[test]
fn half_turns_keep_the_buffer_axes() {
    for transform in [
        OutputTransform::Normal,
        OutputTransform::Rotate180,
        OutputTransform::Flipped,
        OutputTransform::Flipped180,
    ] {
        assert_eq!(transformed_buffer_size(1920, 1080, transform), (1920, 1080));
    }
    for transform in [OutputTransform::Rotate90, OutputTransform::Rotate270, OutputTransform::Flipped90] {
        assert_eq!(transformed_buffer_size(1920, 1080, transform), (1080, 1920));
    }
}

#[test]
fn scale_is_logical_size_over_transformed_buffer() {
    let point = map_cursor_coordinates((0, 0), Some((720, 1280)), Some((1920, 1080)), OutputTransform::Rotate270, 1, 2);
    assert_eq!(point.x.scale, Scale { numerator: 720, denominator: 1080 });
    assert_eq!(point.y.scale, Scale { numerator: 1280, denominator: 1920 });
}

#[test]
fn non_positive_sizes_leave_positions_unscaled() {
    let point = map_cursor_coordinates((10, 20), Some((0, 900)), Some((2560, 1440)), OutputTransform::Normal, 7, 8);
    assert_eq!(point.x.scale, Scale { numerator: 1, denominator: 1 });
    assert_point_close(to_point(point), (17.0, 28.0));
    let point = map_cursor_coordinates((10, 20), Some((1600, 900)), Some((2560, 0)), OutputTransform::Normal, 7, 8);
    assert_point_close(to_point(point), (17.0, 28.0));
}

#[test]
fn output_origin_prefers_logical_position() {
    let mut geometry = OutputGeometry::new();
    assert_eq!(geometry.origin(), (0, 0));
    geometry.wl_origin = Some((1920, 0));
    assert_eq!(geometry.origin(), (1920, 0));
    geometry.logical_origin = Some((1280, 0));
    assert_eq!(geometry.origin(), (1280, 0));
}

#[test]
fn output_maps_cursor_through_its_geometry() {
    let mut geometry = OutputGeometry::new();
    geometry.logical_origin = Some((-1600, 100));
    geometry.logical_size = Some((1600, 900));
    geometry.buffer_size = Some((2560, 1440));
    assert_point_close(to_point(geometry.map_cursor(1280, 720)), (-800.0, 550.0));
    assert_point_close(to_point(geometry.map_cursor(2560, 1440)), (0.0, 1000.0));
}

#[test]
fn stream_scales_video_pixels_to_compositor_size() {
    let stream = StreamGeometry::new(Some((1920, 0)), Some((1280, 720)));
    let point = stream.global_cursor(2560, 1440, 1280, 720).unwrap();
    assert_point_close(to_point(point), (2560.0, 360.0));
}

#[test]
fn stream_without_position_starts_at_desktop_origin() {
    let stream = StreamGeometry::new(None, None);
    assert_eq!(stream.origin, (0, 0));
    let point = stream.global_cursor(1920, 1080, 100, 50).unwrap();
    assert_point_close(to_point(point), (100.0, 50.0));
}

#[test]
fn stream_drops_cursor_outside_video() {
    let stream = StreamGeometry::new(Some((0, 0)), Some((1920, 1080)));
    assert!(stream.global_cursor(1920, 1080, 1920, 10).is_none());
    assert!(stream.global_cursor(1920, 1080, 10, -1).is_none());
    assert!(stream.global_cursor(u32::MAX, 1080, 10, 10).is_none());
    assert!(stream.global_cursor(1920, 1080, 1919, 1079).is_some());
}

#[test]
fn stream_before_format_negotiation_is_unscaled() {
    let stream = StreamGeometry::new(Some((5, 6)), Some((1920, 1080)));
    let point = stream.global_cursor(0, 0, 5000, -3).unwrap();
    assert_eq!(point.x.scale, Scale { numerator: 1, denominator: 1 });
    assert_point_close(to_point(point), (5005.0, 3.0));
}
