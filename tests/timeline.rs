use video_catalog::timeline::{
    clamp_position, display_dimensions, media_duration_micros, pacing_delay_micros, position_at,
    preview_dimensions, scrub_grid_cell, seek_target_micros, ticks_as_micros, POSITION_ONE,
};

#[test]
fn clamp_position_limits_to_unit_range() {
    assert_eq!(clamp_position(-500_000), 0);
    assert_eq!(clamp_position(1_700_000), POSITION_ONE);
    assert_eq!(clamp_position(250_000), 250_000);
}

#[test]
fn seek_target_is_fraction_of_duration() {
    assert_eq!(seek_target_micros(10_000_000, 500_000), 5_000_000);
    assert_eq!(seek_target_micros(10_000_000, 0), 0);
    assert_eq!(seek_target_micros(10_000_000, POSITION_ONE), 10_000_000);
    assert_eq!(seek_target_micros(0, 300_000), 0);
    assert_eq!(seek_target_micros(3, 500_000), 1);
}

#[test]
fn seek_target_clamps_out_of_range_positions() {
    assert_eq!(seek_target_micros(10_000_000, -500_000), seek_target_micros(10_000_000, 0));
    assert_eq!(
        seek_target_micros(10_000_000, 1_700_000),
        seek_target_micros(10_000_000, POSITION_ONE)
    );
    assert_eq!(seek_target_micros(i64::MAX, i64::MAX), i64::MAX);
}

#[test]
fn scrub_grid_rounds_to_nearest_hundredth() {
    assert_eq!(scrub_grid_cell(0), 0);
    assert_eq!(scrub_grid_cell(4_999), 0);
    assert_eq!(scrub_grid_cell(5_000), 1);
    assert_eq!(scrub_grid_cell(123_456), 12);
    assert_eq!(scrub_grid_cell(POSITION_ONE), 100);
    assert_eq!(scrub_grid_cell(-5_000), -1);
    assert_eq!(scrub_grid_cell(-4_999), 0);
    assert_eq!(scrub_grid_cell(i64::MIN), -922_337_203_685_478);
}

#[test]
fn preview_keeps_aspect_ratio() {
    assert_eq!(preview_dimensions(1920, 1080), Some((320, 180)));
    assert_eq!(preview_dimensions(640, 480), Some((320, 240)));
    assert_eq!(preview_dimensions(1000, 333), Some((320, 106)));
    assert_eq!(preview_dimensions(0, 480), None);
    assert_eq!(preview_dimensions(1, u32::MAX), None);
}

#[test]
fn display_size_is_capped_at_1280_columns() {
    assert_eq!(display_dimensions(3840, 2160), Some((1280, 720)));
    assert_eq!(display_dimensions(640, 480), Some((640, 480)));
    assert_eq!(display_dimensions(1280, 1024), Some((1280, 1024)));
    assert_eq!(display_dimensions(0, 10), None);
}

#[test]
fn duration_prefers_container_then_stream() {
    assert_eq!(media_duration_micros(12_500_000, 0, 1, 90_000), 12_500_000);
    assert_eq!(media_duration_micros(0, 900_000, 1, 90_000), 10_000_000);
    assert_eq!(media_duration_micros(-1, 300, 1, 30), 10_000_000);
    assert_eq!(media_duration_micros(0, 0, 1, 90_000), 0);
    assert_eq!(media_duration_micros(0, 900_000, 0, 90_000), 0);
    assert_eq!(media_duration_micros(0, i64::MAX, i32::MAX, 1), i64::MAX);
}

#[test]
fn ticks_convert_toward_zero() {
    assert_eq!(ticks_as_micros(3_003, 1, 30_000), 100_100);
    assert_eq!(ticks_as_micros(-3_003, 1, 30_000), -100_100);
    assert_eq!(ticks_as_micros(1, 1, 3), 333_333);
    assert_eq!(ticks_as_micros(-1, 1, 3), -333_333);
    assert_eq!(ticks_as_micros(5, 1, -3), 0);
    assert_eq!(ticks_as_micros(i64::MIN, i32::MAX, 1), i64::MIN);
}

#[test]
fn pacing_sleeps_off_the_rest_of_the_interval() {
    assert_eq!(pacing_delay_micros(0), 33_333);
    assert_eq!(pacing_delay_micros(10_000), 23_333);
    assert_eq!(pacing_delay_micros(33_333), 0);
    assert_eq!(pacing_delay_micros(50_000), 0);
}

#[test]
fn position_is_fraction_of_duration_within_unit_range() {
    assert_eq!(position_at(2_500_000, 10_000_000), 250_000);
    assert_eq!(position_at(-1, 10_000_000), 0);
    assert_eq!(position_at(20_000_000, 10_000_000), POSITION_ONE);
    assert_eq!(position_at(5, 0), 0);
}
