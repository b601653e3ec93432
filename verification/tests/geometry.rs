use circle_to_search::geometry::{LogicalPoint, PixelRegion, SelectionRect, MIN_SELECTION_UNITS, UNIT};

const ONE: i32 = 65536;

fn point(x: i32, y: i32) -> LogicalPoint {
    LogicalPoint { x, y }
}

fn units(x: i32, y: i32) -> LogicalPoint {
    LogicalPoint { x: x * ONE, y: y * ONE }
}

#[test]
fn unit_is_sixteen_fractional_bits() {
    assert_eq!(UNIT, 65536);
    assert_eq!(MIN_SELECTION_UNITS, 5);
}

#[test]
fn rect_keeps_its_corners() {
    let rect = SelectionRect::from_two_pos(units(110, 70), units(10, 20));
    assert_eq!(rect.start, units(110, 70));
    assert_eq!(rect.end, units(10, 20));
    assert_eq!(rect.min_x(), 10 * ONE);
    assert_eq!(rect.min_y(), 20 * ONE);
    assert_eq!(rect.width(), 100 * 65536);
    assert_eq!(rect.height(), 50 * 65536);
}

#[test]
fn pixels_at_scale_one() {
    let rect = SelectionRect::from_two_pos(units(10, 20), units(110, 70));
    assert_eq!(rect.to_pixels(UNIT), PixelRegion { x: 10, y: 20, width: 100, height: 50 });
}

#[test]
fn pixels_do_not_depend_on_drag_direction() {
    let forward = SelectionRect::from_two_pos(units(10, 20), units(110, 70));
    let backward = SelectionRect::from_two_pos(units(110, 70), units(10, 20));
    let mixed = SelectionRect::from_two_pos(units(110, 20), units(10, 70));
    assert_eq!(forward.to_pixels(UNIT), backward.to_pixels(UNIT));
    assert_eq!(forward.to_pixels(UNIT), mixed.to_pixels(UNIT));
}

#[test]
fn pixels_at_scale_one_and_a_half() {
    let rect = SelectionRect::from_two_pos(units(10, 20), units(110, 70));
    let scale = UNIT + UNIT / 2;
    assert_eq!(rect.to_pixels(scale), PixelRegion { x: 15, y: 30, width: 150, height: 75 });
}

#[test]
fn pixels_at_scale_two() {
    let rect = SelectionRect::from_two_pos(units(3, 4), units(8, 9));
    assert_eq!(rect.to_pixels(2 * UNIT), PixelRegion { x: 6, y: 8, width: 10, height: 10 });
}

#[test]
fn fraction_of_a_pixel_is_cut_off() {
    // 5 units at 1.25 are 6.25 pixels; 7 units at 1.25 are 8.75 pixels.
    let rect = SelectionRect::from_two_pos(units(0, 0), units(5, 7));
    let scale = UNIT + UNIT / 4;
    let region = rect.to_pixels(scale);
    assert_eq!(region.width, 6);
    assert_eq!(region.height, 8);
}

#[test]
fn half_a_unit_is_cut_off_not_rounded_up() {
    let rect = SelectionRect::from_two_pos(point(0, 0), point(5 * ONE + ONE / 2, 5 * ONE + ONE - 1));
    let region = rect.to_pixels(UNIT);
    assert_eq!(region.width, 5);
    assert_eq!(region.height, 5);
}

#[test]
fn position_left_of_origin_maps_to_zero() {
    let rect = SelectionRect::from_two_pos(units(-3, -1), units(7, 9));
    let region = rect.to_pixels(UNIT);
    assert_eq!(region, PixelRegion { x: 0, y: 0, width: 10, height: 10 });
}

#[test]
fn extreme_corners_do_not_overflow() {
    let rect = SelectionRect::from_two_pos(point(i32::MIN, i32::MIN), point(i32::MAX, i32::MAX));
    assert_eq!(rect.width(), u32::MAX);
    assert_eq!(rect.height(), u32::MAX);
    let region = rect.to_pixels(u32::MAX);
    // (2^32 - 1)^2 / 2^32 = 2^32 - 2
    assert_eq!(region.width, u32::MAX - 1);
    assert_eq!(region.height, u32::MAX - 1);
    assert_eq!(region.x, 0);
    assert_eq!(region.y, 0);
    let far = SelectionRect::from_two_pos(point(i32::MAX, i32::MAX), point(i32::MAX, i32::MAX));
    // (2^31 - 1) / 2^16 = 32767
    assert_eq!(far.to_pixels(UNIT), PixelRegion { x: 32767, y: 32767, width: 0, height: 0 });
}

#[test]
fn five_units_each_way_is_large_enough() {
    assert!(SelectionRect::from_two_pos(units(0, 0), units(5, 5)).is_large_enough());
    assert!(SelectionRect::from_two_pos(units(5, 5), units(0, 0)).is_large_enough());
    assert!(SelectionRect::from_two_pos(units(0, 0), units(500, 300)).is_large_enough());
}

#[test]
fn less_than_five_units_either_way_is_too_small() {
    assert!(!SelectionRect::from_two_pos(point(0, 0), point(5 * ONE - 1, 5 * ONE)).is_large_enough());
    assert!(!SelectionRect::from_two_pos(point(0, 0), point(5 * ONE, 5 * ONE - 1)).is_large_enough());
    assert!(!SelectionRect::from_two_pos(units(0, 0), units(100, 4)).is_large_enough());
    assert!(!SelectionRect::from_two_pos(units(0, 0), units(4, 100)).is_large_enough());
    assert!(!SelectionRect::from_two_pos(units(7, 7), units(7, 7)).is_large_enough());
}

#[test]
fn large_selection_is_not_empty_at_scale_of_a_fifth() {
    // 5 units at a scale of just over one fifth cover one pixel.
    let rect = SelectionRect::from_two_pos(units(0, 0), units(5, 5));
    let fifth = UNIT / 5 + 1;
    let region = rect.to_pixels(fifth);
    assert_eq!(region.width, 1);
    assert_eq!(region.height, 1);
    assert!(region.is_non_empty());
}

#[test]
fn large_selection_is_empty_at_scale_of_a_tenth() {
    let rect = SelectionRect::from_two_pos(units(0, 0), units(5, 5));
    let region = rect.to_pixels(UNIT / 10);
    assert_eq!(region.width, 0);
    assert!(!region.is_non_empty());
}

#[test]
fn region_with_one_empty_side_is_empty() {
    assert!(!PixelRegion { x: 0, y: 0, width: 0, height: 4 }.is_non_empty());
    assert!(!PixelRegion { x: 0, y: 0, width: 4, height: 0 }.is_non_empty());
    assert!(PixelRegion { x: 9, y: 9, width: 1, height: 1 }.is_non_empty());
}
