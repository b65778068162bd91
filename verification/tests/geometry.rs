use rts_core::circle::Circle;
use rts_core::draw::{Color, DrawCommand};
use rts_core::fixed::{intervals_meet, max, min, saturate, UNITS_PER_PIXEL};
use rts_core::rect::Rect;
use rts_core::vec2::Vec2;

fn rect(cx: i64, cy: i64, hx: i64, hy: i64) -> Rect {
    Rect::new(Vec2::new(cx, cy), Vec2::new(hx, hy))
}

#[test]
fn min_and_max_pick_the_right_argument() {
    assert_eq!(min(3, 7), 3);
    assert_eq!(min(7, 3), 3);
    assert_eq!(min(-2, -2), -2);
    assert_eq!(max(3, 7), 7);
    assert_eq!(max(7, 3), 7);
    assert_eq!(max(i64::MIN, i64::MAX), i64::MAX);
}

#[test]
fn saturate_clamps_at_both_ends() {
    assert_eq!(saturate(0), 0);
    assert_eq!(saturate(-17), -17);
    assert_eq!(saturate(i64::MAX as i128), i64::MAX);
    assert_eq!(saturate(i64::MAX as i128 + 1), i64::MAX);
    assert_eq!(saturate(i64::MIN as i128 - 1), i64::MIN);
    assert_eq!(saturate(i128::MAX), i64::MAX);
    assert_eq!(saturate(i128::MIN), i64::MIN);
}

#[test]
fn intervals_meet_counts_touching() {
    assert!(intervals_meet(0, 2, 5, 3));
    assert!(intervals_meet(5, 3, 0, 2));
    assert!(!intervals_meet(0, 2, 6, 3));
    assert!(!intervals_meet(i64::MIN, i64::MAX, i64::MAX, i64::MAX));
    assert!(intervals_meet(i64::MIN, i64::MAX, i64::MAX - 1, i64::MAX));
    assert!(!intervals_meet(i64::MIN, 0, i64::MAX, 0));
}

#[test]
fn vec2_from_pixels_scales_by_the_unit() {
    assert_eq!(UNITS_PER_PIXEL, 65536);
    assert_eq!(Vec2::from_pixels(50, 150), Vec2::new(3_276_800, 9_830_400));
    assert_eq!(Vec2::from_pixels(-1, 0), Vec2::new(-65536, 0));
    assert_eq!(Vec2::from_pixels(i32::MAX, i32::MIN), Vec2::new(140_737_488_289_792, -140_737_488_355_328));
    assert_eq!(Vec2::zero(), Vec2::new(0, 0));
}

#[test]
fn vec2_min_and_max_work_by_component() {
    let a = Vec2::new(1, 9);
    let b = Vec2::new(4, -3);
    assert_eq!(a.min(b), Vec2::new(1, -3));
    assert_eq!(a.max(b), Vec2::new(4, 9));
    assert_eq!(b.min(a), Vec2::new(1, -3));
}

#[test]
fn vec2_sums_and_differences_saturate() {
    let a = Vec2::new(10, -20);
    let b = Vec2::new(3, 4);
    assert_eq!(a.saturating_add(b), Vec2::new(13, -16));
    assert_eq!(a.saturating_sub(b), Vec2::new(7, -24));
    let far = Vec2::new(i64::MAX, i64::MIN);
    assert_eq!(far.saturating_add(Vec2::new(1, -1)), far);
    assert_eq!(far.saturating_sub(Vec2::new(-1, 1)), far);
    assert_eq!(Vec2::new(i64::MIN, 0).saturating_sub(Vec2::new(i64::MAX, 0)), Vec2::new(i64::MIN, 0));
}

#[test]
fn rect_new_keeps_its_arguments() {
    let r = Rect::new(Vec2::new(3, 4), Vec2::new(5, 6));
    assert_eq!(r.center_position, Vec2::new(3, 4));
    assert_eq!(r.half_extents, Vec2::new(5, 6));
}

#[test]
fn from_points_gives_center_and_half_extents() {
    let r = Rect::from_points(Vec2::new(10, 3), Vec2::new(2, 9));
    assert_eq!(r.center_position, Vec2::new(6, 6));
    assert_eq!(r.half_extents, Vec2::new(4, 3));
    assert_eq!(r.min_point(), Vec2::new(2, 3));
    assert_eq!(r.max_point(), Vec2::new(10, 9));
    assert_eq!(r.extents(), Vec2::new(8, 6));
}

#[test]
fn from_points_is_order_independent() {
    let points = [
        (Vec2::new(0, 0), Vec2::new(5, 3)),
        (Vec2::new(-7, 12), Vec2::new(9, -4)),
        (Vec2::new(i64::MIN, i64::MAX), Vec2::new(i64::MAX, i64::MIN)),
        (Vec2::new(4, 4), Vec2::new(4, 4)),
    ];
    for (p1, p2) in points {
        assert_eq!(Rect::from_points(p1, p2), Rect::from_points(p2, p1));
    }
}

#[test]
fn from_points_rounds_half_extents_down() {
    let r = Rect::from_points(Vec2::new(5, 3), Vec2::new(0, 0));
    assert_eq!(r.half_extents, Vec2::new(2, 1));
    assert_eq!(r.center_position, Vec2::new(2, 1));
    assert_eq!(r.min_point(), Vec2::new(0, 0));
    assert_eq!(r.max_point(), Vec2::new(4, 2));
    let negative = Rect::from_points(Vec2::new(-5, -3), Vec2::new(0, 0));
    assert_eq!(negative.half_extents, Vec2::new(2, 1));
    assert_eq!(negative.center_position, Vec2::new(-3, -2));
}

#[test]
fn from_points_of_one_point_is_that_point() {
    let r = Rect::from_points(Vec2::new(7, -2), Vec2::new(7, -2));
    assert_eq!(r.center_position, Vec2::new(7, -2));
    assert_eq!(r.half_extents, Vec2::new(0, 0));
}

#[test]
fn from_points_spans_the_whole_range() {
    let r = Rect::from_points(Vec2::new(i64::MIN, i64::MIN), Vec2::new(i64::MAX, i64::MAX));
    assert_eq!(r.half_extents, Vec2::new(i64::MAX, i64::MAX));
    assert_eq!(r.center_position, Vec2::new(-1, -1));
    assert_eq!(r.extents(), Vec2::new(i64::MAX, i64::MAX));
    assert_eq!(r.min_point(), Vec2::new(i64::MIN, i64::MIN));
}

#[test]
fn overlap_is_symmetric() {
    let rects = [
        rect(0, 0, 2, 2),
        rect(3, 0, 1, 1),
        rect(10, 10, 1, 1),
        rect(-4, 5, 3, 0),
        rect(0, 0, 0, 0),
        rect(i64::MAX, i64::MIN, i64::MAX, 0),
    ];
    for a in rects {
        for b in rects {
            assert_eq!(a.do_rectangles_collide(b), b.do_rectangles_collide(a));
        }
    }
}

#[test]
fn rect_overlaps_itself() {
    for r in [rect(0, 0, 0, 0), rect(5, -5, 3, 9), rect(i64::MIN, i64::MAX, i64::MAX, i64::MAX)] {
        assert!(r.do_rectangles_collide(r));
    }
}

#[test]
fn rects_that_share_an_edge_overlap() {
    let a = rect(0, 0, 2, 2);
    assert!(a.do_rectangles_collide(rect(4, 0, 2, 2)));
    assert!(a.do_rectangles_collide(rect(-4, 0, 2, 2)));
    assert!(a.do_rectangles_collide(rect(0, 4, 2, 2)));
    assert!(a.do_rectangles_collide(rect(0, -4, 2, 2)));
    assert!(a.do_rectangles_collide(rect(4, 4, 2, 2)));
    assert!(!a.do_rectangles_collide(rect(5, 0, 2, 2)));
    assert!(!a.do_rectangles_collide(rect(0, 5, 2, 2)));
    assert!(!a.do_rectangles_collide(rect(4, 5, 2, 2)));
}

#[test]
fn rect_inside_another_overlaps_it() {
    let outer = rect(0, 0, 10, 10);
    let inner = rect(3, -2, 1, 1);
    assert!(outer.do_rectangles_collide(inner));
    assert!(inner.do_rectangles_collide(outer));
}

#[test]
fn rect_overlap_needs_both_axes() {
    let a = rect(0, 0, 2, 2);
    assert!(!a.do_rectangles_collide(rect(0, 100, 2, 2)));
    assert!(!a.do_rectangles_collide(rect(100, 0, 2, 2)));
}

#[test]
fn rect_corners_saturate() {
    let r = rect(i64::MAX - 1, i64::MIN + 1, 5, 5);
    assert_eq!(r.max_point(), Vec2::new(i64::MAX, i64::MIN + 6));
    assert_eq!(r.min_point(), Vec2::new(i64::MAX - 6, i64::MIN));
    assert_eq!(rect(0, 0, i64::MAX, 3).extents(), Vec2::new(i64::MAX, 6));
}

#[test]
fn rect_draw_is_a_white_square_of_its_height() {
    let r = rect(10, 20, 3, 4);
    assert_eq!(
        r.draw(),
        DrawCommand::Rectangle { position: Vec2::new(7, 16), size: Vec2::new(8, 8), color: Color::White }
    );
}

#[test]
fn circle_new_stores_the_radius_twice() {
    let c = Circle::new(Vec2::new(1, 2), 5);
    assert_eq!(c.center_position, Vec2::new(1, 2));
    assert_eq!(c.radius, Vec2::new(5, 5));
}

#[test]
fn circle_collides_like_its_square() {
    let c = Circle::new(Vec2::new(0, 0), 5);
    assert!(c.does_circle_collide_rect(rect(7, 0, 2, 2)));
    assert!(!c.does_circle_collide_rect(rect(8, 0, 2, 2)));
    assert!(c.does_circle_collide_rect(rect(0, -7, 2, 2)));
    // The corner of the square lies outside the disc, and counts all the same.
    assert!(c.does_circle_collide_rect(rect(7, 7, 2, 2)));
    assert!(!c.does_circle_collide_rect(rect(7, 8, 2, 2)));
}

#[test]
fn circle_of_radius_zero_is_a_point() {
    let c = Circle::new(Vec2::new(3, 3), 0);
    assert!(c.does_circle_collide_rect(rect(0, 0, 3, 3)));
    assert!(!c.does_circle_collide_rect(rect(0, 0, 2, 3)));
}

#[test]
fn circle_draw_is_a_red_disc() {
    let c = Circle::new(Vec2::new(1, 2), 5);
    assert_eq!(c.draw(), DrawCommand::Circle { center: Vec2::new(1, 2), radius: 5, color: Color::Red });
}
