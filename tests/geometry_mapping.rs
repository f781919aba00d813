use dev_widgets::geometry::{
    brightness_to_y_axis, glyph_direction, hue_to_cursor_rotation, pointer_to_hue,
    pointer_to_sv, saturation_to_x_axis, sv_to_cursor_position, x_axis_to_saturation,
    y_axis_to_brightness, BoundingRect, Point,
};

/// Direction of `p` from `center` as the host measures it: `atan2(dx, dy)`
/// in hundredths of a degree.
fn ring_angle(p: (f64, f64), center: (f64, f64)) -> i64 {
    let (dx, dy) = (p.0 - center.0, p.1 - center.1);
    (dx.atan2(dy).to_degrees() * 100.0).round() as i64
}

fn hue_distance(a: u32, b: u32) -> u32 {
    let d = (a as i64 - b as i64).rem_euclid(36000) as u32;
    d.min(36000 - d)
}

#[test]
fn hue_rotation_formula() {
    assert_eq!(hue_to_cursor_rotation(0), 9000);
    assert_eq!(hue_to_cursor_rotation(9000), 0);
    assert_eq!(hue_to_cursor_rotation(18000), 27000);
    assert_eq!(hue_to_cursor_rotation(35900), 9100);
}

#[test]
fn pointer_to_hue_offsets_by_a_quarter_turn() {
    assert_eq!(pointer_to_hue(18000), 9000);
    assert_eq!(pointer_to_hue(9000), 0);
    assert_eq!(pointer_to_hue(0), 27000);
    assert_eq!(pointer_to_hue(-9000), 18000);
    assert_eq!(pointer_to_hue(-17999), 9001);
}

#[test]
fn hue_ring_round_trip_exact() {
    for deg in [0u32, 45, 90, 180, 270, 359] {
        let hue = deg * 100;
        let rotation = hue_to_cursor_rotation(hue);
        assert_eq!(pointer_to_hue(glyph_direction(rotation)), hue);
    }
}

#[test]
fn hue_ring_round_trip_through_drawn_glyph() {
    let center = (50.0, 50.0);
    let radius = 46.25;
    for deg in [0u32, 45, 90, 180, 270, 359] {
        let hue = deg * 100;
        let theta = (hue_to_cursor_rotation(hue) as f64 / 100.0).to_radians();
        // A glyph at the top of the ring, turned clockwise on screen.
        let glyph = (center.0 + radius * theta.sin(), center.1 - radius * theta.cos());
        let back = pointer_to_hue(ring_angle(glyph, center));
        assert!(hue_distance(back, hue) <= 1, "{} came back as {}", hue, back);
    }
}

#[test]
fn sv_box_round_trip_on_sample_grid() {
    let samples = [0u32, 2500, 5000, 7500, 10000];
    for rect in [
        BoundingRect { x: 0, y: 0, width: 100, height: 100 },
        BoundingRect { x: 10, y: 20, width: 200, height: 200 },
        BoundingRect { x: -40, y: 7, width: 400, height: 400 },
    ] {
        for s in samples {
            for b in samples {
                let p = sv_to_cursor_position(rect, s, b);
                assert_eq!(pointer_to_sv(p, rect), (s, b));
            }
        }
    }
}

#[test]
fn sv_box_round_trip_within_a_pixel() {
    let rect = BoundingRect { x: 3, y: 5, width: 37, height: 37 };
    for s in (0..=10000u32).step_by(613) {
        for b in (0..=10000u32).step_by(577) {
            let (s2, b2) = pointer_to_sv(sv_to_cursor_position(rect, s, b), rect);
            assert!(s2 <= s && (s - s2) * 37 < 10000 + 37);
            assert!(b2 >= b && (b2 - b) * 37 < 10000 + 37);
        }
    }
}

#[test]
fn pointer_to_sv_clamps_to_the_box() {
    let rect = BoundingRect { x: 100, y: 100, width: 200, height: 200 };
    assert_eq!(pointer_to_sv(Point { x: 100, y: 100 }, rect), (0, 10000));
    assert_eq!(pointer_to_sv(Point { x: 300, y: 300 }, rect), (10000, 0));
    assert_eq!(pointer_to_sv(Point { x: 200, y: 150 }, rect), (5000, 7500));
    assert_eq!(pointer_to_sv(Point { x: -50, y: 1000 }, rect), (0, 0));
    assert_eq!(pointer_to_sv(Point { x: 999, y: -999 }, rect), (10000, 10000));
}

#[test]
fn glyph_axes() {
    assert_eq!(saturation_to_x_axis(2500), 2500);
    assert_eq!(brightness_to_y_axis(10000), 0);
    assert_eq!(brightness_to_y_axis(2500), 7500);
    assert_eq!(x_axis_to_saturation(-10), 0);
    assert_eq!(x_axis_to_saturation(12000), 10000);
    assert_eq!(y_axis_to_brightness(2500), 7500);
    assert_eq!(y_axis_to_brightness(-1), 10000);
}

#[test]
fn rect_containment_and_measurement() {
    let zero = BoundingRect::zero();
    assert!(!zero.is_measured());
    assert!(zero.contains(Point { x: 0, y: 0 }));
    assert!(!zero.contains(Point { x: 1, y: 0 }));
    let r = BoundingRect { x: 10, y: 10, width: 20, height: 30 };
    assert!(r.is_measured());
    assert!(r.contains(Point { x: 10, y: 40 }));
    assert!(r.contains(Point { x: 30, y: 10 }));
    assert!(!r.contains(Point { x: 31, y: 10 }));
    assert!(!r.contains(Point { x: 9, y: 20 }));
    assert!(!BoundingRect { x: 0, y: 0, width: 5, height: 0 }.is_measured());
}
