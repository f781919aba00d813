use dev_widgets::color::{Color, ColorFormat};
use dev_widgets::geometry::{BoundingRect, Point};
use dev_widgets::picker::{ColorPicker, PointerAction, PointerEvent, Session, Target};

fn event(pointer_id: i32, x: i64, y: i64, center: (f64, f64)) -> PointerEvent {
    let (dx, dy) = (x as f64 - center.0, y as f64 - center.1);
    let ring_angle = (dx.atan2(dy).to_degrees() * 100.0).round() as i64;
    PointerEvent { pointer_id, position: Point { x, y }, ring_angle }
}

fn red_picker() -> ColorPicker {
    ColorPicker::new(Color::new(0, 10000, 10000, 10000))
}

#[test]
fn ring_pointer_down_sets_hue() {
    let mut picker = red_picker();
    picker.record_rect(Target::HueRing, BoundingRect { x: 0, y: 0, width: 100, height: 100 });
    let center = (50.0, 50.0);
    // Straight above the center the pointer reads 180 degrees, less the
    // quarter-turn offset.
    assert_eq!(picker.pointer_down(event(1, 50, 0, center)), PointerAction::Capture(1));
    assert_eq!(picker.color.hue, 9000);
    assert_eq!(picker.pointer_up(1), PointerAction::Release(1));
    // Right of the center the pointer reads 90 degrees.
    picker.pointer_down(event(1, 100, 50, center));
    assert_eq!(picker.color.hue, 0);
    // Below the center it reads 0 degrees, left of it -90 degrees.
    picker.pointer_move(event(1, 50, 100, center));
    assert_eq!(picker.color.hue, 27000);
    picker.pointer_move(event(1, 0, 50, center));
    assert_eq!(picker.color.hue, 18000);
    assert_eq!(picker.color.saturation, 10000);
    assert_eq!(picker.color.brightness, 10000);
}

#[test]
fn box_gesture_dispatch() {
    let mut picker = red_picker();
    picker.record_rect(Target::HueRing, BoundingRect { x: 0, y: 0, width: 300, height: 300 });
    let sv_rect = BoundingRect { x: 100, y: 100, width: 100, height: 100 };
    picker.record_rect(Target::SaturationBrightnessBox, sv_rect);
    let center = (150.0, 150.0);
    assert_eq!(picker.pointer_down(event(7, 150, 150, center)), PointerAction::Capture(7));
    assert_eq!(
        picker.session,
        Some(Session { target: Target::SaturationBrightnessBox, pointer_id: 7 })
    );
    assert_eq!((picker.color.saturation, picker.color.brightness), (5000, 5000));
    picker.pointer_move(event(7, 100, 100, center));
    assert_eq!((picker.color.saturation, picker.color.brightness), (0, 10000));
    assert_eq!(picker.color.hue, 0);
    assert_eq!(picker.pointer_up(7), PointerAction::Release(7));
    assert!(picker.is_idle());
    let before = picker.color;
    picker.pointer_move(event(7, 180, 180, center));
    assert_eq!(picker.color, before);
}

#[test]
fn captured_gesture_keeps_its_target_outside_its_region() {
    let mut picker = red_picker();
    picker.record_rect(Target::HueRing, BoundingRect { x: 0, y: 0, width: 300, height: 300 });
    picker.record_rect(
        Target::SaturationBrightnessBox,
        BoundingRect { x: 100, y: 100, width: 100, height: 100 },
    );
    let center = (150.0, 150.0);
    picker.pointer_down(event(1, 120, 130, center));
    let hue = picker.color.hue;
    picker.pointer_move(event(1, 290, 10, center));
    assert_eq!(picker.color.hue, hue);
    assert_eq!((picker.color.saturation, picker.color.brightness), (10000, 10000));
}

#[test]
fn unmeasured_regions_leave_color_alone() {
    let mut picker = red_picker();
    let before = picker.color;
    let center = (0.0, 0.0);
    assert_eq!(picker.pointer_down(event(2, 0, 0, center)), PointerAction::Capture(2));
    assert_eq!(picker.session.map(|s| s.target), Some(Target::SaturationBrightnessBox));
    assert_eq!(picker.color, before);
    picker.pointer_move(event(2, 40, -30, center));
    assert_eq!(picker.color, before);
    picker.pointer_up(2);
    picker.pointer_down(event(2, 40, 40, center));
    assert_eq!(picker.session.map(|s| s.target), Some(Target::HueRing));
    picker.pointer_move(event(2, -40, 10, center));
    assert_eq!(picker.color, before);
}

#[test]
fn second_pointer_is_ignored_while_capturing() {
    let mut picker = red_picker();
    picker.record_rect(Target::HueRing, BoundingRect { x: 0, y: 0, width: 100, height: 100 });
    let center = (50.0, 50.0);
    picker.pointer_down(event(1, 100, 50, center));
    let state = picker;
    assert_eq!(picker.pointer_down(event(2, 50, 0, center)), PointerAction::Nothing);
    assert_eq!(picker.color, state.color);
    assert_eq!(picker.session, state.session);
    picker.pointer_move(event(2, 50, 100, center));
    assert_eq!(picker.color.hue, 0);
    assert_eq!(picker.pointer_up(2), PointerAction::Nothing);
    assert!(!picker.is_idle());
    picker.capture_lost(2);
    assert!(!picker.is_idle());
    picker.pointer_move(event(1, 50, 100, center));
    assert_eq!(picker.color.hue, 27000);
}

#[test]
fn lost_capture_returns_to_idle() {
    let mut picker = red_picker();
    picker.record_rect(Target::HueRing, BoundingRect { x: 0, y: 0, width: 100, height: 100 });
    let center = (50.0, 50.0);
    picker.pointer_down(event(3, 100, 50, center));
    picker.capture_lost(3);
    assert!(picker.is_idle());
    picker.pointer_move(event(3, 50, 0, center));
    assert_eq!(picker.color.hue, 0);
}

#[test]
fn rects_are_replaced_whole() {
    let mut picker = red_picker();
    assert_eq!(picker.get_rect(Target::HueRing), BoundingRect::zero());
    let r = BoundingRect { x: 1, y: 2, width: 3, height: 4 };
    picker.record_rect(Target::HueRing, r);
    assert_eq!(picker.get_rect(Target::HueRing), r);
    assert_eq!(picker.get_rect(Target::SaturationBrightnessBox), BoundingRect::zero());
}

#[test]
fn cursors_and_text_follow_the_color() {
    let mut picker = red_picker();
    picker.set_color(21000 + 36000, 5000, 4000, 20000);
    assert_eq!(picker.color, Color { hue: 21000, saturation: 5000, brightness: 4000, alpha: 10000 });
    assert_eq!(picker.hue_cursor_rotation(), 24000);
    assert_eq!(picker.sv_cursor(), (5000, 6000));
    assert_eq!(picker.color_text(ColorFormat::HSV), "hsv(210, 50%, 40%)");
    assert_eq!(picker.color_text(ColorFormat::from_name("unknown")), "#334d66");
}
