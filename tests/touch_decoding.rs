use phone_os::geometry::{map_to_grid, Position, Rect, HEIGHT, WIDTH};
use phone_os::touch::{decode_gesture, decode_touches, touch_count, TouchEvent, TouchGesture};

#[test]
fn no_touch_gives_no_point() {
    let data = [0xFFu8; 12];
    assert!(decode_touches(0x00, &data).is_empty());
}

#[test]
fn one_touch_decodes_phase_position_and_id() {
    let data = [0x01u8, 0x23, 0x54, 0x67, 0, 0, 0, 0, 0, 0, 0, 0];
    let points = decode_touches(0x01, &data);
    assert_eq!(points.len(), 1);
    assert_eq!(points[0].x, 0x123);
    assert_eq!(points[0].y, 0x467);
    assert_eq!(points[0].id, 5);
    assert_eq!(points[0].event, Some(TouchEvent::Press));
}

#[test]
fn two_touches_decode_both_records() {
    let data = [0x40u8, 0x10, 0x00, 0x20, 0xAA, 0xBB, 0x8F, 0xFF, 0x1E, 0xEE, 0xCC, 0xDD];
    let points = decode_touches(0x02, &data);
    assert_eq!(points.len(), 2);
    assert_eq!(points[0].event, Some(TouchEvent::Release));
    assert_eq!((points[0].x, points[0].y, points[0].id), (0x010, 0x020, 0));
    assert_eq!(points[1].event, Some(TouchEvent::Move));
    assert_eq!((points[1].x, points[1].y, points[1].id), (0xFFF, 0xEEE, 1));
}

#[test]
fn reserved_phase_bits_give_unknown_phase() {
    let data = [0xC0u8, 0x00, 0x00, 0x00, 0, 0, 0, 0, 0, 0, 0, 0];
    let points = decode_touches(0x01, &data);
    assert_eq!(points.len(), 1);
    assert_eq!(points[0].event, None);
}

#[test]
fn touch_count_above_two_is_treated_as_none() {
    let data = [0u8; 12];
    assert_eq!(touch_count(0x03), 0);
    assert!(decode_touches(0x0F, &data).is_empty());
    assert_eq!(touch_count(0xF2), 2);
    assert_eq!(decode_touches(0xF2, &data).len(), 2);
}

#[test]
fn gesture_codes_map_to_gestures() {
    assert_eq!(decode_gesture(0x10), Some(TouchGesture::Move));
    assert_eq!(decode_gesture(0x18), Some(TouchGesture::ZoomIn));
    assert_eq!(decode_gesture(0x14), Some(TouchGesture::ZoomOut));
    assert_eq!(decode_gesture(0x00), None);
    assert_eq!(decode_gesture(0x11), None);
}

#[test]
fn mapping_flips_and_clamps_axes() {
    assert_eq!(map_to_grid(0, 0), Position { x: WIDTH - 1, y: HEIGHT - 1 });
    assert_eq!(map_to_grid(239, 319).x, 1);
    assert_eq!(map_to_grid(239, 319).y, 0);
    assert_eq!(map_to_grid(120, 160), Position { x: 20, y: 15 });
    assert_eq!(map_to_grid(4095, 4095), Position { x: 0, y: 0 });
}

#[test]
fn mapping_is_monotone_and_bounded() {
    let mut last = map_to_grid(0, 0);
    for raw in 0u16..=400 {
        let p = map_to_grid(raw, raw);
        assert!(p.x < WIDTH && p.y < HEIGHT);
        assert!(p.x <= last.x && p.y <= last.y);
        last = p;
    }
}

#[test]
fn rect_contains_is_half_open() {
    let r = Rect::new(2, 3, 4, 5);
    assert!(r.contains(Position::new(2, 3)));
    assert!(r.contains(Position::new(5, 7)));
    assert!(!r.contains(Position::new(6, 3)));
    assert!(!r.contains(Position::new(2, 8)));
    assert!(!r.contains(Position::new(1, 3)));
    let edge = Rect::new(u16::MAX - 1, 0, 10, 1);
    assert!(edge.contains(Position::new(u16::MAX - 1, 0)));
    assert!(!edge.contains(Position::new(u16::MAX, 0)));
}
