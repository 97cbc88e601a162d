use analog_clock::face::{
    hour_hand_angle, max_radius, minute_hand_angle, render, tick_mark, Angle, Rect, ShapeKind,
    SurfaceSize, MAX_EXTENT,
};
use analog_clock::time::ClockTime;

fn at(h: u32, m: u32, s: u32) -> ClockTime {
    ClockTime::from_hms(h, m, s).unwrap()
}

fn size(width: u32, height: u32) -> SurfaceSize {
    SurfaceSize { width, height }
}

fn same_direction(a: Angle, b: Angle) -> bool {
    a.per_turn == b.per_turn && a.steps % a.per_turn == b.steps % b.per_turn
}

#[test]
fn midnight_puts_both_hands_at_the_top() {
    let t = at(0, 0, 0);
    assert_eq!(hour_hand_angle(&t), Angle { steps: 0, per_turn: 86400 });
    assert_eq!(minute_hand_angle(&t), Angle { steps: 0, per_turn: 3600 });
}

#[test]
fn six_o_clock_hour_hand_halfway_minute_hand_at_top() {
    let t = at(6, 0, 0);
    let h = hour_hand_angle(&t);
    assert_eq!(h.steps * 2, h.per_turn);
    let m = minute_hand_angle(&t);
    assert_eq!(m, Angle { steps: 21600, per_turn: 3600 });
    assert_eq!(m.steps % m.per_turn, 0);
    let radians = std::f64::consts::PI * 2.0 * h.steps as f64 / h.per_turn as f64;
    assert!((radians - std::f64::consts::PI).abs() < 1e-12);
}

#[test]
fn half_past_midnight_minute_hand_opposite_the_top() {
    let m = minute_hand_angle(&at(0, 30, 0));
    assert_eq!(m.steps * 2, m.per_turn);
}

#[test]
fn minute_hand_sweeps_with_seconds() {
    assert_eq!(minute_hand_angle(&at(0, 0, 30)).steps, 30);
    assert_eq!(hour_hand_angle(&at(0, 0, 30)).steps, 60);
}

#[test]
fn hour_hand_repeats_every_twelve_hours() {
    assert!(same_direction(hour_hand_angle(&at(1, 15, 7)), hour_hand_angle(&at(13, 15, 7))));
    assert!(!same_direction(hour_hand_angle(&at(1, 15, 7)), hour_hand_angle(&at(7, 15, 7))));
}

#[test]
fn minute_hand_repeats_every_hour() {
    assert!(same_direction(minute_hand_angle(&at(3, 45, 10)), minute_hand_angle(&at(4, 45, 10))));
    assert!(!same_direction(minute_hand_angle(&at(3, 45, 10)), minute_hand_angle(&at(3, 46, 10))));
}

#[test]
fn max_radius_is_half_the_shorter_side() {
    assert_eq!(max_radius(size(300, 200)), 100);
    assert_eq!(max_radius(size(200, 300)), 100);
    assert_eq!(max_radius(size(41, 41)), 20);
    assert_eq!(max_radius(size(0, 10)), 0);
    assert_eq!(MAX_EXTENT, 400);
}

#[test]
fn tick_marks_long_and_short() {
    let long = tick_mark(0, 100);
    assert_eq!(long.kind, ShapeKind::LongTick);
    assert_eq!(long.rect, Rect { x0: -3, y0: -100, x1: 2, y1: -80 });
    let short = tick_mark(7, 100);
    assert_eq!(short.kind, ShapeKind::ShortTick);
    assert_eq!(short.angle, Angle { steps: 7, per_turn: 60 });
    assert_eq!(short.rect, Rect { x0: -1, y0: -83, x1: 1, y1: -80 });
}

#[test]
fn face_has_sixty_ticks_twelve_long() {
    let shapes = render(&at(9, 41, 5), size(300, 200));
    assert_eq!(shapes.len(), 62);
    let long: Vec<usize> = (0..shapes.len()).filter(|&i| shapes[i].kind == ShapeKind::LongTick).collect();
    assert_eq!(long, vec![0, 5, 10, 15, 20, 25, 30, 35, 40, 45, 50, 55]);
    let short = shapes.iter().filter(|s| s.kind == ShapeKind::ShortTick).count();
    assert_eq!(short, 48);
    for (i, s) in shapes.iter().take(60).enumerate() {
        assert_eq!(s.angle, Angle { steps: i as u64, per_turn: 60 });
    }
}

#[test]
fn face_hands_on_a_300_by_200_surface() {
    let t = at(6, 0, 0);
    let shapes = render(&t, size(300, 200));
    assert_eq!(shapes[60].kind, ShapeKind::HourHand);
    assert_eq!(shapes[60].angle, hour_hand_angle(&t));
    assert_eq!(shapes[60].rect, Rect { x0: -6, y0: 0, x1: 6, y1: -40 });
    assert_eq!(shapes[61].kind, ShapeKind::MinuteHand);
    assert_eq!(shapes[61].angle, minute_hand_angle(&t));
    assert_eq!(shapes[61].rect, Rect { x0: -3, y0: 0, x1: 2, y1: -80 });
}

#[test]
fn hour_hand_length_rounds_toward_zero() {
    let t = at(0, 0, 0);
    assert_eq!(render(&t, size(50, 50))[60].rect.y1, -2);
    assert_eq!(render(&t, size(10, 10))[60].rect.y1, 7);
    assert_eq!(render(&t, size(40, 40))[60].rect.y1, 0);
}

#[test]
fn render_twice_gives_the_same_shapes() {
    let t = ClockTime::from_hms_nano(17, 3, 59, 123).unwrap();
    let u = ClockTime::from_hms_nano(17, 3, 59, 987_654_321).unwrap();
    assert_eq!(render(&t, size(300, 200)), render(&t, size(300, 200)));
    assert_eq!(render(&t, size(300, 200)), render(&u, size(300, 200)));
    assert_ne!(render(&t, size(300, 200)), render(&at(17, 4, 0), size(300, 200)));
}
