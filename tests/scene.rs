use polygon_panel::controls::{ControlEvent, Field};
use polygon_panel::scene::{Point, Rgb8, SceneState, HALF_TURN, MILLI, POSITION_LIMIT};

#[test]
fn defaults_are_a_magenta_hexagon() {
    let s = SceneState::new();
    assert_eq!(s.vertex_count, 6);
    assert_eq!(s.scale, 200 * MILLI);
    assert_eq!(s.rotation, 0);
    assert_eq!(s.position, Point { x: 0, y: 0 });
    assert_eq!(s.color, Rgb8 { r: 255, g: 0, b: 255 });
}

#[test]
fn vertex_slider_truncates_and_clamps() {
    let mut s = SceneState::new();
    s.set_vertex_count(3400);
    assert_eq!(s.vertex_count, 3);
    s.set_vertex_count(14999);
    assert_eq!(s.vertex_count, 14);
    s.set_vertex_count(15000);
    assert_eq!(s.vertex_count, 15);
    s.set_vertex_count(99_000);
    assert_eq!(s.vertex_count, 15);
    s.set_vertex_count(2999);
    assert_eq!(s.vertex_count, 3);
    s.set_vertex_count(-7_500);
    assert_eq!(s.vertex_count, 3);
    s.set_vertex_count(i64::MIN);
    assert_eq!(s.vertex_count, 3);
    s.set_vertex_count(i64::MAX);
    assert_eq!(s.vertex_count, 15);
    assert_eq!(s.scale, 200 * MILLI);
}

#[test]
fn scale_rotation_position_are_only_clamped() {
    let mut s = SceneState::new();
    s.set_scale(123_456);
    assert_eq!(s.scale, 123_456);
    s.set_scale(9_999);
    assert_eq!(s.scale, 10_000);
    s.set_scale(500_001);
    assert_eq!(s.scale, 500_000);
    s.set_rotation(-1234);
    assert_eq!(s.rotation, -1234);
    s.set_rotation(HALF_TURN + 1);
    assert_eq!(s.rotation, HALF_TURN);
    s.set_rotation(-HALF_TURN - 1);
    assert_eq!(s.rotation, -HALF_TURN);
    s.set_position(150_000, -150_000);
    assert_eq!(s.position, Point { x: 150_000, y: -150_000 });
    s.set_position(-900_000, 200_001);
    assert_eq!(s.position, Point { x: -POSITION_LIMIT, y: POSITION_LIMIT });
    assert_eq!(s.vertex_count, 6);
    assert_eq!(s.color, Rgb8 { r: 255, g: 0, b: 255 });
}

#[test]
fn random_color_changes_only_the_color() {
    let mut s = SceneState::new();
    s.set_scale(50_000);
    for _ in 0..100 {
        s.randomize_color();
        assert_eq!(s.vertex_count, 6);
        assert_eq!(s.scale, 50_000);
        assert_eq!(s.rotation, 0);
        assert_eq!(s.position, Point { x: 0, y: 0 });
    }
}

#[test]
fn random_channels_spread_over_the_range() {
    let n: u64 = 20_000;
    let mut sums = [0u64; 3];
    let mut low = [false; 3];
    let mut high = [false; 3];
    for _ in 0..n {
        let c = Rgb8::random();
        for (k, v) in [c.r, c.g, c.b].iter().enumerate() {
            sums[k] += *v as u64;
            low[k] |= *v < 32;
            high[k] |= *v > 223;
        }
    }
    for k in 0..3 {
        let mean = sums[k] as f64 / n as f64;
        assert!(mean > 117.5 && mean < 137.5, "channel {} mean {}", k, mean);
        assert!(low[k] && high[k]);
    }
}

#[test]
fn tick_applies_events_in_order() {
    let mut s = SceneState::new();
    let events = vec![
        ControlEvent::VertexSlider(9_700),
        ControlEvent::ScaleSlider(1_000_000),
        ControlEvent::RotationSlider(-60_060),
        ControlEvent::ColorButton(Rgb8 { r: 1, g: 2, b: 3 }),
        ControlEvent::PositionPad(10_000, -250_000),
        ControlEvent::VertexSlider(4_000),
    ];
    let changed = s.on_tick(&events);
    assert_eq!(
        changed,
        vec![
            Field::VertexCount,
            Field::Scale,
            Field::Rotation,
            Field::Color,
            Field::Position,
            Field::VertexCount,
        ]
    );
    assert_eq!(s.vertex_count, 4);
    assert_eq!(s.scale, 500_000);
    assert_eq!(s.rotation, -60_060);
    assert_eq!(s.color, Rgb8 { r: 1, g: 2, b: 3 });
    assert_eq!(s.position, Point { x: 10_000, y: -200_000 });
}

#[test]
fn empty_tick_changes_nothing() {
    let mut s = SceneState::new();
    let changed = s.on_tick(&Vec::new());
    assert!(changed.is_empty());
    assert_eq!(s, SceneState::new());
}

#[test]
fn apply_reports_the_field() {
    let mut s = SceneState::new();
    assert_eq!(s.apply(ControlEvent::random_color()), Field::Color);
    assert_eq!(s.apply(ControlEvent::ScaleSlider(42_000)), Field::Scale);
    assert_eq!(s.scale, 42_000);
    assert!(matches!(ControlEvent::random_color(), ControlEvent::ColorButton(_)));
}
