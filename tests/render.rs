use polygon_panel::controls::ControlEvent;
use polygon_panel::grid::grid_positions;
use polygon_panel::render::{
    grid_lines, render, DrawCommand, Line, Polygon, WindowRect, GRID_STEP, GRID_WEIGHT,
};
use polygon_panel::scene::{Point, Rgb8, SceneState, MILLI, TURN};

fn window(w: i64, h: i64) -> WindowRect {
    WindowRect { left: -w / 2, right: w / 2, bottom: -h / 2, top: h / 2 }
}

#[test]
fn grid_positions_inside_an_800_by_600_window() {
    let xs = grid_positions(-400, 400, 100);
    assert_eq!(xs, vec![-300, -200, -100, 0, 100, 200, 300]);
    let ys = grid_positions(-300, 300, 100);
    assert_eq!(ys, vec![-200, -100, 0, 100, 200]);
}

#[test]
fn grid_positions_exclude_bounds_and_need_no_origin() {
    assert_eq!(grid_positions(150, 550, 100), vec![200, 300, 400, 500]);
    assert_eq!(grid_positions(-550, -150, 100), vec![-500, -400, -300, -200]);
    assert_eq!(grid_positions(-450, -399, 100), vec![-400]);
    assert_eq!(grid_positions(-401, -400, 100), Vec::<i64>::new());
    assert_eq!(grid_positions(0, 0, 100), Vec::<i64>::new());
    assert_eq!(grid_positions(0, 1, 100), Vec::<i64>::new());
    assert_eq!(grid_positions(-1, 1, 100), vec![0]);
    assert_eq!(grid_positions(300, -300, 100), Vec::<i64>::new());
    assert_eq!(grid_positions(-5, 5, 3), vec![-3, 0, 3]);
}

#[test]
fn grid_lines_span_the_window() {
    let w = window(800 * MILLI, 600 * MILLI);
    let lines = grid_lines(&w, GRID_STEP, GRID_WEIGHT);
    assert_eq!(lines.len(), 7 + 5);
    let gray = Rgb8 { r: 204, g: 204, b: 204 };
    assert_eq!(
        lines[0],
        Line {
            start: Point { x: -300_000, y: -300_000 },
            end: Point { x: -300_000, y: 300_000 },
            weight: 1000,
            color: gray
        }
    );
    assert_eq!(
        lines[7],
        Line {
            start: Point { x: -400_000, y: -200_000 },
            end: Point { x: 400_000, y: -200_000 },
            weight: 1000,
            color: gray
        }
    );
    assert_eq!(lines[11].start.y, 200_000);
}

#[test]
fn resizing_changes_extent_not_step() {
    let small = grid_lines(&window(800 * MILLI, 600 * MILLI), GRID_STEP, GRID_WEIGHT);
    let large = grid_lines(&window(1000 * MILLI, 400 * MILLI), GRID_STEP, GRID_WEIGHT);
    assert_eq!(small.len(), 12);
    assert_eq!(large.len(), 9 + 3);
    for lines in [&small, &large] {
        for pair in lines.windows(2) {
            let (a, b) = (pair[0], pair[1]);
            if a.start.x == a.end.x && b.start.x == b.end.x {
                assert_eq!(b.start.x - a.start.x, GRID_STEP);
            }
            if a.start.y == a.end.y && b.start.y == b.end.y {
                assert_eq!(b.start.y - a.start.y, GRID_STEP);
            }
        }
    }
    assert_eq!(small[0].end.y - small[0].start.y, 600 * MILLI);
    assert_eq!(large[0].end.y - large[0].start.y, 400 * MILLI);
    assert_eq!(large[9].end.x - large[9].start.x, 1000 * MILLI);
}

#[test]
fn square_vertices_are_a_quarter_turn_apart() {
    let p = Polygon {
        center: Point { x: 0, y: 0 },
        radius: 100 * MILLI,
        sides: 4,
        rotation: 0,
        color: Rgb8 { r: 255, g: 0, b: 255 },
    };
    assert_eq!(p.vertex_angles(), vec![0, 90_090, 180_180, 270_270]);
    assert_eq!(TURN / 4, 90_090);
}

#[test]
fn rotated_triangle_vertex_angles() {
    let p = Polygon {
        center: Point { x: 5, y: 5 },
        radius: 10_000,
        sides: 3,
        rotation: -1000,
        color: Rgb8 { r: 0, g: 0, b: 0 },
    };
    assert_eq!(p.vertex_angles(), vec![-1000, 119_120, 239_240]);
}

#[test]
fn frame_is_clear_grid_polygon() {
    let s = SceneState::new();
    let cmds = render(&s, &window(800 * MILLI, 600 * MILLI));
    assert_eq!(cmds.len(), 1 + 12 + 1);
    assert_eq!(cmds[0], DrawCommand::Clear(Rgb8 { r: 5, g: 5, b: 5 }));
    for c in &cmds[1..13] {
        assert!(matches!(c, DrawCommand::Segment(_)));
    }
    assert_eq!(
        cmds[13],
        DrawCommand::FilledPolygon(Polygon {
            center: Point { x: 0, y: 0 },
            radius: 200_000,
            sides: 6,
            rotation: 0,
            color: Rgb8 { r: 255, g: 0, b: 255 },
        })
    );
}

#[test]
fn tiny_window_has_only_clear_and_polygon() {
    let s = SceneState::new();
    let cmds = render(&s, &window(0, 0));
    assert_eq!(cmds.len(), 2);
    assert_eq!(cmds[1], DrawCommand::FilledPolygon(s.polygon()));
}

#[test]
fn drag_click_drag_then_draw() {
    let mut s = SceneState::new();
    s.on_tick(&vec![ControlEvent::VertexSlider(3_400)]);
    assert_eq!(s.vertex_count, 3);
    let e = ControlEvent::random_color();
    let drawn = match e {
        ControlEvent::ColorButton(c) => c,
        _ => unreachable!(),
    };
    s.on_tick(&vec![e]);
    assert_eq!(s.color, drawn);
    s.on_tick(&vec![ControlEvent::PositionPad(150 * MILLI, -150 * MILLI)]);
    assert_eq!(s.position, Point { x: 150_000, y: -150_000 });
    let cmds = render(&s, &window(800 * MILLI, 600 * MILLI));
    assert_eq!(
        *cmds.last().unwrap(),
        DrawCommand::FilledPolygon(Polygon {
            center: Point { x: 150_000, y: -150_000 },
            radius: 200_000,
            sides: 3,
            rotation: 0,
            color: drawn,
        })
    );
}
