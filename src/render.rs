//! The scene renderer: one frame is a clear, the grid lines, then the
//! polygon, as a list of draw commands.
use vstd::prelude::*;
use vstd::arithmetic::div_mod::lemma_div_is_ordered_by_denominator;
use crate::grid::{grid_multiples, grid_positions, lemma_grid_multiples_exact, COORD_LIMIT};
use crate::scene::{Point, Rgb8, SceneState, HALF_TURN, MAX_VERTICES, MIN_VERTICES, TURN};

verus! {

/// Distance between neighbouring grid lines, in milli-points.
pub const GRID_STEP: i64 = 100_000;

/// Width of a grid line, in milli-points.
pub const GRID_WEIGHT: i64 = 1000;

/// Channel level of the dark gray background.
pub const BACKGROUND_LEVEL: u8 = 5;

/// Channel level of the light gray grid lines.
pub const GRID_LEVEL: u8 = 204;

/// The visible part of the plane, in milli-points.
#[derive(Clone, Copy, Debug, PartialEq, Eq, Structural)]
pub struct WindowRect {
    pub left: i64,
    pub right: i64,
    pub bottom: i64,
    pub top: i64,
}

impl WindowRect {
    /// Every bound is within `COORD_LIMIT` of the origin.
    pub open spec fn wf(&self) -> bool {
        &&& -COORD_LIMIT <= self.left <= COORD_LIMIT
        &&& -COORD_LIMIT <= self.right <= COORD_LIMIT
        &&& -COORD_LIMIT <= self.bottom <= COORD_LIMIT
        &&& -COORD_LIMIT <= self.top <= COORD_LIMIT
    }
}

/// A straight segment of the given width and color.
#[derive(Clone, Copy, Debug, PartialEq, Eq, Structural)]
pub struct Line {
    pub start: Point,
    pub end: Point,
    pub weight: i64,
    pub color: Rgb8,
}

/// A filled regular polygon. Vertex `i` lies at angle
/// `rotation + i * TURN / sides` (counter-clockwise from the positive x
/// axis), at distance `radius` from `center`.
#[derive(Clone, Copy, Debug, PartialEq, Eq, Structural)]
pub struct Polygon {
    pub center: Point,
    pub radius: i64,
    pub sides: usize,
    pub rotation: i64,
    pub color: Rgb8,
}

#[derive(Clone, Copy, Debug, PartialEq, Eq, Structural)]
pub enum DrawCommand {
    Clear(Rgb8),
    Segment(Line),
    FilledPolygon(Polygon),
}

pub open spec fn gray(level: u8) -> Rgb8 {
    Rgb8 { r: level, g: level, b: level }
}

fn make_gray(level: u8) -> (c: Rgb8)
    ensures
        c == gray(level),
{
    Rgb8 { r: level, g: level, b: level }
}

/// The vertical grid line at `x`, spanning the window from bottom to top.
pub open spec fn vertical_line(x: int, w: WindowRect, weight: i64) -> Line {
    Line {
        start: Point { x: x as i64, y: w.bottom },
        end: Point { x: x as i64, y: w.top },
        weight,
        color: gray(GRID_LEVEL),
    }
}

/// The horizontal grid line at `y`, spanning the window from left to right.
pub open spec fn horizontal_line(y: int, w: WindowRect, weight: i64) -> Line {
    Line {
        start: Point { x: w.left, y: y as i64 },
        end: Point { x: w.right, y: y as i64 },
        weight,
        color: gray(GRID_LEVEL),
    }
}

pub open spec fn vertical_lines(w: WindowRect, step: int, weight: i64) -> Seq<Line> {
    grid_multiples(w.left as int, w.right as int, step).map_values(
        |x: int| vertical_line(x, w, weight),
    )
}

pub open spec fn horizontal_lines(w: WindowRect, step: int, weight: i64) -> Seq<Line> {
    grid_multiples(w.bottom as int, w.top as int, step).map_values(
        |y: int| horizontal_line(y, w, weight),
    )
}

/// The grid: the vertical lines left to right, then the horizontal lines
/// bottom to top.
pub open spec fn grid_line_seq(w: WindowRect, step: int, weight: i64) -> Seq<Line> {
    vertical_lines(w, step, weight) + horizontal_lines(w, step, weight)
}

/// The polygon that a scene state is drawn as.
pub open spec fn polygon_of(s: SceneState) -> Polygon {
    Polygon {
        center: s.position,
        radius: s.scale,
        sides: s.vertex_count,
        rotation: s.rotation,
        color: s.color,
    }
}

/// The draw commands of one frame, first to last.
pub open spec fn frame_commands(s: SceneState, w: WindowRect) -> Seq<DrawCommand> {
    seq![DrawCommand::Clear(gray(BACKGROUND_LEVEL))] + grid_line_seq(
        w,
        GRID_STEP as int,
        GRID_WEIGHT,
    ).map_values(|l: Line| DrawCommand::Segment(l)) + seq![
        DrawCommand::FilledPolygon(polygon_of(s)),
    ]
}

/// The lines of a grid with the given step and line width, clipped to the
/// window.
pub fn grid_lines(w: &WindowRect, step: i64, weight: i64) -> (r: Vec<Line>)
    requires
        w.wf(),
        0 < step <= COORD_LIMIT,
    ensures
        r@ == grid_line_seq(*w, step as int, weight),
{
    let color = make_gray(GRID_LEVEL);
    let xs = grid_positions(w.left, w.right, step);
    let ys = grid_positions(w.bottom, w.top, step);
    let ghost vs = vertical_lines(*w, step as int, weight);
    let ghost hs = horizontal_lines(*w, step as int, weight);
    let mut r: Vec<Line> = Vec::new();
    let mut i: usize = 0;
    while i < xs.len()
        invariant
            i <= xs@.len(),
            vs == vertical_lines(*w, step as int, weight),
            xs@.len() == vs.len(),
            xs@.len() == grid_multiples(w.left as int, w.right as int, step as int).len(),
            forall|j: int| 0 <= j < xs@.len() ==> xs@[j] == grid_multiples(w.left as int, w.right as int, step as int)[j],
            color == gray(GRID_LEVEL),
            r@ == vs.take(i as int),
        decreases xs@.len() - i,
    {
        let x = xs[i];
        r.push(Line { start: Point { x, y: w.bottom }, end: Point { x, y: w.top }, weight, color });
        proof {
            assert(vs[i as int] == vertical_line(x as int, *w, weight));
            assert(r@ =~= vs.take(i as int + 1));
        }
        i = i + 1;
    }
    assert(r@ =~= vs);
    let mut i: usize = 0;
    while i < ys.len()
        invariant
            i <= ys@.len(),
            vs == vertical_lines(*w, step as int, weight),
            hs == horizontal_lines(*w, step as int, weight),
            ys@.len() == hs.len(),
            ys@.len() == grid_multiples(w.bottom as int, w.top as int, step as int).len(),
            forall|j: int| 0 <= j < ys@.len() ==> ys@[j] == grid_multiples(w.bottom as int, w.top as int, step as int)[j],
            color == gray(GRID_LEVEL),
            r@ == vs + hs.take(i as int),
        decreases ys@.len() - i,
    {
        let y = ys[i];
        r.push(Line { start: Point { x: w.left, y }, end: Point { x: w.right, y }, weight, color });
        proof {
            assert(hs[i as int] == horizontal_line(y as int, *w, weight));
            assert(r@ =~= vs + hs.take(i as int + 1));
        }
        i = i + 1;
    }
    assert(r@ =~= vs + hs);
    r
}

/// The angle, in turn units, of vertex `i` of a polygon with the given side
/// count and rotation.
pub open spec fn vertex_angle(rotation: int, sides: int, i: int) -> int {
    rotation + i * (TURN as int / sides)
}

impl Polygon {
    /// The side count is one the scene allows and the rotation is within
    /// half a turn either way.
    pub open spec fn angles_ok(&self) -> bool {
        &&& MIN_VERTICES <= self.sides <= MAX_VERTICES
        &&& -HALF_TURN <= self.rotation <= HALF_TURN
    }

    /// The angle of each vertex, in turn units, starting from the rotation
    /// and going counter-clockwise in equal steps.
    pub fn vertex_angles(&self) -> (r: Vec<i64>)
        requires
            self.angles_ok(),
        ensures
            r@.len() == self.sides,
            forall|i: int|
                0 <= i < r@.len() ==> r@[i] == vertex_angle(
                    self.rotation as int,
                    self.sides as int,
                    i,
                ),
    {
        let gap: i64 = TURN / (self.sides as i64);
        proof {
            lemma_div_is_ordered_by_denominator(TURN as int, 3, self.sides as int);
            lemma_div_is_ordered_by_denominator(TURN as int, self.sides as int, 15);
        }
        let mut r: Vec<i64> = Vec::new();
        let mut a: i64 = self.rotation;
        let mut i: usize = 0;
        while i < self.sides
            invariant
                self.angles_ok(),
                i <= self.sides,
                gap == TURN as int / self.sides as int,
                0 < gap <= TURN / 3,
                a == self.rotation + i * gap,
                r@.len() == i,
                forall|j: int|
                    0 <= j < i ==> r@[j] == vertex_angle(self.rotation as int, self.sides as int, j),
            decreases self.sides - i,
        {
            proof {
                assert(i * gap <= MAX_VERTICES * (TURN / 3)) by (nonlinear_arith)
                    requires
                        0 <= i <= MAX_VERTICES,
                        0 < gap <= TURN / 3,
                ;
                assert((i + 1) * gap == i * gap + gap) by (nonlinear_arith);
            }
            r.push(a);
            a = a + gap;
            i = i + 1;
        }
        r
    }
}

/// A full turn splits evenly into the sides of every allowed polygon: the
/// vertex after the last would land on the first, a full turn later.
pub proof fn lemma_vertex_angles_close(rotation: int, sides: int)
    requires
        MIN_VERTICES <= sides <= MAX_VERTICES,
    ensures
        forall|i: int|
            0 < i <= sides ==> #[trigger] vertex_angle(rotation, sides, i) - vertex_angle(
                rotation,
                sides,
                i - 1,
            ) == TURN as int / sides,
        vertex_angle(rotation, sides, sides) == rotation + TURN,
{
    assert forall|i: int| 0 < i <= sides implies #[trigger] vertex_angle(rotation, sides, i)
        - vertex_angle(rotation, sides, i - 1) == TURN as int / sides by {
        let g = TURN as int / sides;
        assert(i * g - (i - 1) * g == g) by (nonlinear_arith);
    }
    let g = TURN as int / sides;
    if sides == 3 {
        assert(g == 120120);
    } else if sides == 4 {
        assert(g == 90090);
    } else if sides == 5 {
        assert(g == 72072);
    } else if sides == 6 {
        assert(g == 60060);
    } else if sides == 7 {
        assert(g == 51480);
    } else if sides == 8 {
        assert(g == 45045);
    } else if sides == 9 {
        assert(g == 40040);
    } else if sides == 10 {
        assert(g == 36036);
    } else if sides == 11 {
        assert(g == 32760);
    } else if sides == 12 {
        assert(g == 30030);
    } else if sides == 13 {
        assert(g == 27720);
    } else if sides == 14 {
        assert(g == 25740);
    } else {
        assert(g == 24024);
    }
}

/// In the window `w`, neighbouring grid lines are `step` apart and every
/// line spans the window.
pub open spec fn grid_fits_window(w: WindowRect, step: int, weight: i64) -> bool {
    let xs = grid_multiples(w.left as int, w.right as int, step);
    let ys = grid_multiples(w.bottom as int, w.top as int, step);
    &&& forall|i: int| 0 < i < xs.len() ==> #[trigger] xs[i] - xs[i - 1] == step
    &&& forall|i: int| 0 < i < ys.len() ==> #[trigger] ys[i] - ys[i - 1] == step
    &&& forall|i: int|
        0 <= i < vertical_lines(w, step, weight).len() ==> {
            &&& (#[trigger] vertical_lines(w, step, weight)[i]).start.y == w.bottom
            &&& vertical_lines(w, step, weight)[i].end.y == w.top
        }
    &&& forall|i: int|
        0 <= i < horizontal_lines(w, step, weight).len() ==> {
            &&& (#[trigger] horizontal_lines(w, step, weight)[i]).start.x == w.left
            &&& horizontal_lines(w, step, weight)[i].end.x == w.right
        }
}

/// Resizing the window changes how far the grid lines reach, never the gap
/// between them: in the window before and after, neighbouring lines are one
/// step apart, and every line spans its own window.
pub proof fn lemma_resize_keeps_step(before: WindowRect, after: WindowRect, step: int, weight: i64)
    requires
        0 < step,
    ensures
        grid_fits_window(before, step, weight),
        grid_fits_window(after, step, weight),
{
    lemma_grid_multiples_exact(before.left as int, before.right as int, step);
    lemma_grid_multiples_exact(before.bottom as int, before.top as int, step);
    lemma_grid_multiples_exact(after.left as int, after.right as int, step);
    lemma_grid_multiples_exact(after.bottom as int, after.top as int, step);
}

impl SceneState {
    /// The polygon this state is drawn as.
    pub fn polygon(&self) -> (p: Polygon)
        ensures
            p == polygon_of(*self),
    {
        Polygon {
            center: self.position,
            radius: self.scale,
            sides: self.vertex_count,
            rotation: self.rotation,
            color: self.color,
        }
    }
}

/// Draws one frame of the scene in the window: a clear to the background,
/// the grid, then the polygon on top.
pub fn render(s: &SceneState, w: &WindowRect) -> (r: Vec<DrawCommand>)
    requires
        w.wf(),
    ensures
        r@ == frame_commands(*s, *w),
{
    let lines = grid_lines(w, GRID_STEP, GRID_WEIGHT);
    let ghost ls = grid_line_seq(*w, GRID_STEP as int, GRID_WEIGHT).map_values(
        |l: Line| DrawCommand::Segment(l),
    );
    let mut r: Vec<DrawCommand> = Vec::new();
    r.push(DrawCommand::Clear(make_gray(BACKGROUND_LEVEL)));
    let mut i: usize = 0;
    while i < lines.len()
        invariant
            i <= lines@.len(),
            lines@ == grid_line_seq(*w, GRID_STEP as int, GRID_WEIGHT),
            ls == grid_line_seq(*w, GRID_STEP as int, GRID_WEIGHT).map_values(
                |l: Line| DrawCommand::Segment(l),
            ),
            ls.len() == lines@.len(),
            r@ == seq![DrawCommand::Clear(gray(BACKGROUND_LEVEL))] + ls.take(i as int),
        decreases lines@.len() - i,
    {
        r.push(DrawCommand::Segment(lines[i]));
        proof {
            assert(ls[i as int] == DrawCommand::Segment(lines@[i as int]));
            assert(r@ =~= seq![DrawCommand::Clear(gray(BACKGROUND_LEVEL))] + ls.take(i as int + 1));
        }
        i = i + 1;
    }
    r.push(DrawCommand::FilledPolygon(s.polygon()));
    proof {
        assert(ls.take(i as int) =~= ls);
        assert(r@ =~= frame_commands(*s, *w));
    }
    r
}

} // verus!
