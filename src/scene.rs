//! The scene state and the clamped setters through which controls edit it.
use vstd::prelude::*;

verus! {

/// Milli-points in one window coordinate unit.
pub const MILLI: i64 = 1000;

/// Turn units in a full turn. It is divisible by every side count from
/// `MIN_VERTICES` to `MAX_VERTICES`, so polygon vertex angles are exact.
pub const TURN: i64 = 360360;

/// Turn units in half a turn (pi radians).
pub const HALF_TURN: i64 = 180180;

pub const MIN_VERTICES: usize = 3;
pub const MAX_VERTICES: usize = 15;
pub const DEFAULT_VERTICES: usize = 6;

/// Smallest and largest circumscribed radius, in milli-points.
pub const MIN_SCALE: i64 = 10_000;
pub const MAX_SCALE: i64 = 500_000;
pub const DEFAULT_SCALE: i64 = 200_000;

/// Each position coordinate lies in `[-POSITION_LIMIT, POSITION_LIMIT]`.
pub const POSITION_LIMIT: i64 = 200_000;

/// A point in milli-points.
#[derive(Clone, Copy, Debug, PartialEq, Eq, Structural)]
pub struct Point {
    pub x: i64,
    pub y: i64,
}

/// A color with one byte per channel; 255 is full intensity.
#[derive(Clone, Copy, Debug, PartialEq, Eq, Structural)]
pub struct Rgb8 {
    pub r: u8,
    pub g: u8,
    pub b: u8,
}

impl Rgb8 {
    pub fn magenta() -> (c: Rgb8)
        ensures
            c == (Rgb8 { r: 255, g: 0, b: 255 }),
    {
        Rgb8 { r: 255, g: 0, b: 255 }
    }

    /// A color with three independently drawn random channels.
    pub fn random() -> (c: Rgb8) {
        let r = random_channel();
        let g = random_channel();
        let b = random_channel();
        Rgb8 { r, g, b }
    }
}

/// `v` limited to `[lo, hi]`.
pub open spec fn clamp(v: int, lo: int, hi: int) -> int {
    if v < lo {
        lo
    } else if v > hi {
        hi
    } else {
        v
    }
}

/// The vertex count that a slider value `v` (in milli-units) selects: the
/// value truncated to a whole number, limited to the allowed side counts.
pub open spec fn vertex_count_of(v: int) -> int {
    clamp(v / (MILLI as int), MIN_VERTICES as int, MAX_VERTICES as int)
}

pub open spec fn scale_of(v: int) -> int {
    clamp(v, MIN_SCALE as int, MAX_SCALE as int)
}

pub open spec fn rotation_of(v: int) -> int {
    clamp(v, -HALF_TURN, HALF_TURN as int)
}

pub open spec fn coordinate_of(v: int) -> int {
    clamp(v, -POSITION_LIMIT, POSITION_LIMIT as int)
}

/// Everything the scene is drawn from.
#[derive(Clone, Copy, Debug, PartialEq, Eq, Structural)]
pub struct SceneState {
    pub vertex_count: usize,
    /// Circumscribed radius, in milli-points.
    pub scale: i64,
    /// Counter-clockwise rotation, in turn units.
    pub rotation: i64,
    /// Center of the polygon, in milli-points.
    pub position: Point,
    pub color: Rgb8,
}

impl SceneState {
    /// Every field lies in its declared range.
    pub open spec fn wf(&self) -> bool {
        &&& MIN_VERTICES <= self.vertex_count <= MAX_VERTICES
        &&& MIN_SCALE <= self.scale <= MAX_SCALE
        &&& -HALF_TURN <= self.rotation <= HALF_TURN
        &&& -POSITION_LIMIT <= self.position.x <= POSITION_LIMIT
        &&& -POSITION_LIMIT <= self.position.y <= POSITION_LIMIT
    }

    /// The state the application starts in: a magenta hexagon of radius 200
    /// at the origin, unrotated.
    pub fn new() -> (s: SceneState)
        ensures
            s.wf(),
            s.vertex_count == DEFAULT_VERTICES,
            s.scale == DEFAULT_SCALE,
            s.rotation == 0,
            s.position == (Point { x: 0, y: 0 }),
            s.color == (Rgb8 { r: 255, g: 0, b: 255 }),
    {
        SceneState {
            vertex_count: DEFAULT_VERTICES,
            scale: DEFAULT_SCALE,
            rotation: 0,
            position: Point { x: 0, y: 0 },
            color: Rgb8::magenta(),
        }
    }

    /// Sets the vertex count from a slider value in milli-units.
    pub fn set_vertex_count(&mut self, v: i64)
        ensures
            final(self).vertex_count == vertex_count_of(v as int),
            final(self).scale == old(self).scale,
            final(self).rotation == old(self).rotation,
            final(self).position == old(self).position,
            final(self).color == old(self).color,
    {
        if v < (MIN_VERTICES as i64) * MILLI {
            self.vertex_count = MIN_VERTICES;
        } else if v >= (MAX_VERTICES as i64) * MILLI {
            self.vertex_count = MAX_VERTICES;
        } else {
            self.vertex_count = (v / MILLI) as usize;
        }
    }

    /// Sets the radius, limited to `[MIN_SCALE, MAX_SCALE]`.
    pub fn set_scale(&mut self, v: i64)
        ensures
            final(self).scale == scale_of(v as int),
            final(self).vertex_count == old(self).vertex_count,
            final(self).rotation == old(self).rotation,
            final(self).position == old(self).position,
            final(self).color == old(self).color,
    {
        self.scale = clamp_i64(v, MIN_SCALE, MAX_SCALE);
    }

    /// Sets the rotation, limited to half a turn either way.
    pub fn set_rotation(&mut self, v: i64)
        ensures
            final(self).rotation == rotation_of(v as int),
            final(self).vertex_count == old(self).vertex_count,
            final(self).scale == old(self).scale,
            final(self).position == old(self).position,
            final(self).color == old(self).color,
    {
        self.rotation = clamp_i64(v, -HALF_TURN, HALF_TURN);
    }

    /// Sets the position, each axis limited on its own.
    pub fn set_position(&mut self, x: i64, y: i64)
        ensures
            final(self).position.x == coordinate_of(x as int),
            final(self).position.y == coordinate_of(y as int),
            final(self).vertex_count == old(self).vertex_count,
            final(self).scale == old(self).scale,
            final(self).rotation == old(self).rotation,
            final(self).color == old(self).color,
    {
        self.position = Point {
            x: clamp_i64(x, -POSITION_LIMIT, POSITION_LIMIT),
            y: clamp_i64(y, -POSITION_LIMIT, POSITION_LIMIT),
        };
    }

    /// Sets the color as given.
    pub fn set_color(&mut self, c: Rgb8)
        ensures
            final(self).color == c,
            final(self).vertex_count == old(self).vertex_count,
            final(self).scale == old(self).scale,
            final(self).rotation == old(self).rotation,
            final(self).position == old(self).position,
    {
        self.color = c;
    }

    /// Sets the color to a freshly drawn random one. Nothing is promised of
    /// the color itself: it may equal the previous one.
    pub fn randomize_color(&mut self)
        ensures
            final(self).vertex_count == old(self).vertex_count,
            final(self).scale == old(self).scale,
            final(self).rotation == old(self).rotation,
            final(self).position == old(self).position,
            old(self).wf() ==> final(self).wf(),
    {
        let c = Rgb8::random();
        self.set_color(c);
    }
}

fn clamp_i64(v: i64, lo: i64, hi: i64) -> (r: i64)
    requires
        lo <= hi,
    ensures
        r == clamp(v as int, lo as int, hi as int),
{
    if v < lo {
        lo
    } else if v > hi {
        hi
    } else {
        v
    }
}

/// Relies on rand::random (the thread-local generator, which nannou's
/// `random` re-exports) for one uniformly drawn byte; any byte may come back.
#[verifier::external_body]
fn random_channel() -> (r: u8) {
    rand::random::<u8>()
}

} // verus!
