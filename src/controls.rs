//! The control panel: each user gesture becomes an event, and a tick applies
//! the events of one frame to the scene state in order.
use vstd::prelude::*;
use vstd::arithmetic::div_mod::lemma_fundamental_div_mod;
use crate::scene::{
    coordinate_of, rotation_of, scale_of, vertex_count_of, Point, Rgb8, SceneState, HALF_TURN,
    MAX_SCALE, MAX_VERTICES, MILLI, MIN_SCALE, MIN_VERTICES, POSITION_LIMIT,
};

verus! {

/// A change that one control reports. Values are in the scene's units:
/// milli-units for the sliders and the pad, turn units for the rotation.
#[derive(Clone, Copy, Debug, PartialEq, Eq, Structural)]
pub enum ControlEvent {
    VertexSlider(i64),
    ScaleSlider(i64),
    RotationSlider(i64),
    /// The random-color button, with the color drawn for this press.
    ColorButton(Rgb8),
    PositionPad(i64, i64),
}

/// A field of the scene state.
#[derive(Clone, Copy, Debug, PartialEq, Eq, Structural)]
pub enum Field {
    VertexCount,
    Scale,
    Rotation,
    Color,
    Position,
}

/// The field that an event sets.
pub open spec fn field_of(e: ControlEvent) -> Field {
    match e {
        ControlEvent::VertexSlider(_) => Field::VertexCount,
        ControlEvent::ScaleSlider(_) => Field::Scale,
        ControlEvent::RotationSlider(_) => Field::Rotation,
        ControlEvent::ColorButton(_) => Field::Color,
        ControlEvent::PositionPad(_, _) => Field::Position,
    }
}

/// The state after one event: the field it names takes the clamped value,
/// every other field stays.
pub open spec fn apply_event(s: SceneState, e: ControlEvent) -> SceneState {
    match e {
        ControlEvent::VertexSlider(v) => SceneState {
            vertex_count: vertex_count_of(v as int) as usize,
            ..s
        },
        ControlEvent::ScaleSlider(v) => SceneState { scale: scale_of(v as int) as i64, ..s },
        ControlEvent::RotationSlider(v) => SceneState {
            rotation: rotation_of(v as int) as i64,
            ..s
        },
        ControlEvent::ColorButton(c) => SceneState { color: c, ..s },
        ControlEvent::PositionPad(x, y) => SceneState {
            position: Point { x: coordinate_of(x as int) as i64, y: coordinate_of(y as int) as i64 },
            ..s
        },
    }
}

/// The state after a sequence of events, applied first to last.
pub open spec fn apply_events(s: SceneState, es: Seq<ControlEvent>) -> SceneState
    decreases es.len(),
{
    if es.len() == 0 {
        s
    } else {
        apply_event(apply_events(s, es.drop_last()), es.last())
    }
}

impl ControlEvent {
    /// A press of the random-color button, with three random channels drawn
    /// for it.
    pub fn random_color() -> (e: ControlEvent)
        ensures
            e is ColorButton,
    {
        ControlEvent::ColorButton(Rgb8::random())
    }
}

impl SceneState {
    /// Applies one event and reports the field it set.
    pub fn apply(&mut self, e: ControlEvent) -> (f: Field)
        ensures
            *final(self) == apply_event(*old(self), e),
            f == field_of(e),
    {
        match e {
            ControlEvent::VertexSlider(v) => {
                self.set_vertex_count(v);
                Field::VertexCount
            },
            ControlEvent::ScaleSlider(v) => {
                self.set_scale(v);
                Field::Scale
            },
            ControlEvent::RotationSlider(v) => {
                self.set_rotation(v);
                Field::Rotation
            },
            ControlEvent::ColorButton(c) => {
                self.set_color(c);
                Field::Color
            },
            ControlEvent::PositionPad(x, y) => {
                self.set_position(x, y);
                Field::Position
            },
        }
    }

    /// Applies the events of one tick in order and reports, for each, the
    /// field it set.
    pub fn on_tick(&mut self, events: &Vec<ControlEvent>) -> (changed: Vec<Field>)
        ensures
            *final(self) == apply_events(*old(self), events@),
            changed@ == events@.map_values(|e: ControlEvent| field_of(e)),
    {
        let mut changed: Vec<Field> = Vec::new();
        let mut i: usize = 0;
        while i < events.len()
            invariant
                i <= events@.len(),
                *self == apply_events(*old(self), events@.take(i as int)),
                changed@ == events@.take(i as int).map_values(|e: ControlEvent| field_of(e)),
            decreases events@.len() - i,
        {
            let f = self.apply(events[i]);
            changed.push(f);
            proof {
                let next = events@.take(i as int + 1);
                assert(next.drop_last() =~= events@.take(i as int));
                assert(changed@ =~= next.map_values(|e: ControlEvent| field_of(e)));
            }
            i = i + 1;
        }
        proof {
            assert(events@.take(i as int) =~= events@);
        }
        changed
    }
}

/// Every event keeps each field of a well-formed state in its range, so a
/// state that starts in range stays in range through any events.
pub proof fn lemma_events_keep_ranges(s: SceneState, es: Seq<ControlEvent>)
    requires
        s.wf(),
    ensures
        apply_events(s, es).wf(),
    decreases es.len(),
{
    if es.len() > 0 {
        lemma_events_keep_ranges(s, es.drop_last());
        match es.last() {
            ControlEvent::VertexSlider(v) => {
                assert(0 <= vertex_count_of(v as int) <= 15);
            },
            _ => {},
        }
    }
}

/// A stored value is the control's value limited to its range and nothing
/// else: a value already in range is kept exactly, and a whole slider value
/// in range becomes the vertex count as it is.
pub proof fn lemma_in_range_values_kept(s: SceneState, e: ControlEvent)
    ensures
        match e {
            ControlEvent::VertexSlider(v) => {
                v % MILLI == 0 && MIN_VERTICES * MILLI <= v <= MAX_VERTICES * MILLI
                    ==> apply_event(s, e).vertex_count * MILLI == v
            },
            ControlEvent::ScaleSlider(v) => {
                MIN_SCALE <= v <= MAX_SCALE ==> apply_event(s, e).scale == v
            },
            ControlEvent::RotationSlider(v) => {
                -HALF_TURN <= v <= HALF_TURN ==> apply_event(s, e).rotation == v
            },
            ControlEvent::ColorButton(c) => apply_event(s, e).color == c,
            ControlEvent::PositionPad(x, y) => {
                -POSITION_LIMIT <= x <= POSITION_LIMIT && -POSITION_LIMIT <= y <= POSITION_LIMIT
                    ==> apply_event(s, e).position == (Point { x, y })
            },
        },
{
    match e {
        ControlEvent::VertexSlider(v) => {
            lemma_fundamental_div_mod(v as int, MILLI as int);
        },
        _ => {},
    }
}

} // verus!
