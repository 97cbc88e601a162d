use crate::time::ClockTime;
use vstd::prelude::*;

verus! {

/// The largest side, in units, that the clock asks for in layout; the side it
/// asks for is square.
pub const MAX_EXTENT: u32 = 400;

/// Tick marks around the rim, one per minute position.
pub const TICK_COUNT: u32 = 60;

/// Every this many tick marks, one is long: the hour positions.
pub const LONG_TICK_EVERY: u32 = 5;

/// Inset, in units, of the inner edge of the tick marks from the rim; the
/// hands reach to that edge.
pub const RIM_INSET: i64 = 20;

/// Shapes in a rendered face: the ticks, then the hour and the minute hand.
pub const SHAPE_COUNT: usize = 62;

/// The size of the surface that the face is drawn on, in whole units.
#[derive(Clone, Copy, Debug, PartialEq, Eq, Structural)]
pub struct SurfaceSize {
    pub width: u32,
    pub height: u32,
}

/// A rotation of `steps / per_turn` of a full turn, clockwise from the top.
#[derive(Clone, Copy, Debug, PartialEq, Eq, Structural)]
pub struct Angle {
    pub steps: u64,
    pub per_turn: u64,
}

/// An axis-aligned rectangle between the corners `(x0, y0)` and `(x1, y1)`,
/// in the frame whose origin is the centre of the surface and whose y axis
/// points down, before rotation.
#[derive(Clone, Copy, Debug, PartialEq, Eq, Structural)]
pub struct Rect {
    pub x0: i64,
    pub y0: i64,
    pub x1: i64,
    pub y1: i64,
}

/// What a shape is; each kind is drawn in a colour of its own class.
#[derive(Clone, Copy, Debug, PartialEq, Eq, Structural)]
pub enum ShapeKind {
    LongTick,
    ShortTick,
    HourHand,
    MinuteHand,
}

/// A filled rectangle, rotated about the centre of the surface.
#[derive(Clone, Copy, Debug, PartialEq, Eq, Structural)]
pub struct Shape {
    pub kind: ShapeKind,
    pub angle: Angle,
    pub rect: Rect,
}

/// Two angles of the same kind that point the same way.
pub open spec fn same_direction(a: Angle, b: Angle) -> bool {
    &&& a.per_turn == b.per_turn
    &&& a.per_turn > 0
    &&& a.steps % a.per_turn == b.steps % b.per_turn
}

/// Half the shorter side of the surface, rounded down.
pub open spec fn max_radius_of(size: SurfaceSize) -> int {
    if size.width > size.height {
        size.height as int / 2
    } else {
        size.width as int / 2
    }
}

/// `x / 2` rounded toward zero.
pub open spec fn half_toward_zero(x: int) -> int {
    if x >= 0 {
        x / 2
    } else {
        -((-x) / 2)
    }
}

pub open spec fn is_long_tick(i: int) -> bool {
    i % LONG_TICK_EVERY as int == 0
}

/// The hour hand turns twice a day: `2 * seconds / 86400` of a turn.
pub open spec fn hour_angle_of(seconds: nat) -> Angle {
    Angle { steps: (2 * seconds) as u64, per_turn: 86400 }
}

/// The minute hand turns once an hour, sweeping with every second:
/// `seconds / 3600` of a turn.
pub open spec fn minute_angle_of(seconds: nat) -> Angle {
    Angle { steps: seconds as u64, per_turn: 3600 }
}

pub open spec fn tick_angle_of(i: int) -> Angle {
    Angle { steps: i as u64, per_turn: TICK_COUNT as u64 }
}

/// Tick mark `i` on a face of radius `r`: long ones span the outer 20 units,
/// short ones the 3 units inside that.
pub open spec fn tick_spec(i: int, r: int) -> Shape {
    if is_long_tick(i) {
        Shape {
            kind: ShapeKind::LongTick,
            angle: tick_angle_of(i),
            rect: Rect { x0: -3i64, y0: (-r) as i64, x1: 2, y1: (RIM_INSET - r) as i64 },
        }
    } else {
        Shape {
            kind: ShapeKind::ShortTick,
            angle: tick_angle_of(i),
            rect: Rect { x0: -1i64, y0: (17 - r) as i64, x1: 1, y1: (RIM_INSET - r) as i64 },
        }
    }
}

/// The hour hand: half as long as the minute hand.
pub open spec fn hour_hand_spec(seconds: nat, r: int) -> Shape {
    Shape {
        kind: ShapeKind::HourHand,
        angle: hour_angle_of(seconds),
        rect: Rect { x0: -6i64, y0: 0, x1: 6, y1: half_toward_zero(RIM_INSET - r) as i64 },
    }
}

/// The minute hand: from the centre to the inner edge of the ticks.
pub open spec fn minute_hand_spec(seconds: nat, r: int) -> Shape {
    Shape {
        kind: ShapeKind::MinuteHand,
        angle: minute_angle_of(seconds),
        rect: Rect { x0: -3i64, y0: 0, x1: 2, y1: (RIM_INSET - r) as i64 },
    }
}

/// The whole face for a time on a surface: the ticks in order, then the hour
/// hand, then the minute hand.
pub open spec fn scene(time: ClockTime, size: SurfaceSize) -> Seq<Shape> {
    let r = max_radius_of(size);
    let s = time.seconds_from_midnight();
    Seq::new(
        SHAPE_COUNT as nat,
        |i: int|
            if i < TICK_COUNT as int {
                tick_spec(i, r)
            } else if i == TICK_COUNT as int {
                hour_hand_spec(s, r)
            } else {
                minute_hand_spec(s, r)
            },
    )
}

/// How many of `shapes` are of `kind`.
pub open spec fn count_kind(shapes: Seq<Shape>, kind: ShapeKind) -> nat
    decreases shapes.len(),
{
    if shapes.len() == 0 {
        0
    } else {
        count_kind(shapes.drop_last(), kind) + if shapes.last().kind == kind {
            1nat
        } else {
            0nat
        }
    }
}

/// The hour hand repeats every twelve hours: at two times twelve hours apart
/// it points the same way.
pub proof fn lemma_hour_hand_period(a: ClockTime, b: ClockTime)
    requires
        a.wf(),
        b.wf(),
        b.seconds_from_midnight() == a.seconds_from_midnight() + 43200,
    ensures
        same_direction(
            hour_angle_of(a.seconds_from_midnight()),
            hour_angle_of(b.seconds_from_midnight()),
        ),
{
    let s = a.seconds_from_midnight();
    assert((2 * s + 86400) % 86400 == (2 * s) % 86400);
}

/// The minute hand repeats every hour: at two times one hour apart it points
/// the same way.
pub proof fn lemma_minute_hand_period(a: ClockTime, b: ClockTime)
    requires
        a.wf(),
        b.wf(),
        b.seconds_from_midnight() == a.seconds_from_midnight() + 3600,
    ensures
        same_direction(
            minute_angle_of(a.seconds_from_midnight()),
            minute_angle_of(b.seconds_from_midnight()),
        ),
{
    let s = a.seconds_from_midnight();
    assert((s + 3600) % 3600 == s % 3600);
}

proof fn lemma_long_ticks_prefix(time: ClockTime, size: SurfaceSize, n: nat)
    requires
        n <= TICK_COUNT,
    ensures
        count_kind(scene(time, size).take(n as int), ShapeKind::LongTick) == (n + 4) / 5,
        count_kind(scene(time, size).take(n as int), ShapeKind::ShortTick) == n - (n + 4) / 5,
    decreases n,
{
    let sc = scene(time, size);
    if n > 0 {
        lemma_long_ticks_prefix(time, size, (n - 1) as nat);
        assert(sc.take(n as int).drop_last() =~= sc.take(n - 1));
    }
}

/// A face holds exactly sixty tick marks, at positions `0 .. 60`; the twelve at
/// the multiples of five are long and the other forty-eight short.
pub proof fn lemma_tick_marks(time: ClockTime, size: SurfaceSize)
    ensures
        forall|i: int|
            0 <= i < TICK_COUNT ==> (#[trigger] scene(time, size)[i]).angle == tick_angle_of(i),
        forall|i: int|
            0 <= i < TICK_COUNT ==> ((#[trigger] scene(time, size)[i]).kind
                == ShapeKind::LongTick <==> i % 5 == 0),
        forall|i: int|
            TICK_COUNT <= i < scene(time, size).len() ==> (
            #[trigger] scene(time, size)[i]).kind != ShapeKind::LongTick && scene(
                time,
                size,
            )[i].kind != ShapeKind::ShortTick,
        count_kind(scene(time, size), ShapeKind::LongTick) + count_kind(
            scene(time, size),
            ShapeKind::ShortTick,
        ) == 60,
        count_kind(scene(time, size), ShapeKind::LongTick) == 12,
{
    let sc = scene(time, size);
    lemma_long_ticks_prefix(time, size, 60);
    assert(sc.drop_last() =~= sc.take(61));
    assert(sc.take(61).drop_last() =~= sc.take(60));
    assert(count_kind(sc.take(61), ShapeKind::LongTick) == count_kind(
        sc.take(60),
        ShapeKind::LongTick,
    ));
    assert(count_kind(sc.take(61), ShapeKind::ShortTick) == count_kind(
        sc.take(60),
        ShapeKind::ShortTick,
    ));
}

/// Rendering depends only on the surface and on the second shown: two times
/// equal at one-second granularity, the same time in particular, give the
/// same shapes.
pub proof fn lemma_render_deterministic(a: ClockTime, b: ClockTime, size: SurfaceSize)
    requires
        a.same_second(b),
    ensures
        scene(a, size) == scene(b, size),
{
    assert(scene(a, size) =~= scene(b, size));
}

/// Half the shorter side of the surface, rounded down: the radius of the face.
pub fn max_radius(size: SurfaceSize) -> (r: u32)
    ensures
        r == max_radius_of(size),
{
    if size.width > size.height {
        size.height / 2
    } else {
        size.width / 2
    }
}

/// The angle of the hour hand at `time`.
pub fn hour_hand_angle(time: &ClockTime) -> (r: Angle)
    requires
        time.wf(),
    ensures
        r == hour_angle_of(time.seconds_from_midnight()),
{
    let s = time.num_seconds_from_midnight();
    Angle { steps: 2 * s as u64, per_turn: 86400 }
}

/// The angle of the minute hand at `time`.
pub fn minute_hand_angle(time: &ClockTime) -> (r: Angle)
    requires
        time.wf(),
    ensures
        r == minute_angle_of(time.seconds_from_midnight()),
{
    let s = time.num_seconds_from_midnight();
    Angle { steps: s as u64, per_turn: 3600 }
}

/// Tick mark `i` on a face of radius `radius`.
pub fn tick_mark(i: u32, radius: u32) -> (r: Shape)
    requires
        i < TICK_COUNT,
    ensures
        r == tick_spec(i as int, radius as int),
{
    let r = radius as i64;
    let angle = Angle { steps: i as u64, per_turn: TICK_COUNT as u64 };
    if i % LONG_TICK_EVERY == 0 {
        Shape {
            kind: ShapeKind::LongTick,
            angle,
            rect: Rect { x0: -3, y0: -r, x1: 2, y1: RIM_INSET - r },
        }
    } else {
        Shape {
            kind: ShapeKind::ShortTick,
            angle,
            rect: Rect { x0: -1, y0: 17 - r, x1: 1, y1: RIM_INSET - r },
        }
    }
}

/// The shapes that draw the face for `time` on a surface of `size`: the tick
/// marks in order, then the hour hand, then the minute hand. The result
/// depends on nothing else.
pub fn render(time: &ClockTime, size: SurfaceSize) -> (shapes: Vec<Shape>)
    requires
        time.wf(),
    ensures
        shapes@ == scene(*time, size),
{
    let radius = max_radius(size);
    let r = radius as i64;
    let mut shapes: Vec<Shape> = Vec::new();
    let mut i: u32 = 0;
    while i < TICK_COUNT
        invariant
            i <= TICK_COUNT,
            radius == max_radius_of(size),
            shapes@.len() == i,
            forall|j: int| 0 <= j < i ==> shapes@[j] == scene(*time, size)[j],
        decreases TICK_COUNT - i,
    {
        shapes.push(tick_mark(i, radius));
        i = i + 1;
    }
    let v = RIM_INSET - r;
    let hour_end = if v >= 0 {
        v / 2
    } else {
        -((-v) / 2)
    };
    shapes.push(
        Shape {
            kind: ShapeKind::HourHand,
            angle: hour_hand_angle(time),
            rect: Rect { x0: -6, y0: 0, x1: 6, y1: hour_end },
        },
    );
    shapes.push(
        Shape {
            kind: ShapeKind::MinuteHand,
            angle: minute_hand_angle(time),
            rect: Rect { x0: -3, y0: 0, x1: 2, y1: v },
        },
    );
    assert(shapes@ =~= scene(*time, size));
    shapes
}

} // verus!
