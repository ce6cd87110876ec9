//! Overlay geometry: the lines that a scenario draws to show progress.
//!
//! A hold-position scenario draws a ring of twenty segments round its
//! target. The ring fills with green, segment by segment, as the streak
//! grows.

use vstd::prelude::*;
use crate::scenario::{Scenario, FIXED_TARGET_X, FIXED_TARGET_Y, HOLD_TICKS};
use crate::vec2::{distance_squared, Vec2};

verus! {

/// Segments of a progress ring.
pub const RING_SEGMENTS: usize = 20;

/// Radius of a progress ring.
pub const RING_RADIUS: i32 = 50_000;

/// A colour with four channels from 0 to 255.
#[derive(Clone, Copy, Debug, PartialEq, Eq, Structural)]
pub struct Color {
    pub red: u8,
    pub green: u8,
    pub blue: u8,
    pub alpha: u8,
}

/// A coloured segment from `a` to `b`.
#[derive(Clone, Copy, Debug)]
pub struct Line {
    pub a: Vec2,
    pub b: Vec2,
    pub color: Color,
}

/// Colour of a segment that the streak has reached.
pub open spec fn reached_color() -> Color {
    Color { red: 0, green: 255, blue: 0, alpha: 255 }
}

/// Colour of a segment that the streak has not reached.
pub open spec fn pending_color() -> Color {
    Color { red: 255, green: 0, blue: 0, alpha: 255 }
}

/// The radius times the cosine of `k` twentieths of a turn, rounded to the
/// nearest whole number, for the first quarter of the turn.
pub open spec fn quarter_cos(k: int) -> int {
    if k == 0 {
        50_000
    } else if k == 1 {
        47_553
    } else if k == 2 {
        40_451
    } else if k == 3 {
        29_389
    } else if k == 4 {
        15_451
    } else {
        0
    }
}

/// The radius times the cosine of `i` twentieths of a turn, by the
/// symmetries of the cosine.
pub open spec fn ring_cos(i: int) -> int {
    let k = i % 20;
    if k <= 5 {
        quarter_cos(k)
    } else if k <= 10 {
        -quarter_cos(10 - k)
    } else if k <= 15 {
        -quarter_cos(k - 10)
    } else {
        quarter_cos(20 - k)
    }
}

/// The radius times the sine of `i` twentieths of a turn: the cosine three
/// quarters of a turn further on.
pub open spec fn ring_sin(i: int) -> int {
    ring_cos(i + 15)
}

/// The `i`-th corner of the ring round a centre.
pub open spec fn ring_point(center: Vec2, i: int) -> Vec2 {
    Vec2 { x: (center.x + ring_cos(i)) as i32, y: (center.y + ring_sin(i)) as i32 }
}

/// Segment `i` is reached when the done fraction of the streak is more than
/// the fraction of the ring that lies before the segment.
pub open spec fn segment_reached(streak: int, i: int) -> bool {
    streak * RING_SEGMENTS > i * HOLD_TICKS
}

/// Segment `i` of the ring round a centre, for a streak.
pub open spec fn ring_segment(center: Vec2, streak: int, i: int) -> Line {
    Line {
        a: ring_point(center, i),
        b: ring_point(center, i + 1),
        color: if segment_reached(streak, i) {
            reached_color()
        } else {
            pending_color()
        },
    }
}

/// The table of the first quarter.
fn quarter(k: usize) -> (c: i32)
    requires
        k <= 5,
    ensures
        c == quarter_cos(k as int),
{
    if k == 0 {
        50_000
    } else if k == 1 {
        47_553
    } else if k == 2 {
        40_451
    } else if k == 3 {
        29_389
    } else if k == 4 {
        15_451
    } else {
        0
    }
}

/// The radius times the cosine of `i` twentieths of a turn.
fn cos_at(i: usize) -> (c: i32)
    requires
        i <= 40,
    ensures
        c == ring_cos(i as int),
        -RING_RADIUS <= c <= RING_RADIUS,
{
    let k: usize = i % 20;
    if k <= 5 {
        quarter(k)
    } else if k <= 10 {
        -quarter(10 - k)
    } else if k <= 15 {
        -quarter(k - 10)
    } else {
        quarter(20 - k)
    }
}

/// The `i`-th corner of the ring round a centre.
fn corner(center: &Vec2, i: usize) -> (p: Vec2)
    requires
        i <= 20,
        -0x4000_0000 <= center.x <= 0x4000_0000,
        -0x4000_0000 <= center.y <= 0x4000_0000,
    ensures
        p == ring_point(*center, i as int),
{
    Vec2 { x: center.x + cos_at(i), y: center.y + cos_at(i + 15) }
}

impl Scenario {
    /// The lines that show the scenario's progress: the ring of a
    /// hold-position scenario round its target, in the order of its
    /// segments, and nothing for any other scenario.
    pub open spec fn overlay(self) -> Seq<Line> {
        match self.hold_target() {
            Some(center) => Seq::new(
                RING_SEGMENTS as nat,
                |i: int| ring_segment(center, self.streak(), i),
            ),
            None => Seq::empty(),
        }
    }

    /// The lines that show the scenario's progress in this frame.
    pub fn lines(&self) -> (lines: Vec<Line>)
        requires
            self.wf(),
        ensures
            lines@ == self.overlay(),
    {
        let mut lines: Vec<Line> = Vec::new();
        let (center, streak): (Vec2, i32) = match self {
            Scenario::Tutorial02 { on_target_ticks } => (
                Vec2 { x: FIXED_TARGET_X, y: FIXED_TARGET_Y },
                *on_target_ticks,
            ),
            Scenario::Tutorial03 { on_target_ticks, target } => (*target, *on_target_ticks),
            _ => {
                assert(lines@ =~= self.overlay());
                return lines;
            },
        };
        let mut i: usize = 0;
        while i < RING_SEGMENTS
            invariant
                i <= RING_SEGMENTS,
                self.wf(),
                self.hold_target() == Some(center),
                self.streak() == streak,
                lines@.len() == i,
                forall|k: int| 0 <= k < i ==> lines@[k] == ring_segment(center, streak as int, k),
            decreases RING_SEGMENTS - i,
        {
            let done: i64 = streak as i64;
            let before: i64 = i as i64;
            assert(done * 20 == streak * RING_SEGMENTS && before * 120 == i * HOLD_TICKS);
            let reached: bool = done * 20 > before * 120;
            let color = if reached {
                Color { red: 0, green: 255, blue: 0, alpha: 255 }
            } else {
                Color { red: 255, green: 0, blue: 0, alpha: 255 }
            };
            lines.push(Line { a: corner(&center, i), b: corner(&center, i + 1), color });
            i += 1;
        }
        assert(lines@ =~= self.overlay());
        lines
    }
}

/// Every corner of a ring lies within one sub-unit of the circle of the
/// ring's radius round the centre, and the ring is closed: its last corner
/// is its first.
pub proof fn lemma_ring_is_round(center: Vec2, i: int)
    requires
        0 <= i <= RING_SEGMENTS,
        -0x4000_0000 <= center.x <= 0x4000_0000,
        -0x4000_0000 <= center.y <= 0x4000_0000,
    ensures
        (RING_RADIUS - 1) * (RING_RADIUS - 1) <= distance_squared(ring_point(center, i), center),
        distance_squared(ring_point(center, i), center) <= (RING_RADIUS + 1) * (RING_RADIUS + 1),
        ring_point(center, RING_SEGMENTS as int) == ring_point(center, 0),
{
    let c = ring_cos(i);
    let s = ring_sin(i);
    assert(ring_point(center, i).x - center.x == c);
    assert(ring_point(center, i).y - center.y == s);
    assert((RING_RADIUS - 1) * (RING_RADIUS - 1) <= c * c + s * s <= (RING_RADIUS + 1) * (
    RING_RADIUS + 1)) by {
        lemma_unit_circle(i);
    }
}

/// Cosine and sine of the table lie within one sub-unit of the circle.
proof fn lemma_unit_circle(i: int)
    requires
        0 <= i <= 20,
    ensures
        2_499_900_001 <= ring_cos(i) * ring_cos(i) + ring_sin(i) * ring_sin(i) <= 2_500_100_001,
{
    assert(50_000 * 50_000 == 2_500_000_000int);
    assert(47_553int * 47_553 + 15_451int * 15_451 == 2_500_021_210int);
    assert(40_451int * 40_451 + 29_389int * 29_389 == 2_499_996_722int);
    let c = ring_cos(i);
    let s = ring_sin(i);
    let a = if c < 0 { -c } else { c };
    let b = if s < 0 { -s } else { s };
    assert(c * c == a * a) by (nonlinear_arith)
        requires
            a == c || a == -c,
    ;
    assert(s * s == b * b) by (nonlinear_arith)
        requires
            b == s || b == -s,
    ;
    if a == 50_000 || a == 0 {
        assert(a * a + b * b == 2_500_000_000int);
    } else if a == 47_553 || a == 15_451 {
        assert(a * a + b * b == 2_500_021_210int);
    } else {
        assert(a * a + b * b == 2_499_996_722int);
    }
}

} // verus!
