//! Velocity and the policy that decides what happens at the edge of the world.

use vstd::prelude::*;
use crate::fixed::{pin, pinned_neg, pinned_sub};
use crate::geometry::{Rectangle, RectangleModel};

verus! {

/// Width of the world, 600 world units. The world reaches from 0 to here.
pub const WORLD_WIDTH: i64 = 600_000;

/// Height of the world, 400 world units. The world reaches from 0 to here.
pub const WORLD_HEIGHT: i64 = 400_000;

/// How a moving rectangle reacts when it crosses the bounds of the world.
#[derive(Clone, Copy, Debug, PartialEq, Eq, Structural)]
pub enum EdgeBehavior {
    /// Leaving on one side, the rectangle enters on the opposite side.
    Wrap,
    /// The rectangle is held inside and its velocity turns round.
    Bounce,
    /// The rectangle is held inside; its velocity stays.
    Constrain,
    /// As `Constrain`, on the vertical axis only.
    VerticalConstrain,
    /// As `Bounce`, on the vertical axis only.
    VerticalBounce,
}

/// A velocity and an edge policy, applied to a rectangle once per tick.
#[derive(Clone, Copy, Debug, PartialEq, Eq)]
pub struct PhysicsBody {
    pub vx: i64,
    pub vy: i64,
    pub edge_behavior: EdgeBehavior,
}

/// The mathematical content of a [`PhysicsBody`].
pub ghost struct BodyModel {
    pub vx: int,
    pub vy: int,
    pub edge_behavior: EdgeBehavior,
}

impl View for PhysicsBody {
    type V = BodyModel;

    open spec fn view(&self) -> BodyModel {
        BodyModel { vx: self.vx as int, vy: self.vy as int, edge_behavior: self.edge_behavior }
    }
}

/// Position on one axis after wrapping: beyond `bound` it becomes 0, below 0
/// it becomes `bound`.
pub open spec fn wrap_axis(pos: int, bound: int) -> int {
    if pos > bound {
        0
    } else if pos < 0 {
        bound
    } else {
        pos
    }
}

/// Whether a span that starts at `pos` and is `extent` long reaches beyond
/// `bound`.
pub open spec fn past_far_edge(pos: int, extent: int, bound: int) -> bool {
    pos + extent > bound
}

/// Position on one axis after the far edge has been corrected: a span that
/// reaches beyond `bound` is moved back so that it ends at `bound`.
pub open spec fn pulled_back(pos: int, extent: int, bound: int) -> int {
    if past_far_edge(pos, extent, bound) {
        pin(bound - extent)
    } else {
        pos
    }
}

/// Position on one axis after both corrections, the far edge first, then the
/// near edge: what is still below 0 is moved to 0.
pub open spec fn constrain_axis(pos: int, extent: int, bound: int) -> int {
    let p = pulled_back(pos, extent, bound);
    if p < 0 {
        0
    } else {
        p
    }
}

/// Velocity on one axis after a bounce: it is turned round once for each of
/// the two corrections that `constrain_axis` makes.
pub open spec fn bounce_velocity(pos: int, extent: int, bound: int, v: int) -> int {
    let v1 = if past_far_edge(pos, extent, bound) {
        pin(-v)
    } else {
        v
    };
    if pulled_back(pos, extent, bound) < 0 {
        pin(-v1)
    } else {
        v1
    }
}

impl EdgeBehavior {
    /// Whether the policy holds the horizontal axis inside the world.
    pub open spec fn holds_horizontal(self) -> bool {
        self == EdgeBehavior::Bounce || self == EdgeBehavior::Constrain
    }

    /// Whether the policy holds the vertical axis inside the world.
    pub open spec fn holds_vertical(self) -> bool {
        self != EdgeBehavior::Wrap
    }

    /// Whether the policy turns the velocity round where it corrects.
    pub open spec fn bounces(self) -> bool {
        self == EdgeBehavior::Bounce || self == EdgeBehavior::VerticalBounce
    }
}

impl BodyModel {
    /// The rectangle after one tick: moved by the velocity, then corrected
    /// once on each axis that the policy covers.
    pub open spec fn rectangle_after(self, rect: RectangleModel) -> RectangleModel {
        let moved = rect.translated(self.vx, self.vy);
        let x = if self.edge_behavior == EdgeBehavior::Wrap {
            wrap_axis(moved.x, WORLD_WIDTH as int)
        } else if self.edge_behavior.holds_horizontal() {
            constrain_axis(moved.x, moved.width, WORLD_WIDTH as int)
        } else {
            moved.x
        };
        let y = if self.edge_behavior == EdgeBehavior::Wrap {
            wrap_axis(moved.y, WORLD_HEIGHT as int)
        } else {
            constrain_axis(moved.y, moved.height, WORLD_HEIGHT as int)
        };
        RectangleModel { x, y, ..moved }
    }

    /// The body after one tick: only a bouncing policy changes it, and only
    /// on the axes that it covers.
    pub open spec fn body_after(self, rect: RectangleModel) -> BodyModel {
        let moved = rect.translated(self.vx, self.vy);
        let vx = if self.edge_behavior == EdgeBehavior::Bounce {
            bounce_velocity(moved.x, moved.width, WORLD_WIDTH as int, self.vx)
        } else {
            self.vx
        };
        let vy = if self.edge_behavior.bounces() {
            bounce_velocity(moved.y, moved.height, WORLD_HEIGHT as int, self.vy)
        } else {
            self.vy
        };
        BodyModel { vx, vy, ..self }
    }
}

fn wrap(pos: i64, bound: i64) -> (r: i64)
    ensures
        r == wrap_axis(pos as int, bound as int),
{
    if pos > bound {
        0
    } else if pos < 0 {
        bound
    } else {
        pos
    }
}

fn reaches_past(pos: i64, extent: i64, bound: i64) -> (r: bool)
    ensures
        r == past_far_edge(pos as int, extent as int, bound as int),
{
    pos as i128 + extent as i128 > bound as i128
}

fn constrain(pos: i64, extent: i64, bound: i64) -> (r: i64)
    ensures
        r == constrain_axis(pos as int, extent as int, bound as int),
{
    let mut p: i64 = pos;
    if reaches_past(pos, extent, bound) {
        p = pinned_sub(bound, extent);
    }
    if p < 0 {
        p = 0;
    }
    p
}

fn bounce(pos: i64, extent: i64, bound: i64, v: i64) -> (r: (i64, i64))
    ensures
        r.0 == constrain_axis(pos as int, extent as int, bound as int),
        r.1 == bounce_velocity(pos as int, extent as int, bound as int, v as int),
{
    let mut p: i64 = pos;
    let mut w: i64 = v;
    if reaches_past(pos, extent, bound) {
        p = pinned_sub(bound, extent);
        w = pinned_neg(w);
    }
    if p < 0 {
        p = 0;
        w = pinned_neg(w);
    }
    (p, w)
}

impl PhysicsBody {
    /// A body at rest that is held inside the world.
    pub fn new() -> (body: PhysicsBody)
        ensures
            body@ == (BodyModel { vx: 0, vy: 0, edge_behavior: EdgeBehavior::Constrain }),
    {
        PhysicsBody { vx: 0, vy: 0, edge_behavior: EdgeBehavior::Constrain }
    }

    /// Advances `rectangle` by one tick: moves it by the velocity, then
    /// applies the edge policy against the world, once per axis.
    pub fn apply(&mut self, rectangle: &mut Rectangle)
        ensures
            final(rectangle)@ == old(self)@.rectangle_after(old(rectangle)@),
            final(self)@ == old(self)@.body_after(old(rectangle)@),
    {
        rectangle.translate(self.vx, self.vy);
        match self.edge_behavior {
            EdgeBehavior::Wrap => {
                rectangle.x = wrap(rectangle.x, WORLD_WIDTH);
                rectangle.y = wrap(rectangle.y, WORLD_HEIGHT);
            },
            EdgeBehavior::Bounce => {
                let (x, vx) = bounce(rectangle.x, rectangle.width, WORLD_WIDTH, self.vx);
                let (y, vy) = bounce(rectangle.y, rectangle.height, WORLD_HEIGHT, self.vy);
                rectangle.x = x;
                rectangle.y = y;
                self.vx = vx;
                self.vy = vy;
            },
            EdgeBehavior::Constrain => {
                rectangle.x = constrain(rectangle.x, rectangle.width, WORLD_WIDTH);
                rectangle.y = constrain(rectangle.y, rectangle.height, WORLD_HEIGHT);
            },
            EdgeBehavior::VerticalConstrain => {
                rectangle.y = constrain(rectangle.y, rectangle.height, WORLD_HEIGHT);
            },
            EdgeBehavior::VerticalBounce => {
                let (y, vy) = bounce(rectangle.y, rectangle.height, WORLD_HEIGHT, self.vy);
                rectangle.y = y;
                self.vy = vy;
            },
        }
    }
}

/// A holding policy never leaves the corner of the rectangle below 0 on an
/// axis that it covers, and a rectangle that is no larger than the world ends
/// wholly inside it on that axis, whatever the velocity.
pub proof fn lemma_held_rectangle_stays_inside(body: PhysicsBody, rect: Rectangle)
    requires
        rect@.wf(),
    ensures
        ({
            let after = body@.rectangle_after(rect@);
            &&& after.width == rect.width && after.height == rect.height
            &&& body.edge_behavior.holds_horizontal() ==> 0 <= after.x
            &&& body.edge_behavior.holds_horizontal() && rect.width <= WORLD_WIDTH ==> after.x
                + after.width <= WORLD_WIDTH
            &&& body.edge_behavior.holds_vertical() ==> 0 <= after.y
            &&& body.edge_behavior.holds_vertical() && rect.height <= WORLD_HEIGHT ==> after.y
                + after.height <= WORLD_HEIGHT
        }),
{
}

/// A holding policy that does not bounce leaves the velocity as it was.
pub proof fn lemma_constrain_keeps_velocity(body: PhysicsBody, rect: Rectangle)
    requires
        !body.edge_behavior.bounces(),
    ensures
        body@.body_after(rect@) == body@,
{
}

/// Under a bouncing policy, on an axis that the policy covers and on which
/// the rectangle is no larger than the world: where the position was
/// corrected the velocity is the opposite of what it was, and where it was
/// not the velocity is unchanged. The opposite of `i64::MIN` is pinned to
/// `i64::MAX`.
pub proof fn lemma_bounce_turns_velocity(body: PhysicsBody, rect: Rectangle)
    requires
        rect@.wf(),
        body.edge_behavior.bounces(),
    ensures
        ({
            let moved = rect@.translated(body.vx as int, body.vy as int);
            let after = body@.rectangle_after(rect@);
            let turned = body@.body_after(rect@);
            &&& rect.height <= WORLD_HEIGHT && after.y != moved.y ==> turned.vy == pin(-body.vy)
            &&& after.y == moved.y ==> turned.vy == body.vy
            &&& body.edge_behavior == EdgeBehavior::Bounce && rect.width <= WORLD_WIDTH && after.x
                != moved.x ==> turned.vx == pin(-body.vx)
            &&& after.x == moved.x ==> turned.vx == body.vx
            &&& turned.edge_behavior == body.edge_behavior
        }),
{
}

/// Under `Wrap`, a corner that has moved beyond the far bound is put at 0 and
/// one that has moved below 0 is put at the far bound. So a rectangle that
/// stands at the far bound and moves on by its own width and height arrives
/// at 0, and one that stands at 0 and moves back by its own width and height
/// arrives at the far bound. The velocity is untouched, so going there and
/// back returns the rectangle to where it was.
pub proof fn lemma_wrap_round_trip(body: PhysicsBody, rect: Rectangle)
    requires
        body.edge_behavior == EdgeBehavior::Wrap,
        rect.width > 0,
        rect.height > 0,
    ensures
        body@.body_after(rect@) == body@,
        ({
            let moved = rect@.translated(body.vx as int, body.vy as int);
            let after = body@.rectangle_after(rect@);
            &&& moved.x > WORLD_WIDTH ==> after.x == 0
            &&& moved.x < 0 ==> after.x == WORLD_WIDTH
            &&& 0 <= moved.x <= WORLD_WIDTH ==> after.x == moved.x
            &&& moved.y > WORLD_HEIGHT ==> after.y == 0
            &&& moved.y < 0 ==> after.y == WORLD_HEIGHT
            &&& 0 <= moved.y <= WORLD_HEIGHT ==> after.y == moved.y
        }),
        rect.x == WORLD_WIDTH && body.vx == rect.width ==> body@.rectangle_after(rect@).x == 0,
        rect.y == WORLD_HEIGHT && body.vy == rect.height ==> body@.rectangle_after(rect@).y == 0,
        rect.x == 0 && body.vx == -rect.width ==> body@.rectangle_after(rect@).x == WORLD_WIDTH,
        rect.y == 0 && body.vy == -rect.height ==> body@.rectangle_after(rect@).y == WORLD_HEIGHT,
        rect.x == WORLD_WIDTH && rect.y == WORLD_HEIGHT && body.vx == rect.width && body.vy
            == rect.height ==> (BodyModel { vx: -body.vx, vy: -body.vy, ..body@ }).rectangle_after(
            body@.rectangle_after(rect@),
        ) == rect@,
{
}

} // verus!
