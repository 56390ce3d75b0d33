//! The ball: a rectangle that speeds up while it is in play.

use vstd::prelude::*;
use crate::fixed::{half, pin, pinned_add, pinned_neg};
use crate::geometry::{Rectangle, RectangleModel};
use crate::physics::{BodyModel, EdgeBehavior, PhysicsBody, WORLD_WIDTH};

verus! {

/// Width of the ball, 16 world units.
pub const BALL_WIDTH: i64 = 16_000;

/// Height of the ball, 16 world units.
pub const BALL_HEIGHT: i64 = 16_000;

/// Speed of the ball at the start of a round, 3 world units per tick.
pub const BALL_SPEED: i64 = 3_000;

/// What the speed of the ball gains with each tick in play, 0.005 world
/// units per tick.
pub const BALL_SPEED_STEP: i64 = 5;

/// Velocity of a new ball on each axis before it is started, 1 world unit
/// per tick.
pub const BALL_IDLE_VELOCITY: i64 = 1_000;

/// The ball: its rectangle, its physics and its current speed.
#[derive(Clone, Copy, Debug, PartialEq, Eq)]
pub struct Ball {
    pub rectangle: Rectangle,
    pub physics: PhysicsBody,
    pub speed: i64,
}

/// The mathematical content of a [`Ball`].
pub ghost struct BallModel {
    pub rectangle: RectangleModel,
    pub physics: BodyModel,
    pub speed: int,
}

impl View for Ball {
    type V = BallModel;

    open spec fn view(&self) -> BallModel {
        BallModel { rectangle: self.rectangle@, physics: self.physics@, speed: self.speed as int }
    }
}

impl BallModel {
    /// The ball that `Ball::new` makes at `(x, y)`.
    pub open spec fn fresh(x: int, y: int) -> BallModel {
        BallModel {
            rectangle: RectangleModel {
                x,
                y,
                width: BALL_WIDTH as int,
                height: BALL_HEIGHT as int,
            },
            physics: BodyModel {
                vx: BALL_IDLE_VELOCITY as int,
                vy: BALL_IDLE_VELOCITY as int,
                edge_behavior: EdgeBehavior::VerticalBounce,
            },
            speed: BALL_SPEED as int,
        }
    }

    /// The ball with its speed back at the starting speed.
    pub open spec fn with_base_speed(self) -> BallModel {
        BallModel { speed: BALL_SPEED as int, ..self }
    }

    /// The ball after one tick in play: the speed has grown by one step, and
    /// the rectangle has moved by the velocity that the ball had before the
    /// tick.
    pub open spec fn updated(self) -> BallModel {
        BallModel {
            rectangle: self.physics.rectangle_after(self.rectangle),
            physics: self.physics.body_after(self.rectangle),
            speed: pin(self.speed + BALL_SPEED_STEP),
        }
    }

    /// The ball launched: it heads right and down at its speed.
    pub open spec fn started(self) -> BallModel {
        BallModel { physics: BodyModel { vx: self.speed, vy: self.speed, ..self.physics }, ..self }
    }

    /// Whether the centre of the ball lies in the right half of the world.
    pub open spec fn in_right_half(self) -> bool {
        self.rectangle.center_x() > WORLD_WIDTH / 2
    }

    /// Whether the centre of the ball lies in the left half of the world.
    pub open spec fn in_left_half(self) -> bool {
        self.rectangle.center_x() < WORLD_WIDTH / 2
    }

    /// The ball sent towards the middle of the world: leftwards at its speed
    /// from the right half, rightwards from the left half, unchanged when
    /// its centre is exactly on the middle line.
    pub open spec fn flipped(self) -> BallModel {
        if self.in_right_half() {
            BallModel { physics: BodyModel { vx: pin(-self.speed), ..self.physics }, ..self }
        } else if self.in_left_half() {
            BallModel { physics: BodyModel { vx: self.speed, ..self.physics }, ..self }
        } else {
            self
        }
    }
}

impl Ball {
    /// A ball with its corner at `(x, y)` that bounces off the top and the
    /// bottom of the world and passes its sides.
    pub fn new(x: i64, y: i64) -> (ball: Ball)
        ensures
            ball@ == BallModel::fresh(x as int, y as int),
            ball@.rectangle.wf(),
    {
        let rectangle = Rectangle::new(x, y, BALL_WIDTH, BALL_HEIGHT);
        let mut physics = PhysicsBody::new();
        physics.edge_behavior = EdgeBehavior::VerticalBounce;
        physics.vx = BALL_IDLE_VELOCITY;
        physics.vy = BALL_IDLE_VELOCITY;
        Ball { rectangle, physics, speed: BALL_SPEED }
    }

    /// Puts the speed back to the starting speed.
    pub fn reset_speed(&mut self)
        ensures
            final(self)@ == old(self)@.with_base_speed(),
    {
        self.speed = BALL_SPEED;
    }

    /// Advances the ball by one tick in play: it gains speed, then moves.
    /// The velocity is not recomputed from the new speed.
    pub fn update(&mut self)
        ensures
            final(self)@ == old(self)@.updated(),
    {
        self.speed = pinned_add(self.speed, BALL_SPEED_STEP);
        self.physics.apply(&mut self.rectangle);
    }

    /// Launches the ball to the right and downwards.
    pub fn start(&mut self)
        ensures
            final(self)@ == old(self)@.started(),
    {
        self.physics.vx = self.speed;
        self.physics.vy = self.speed;
    }

    /// Sends the ball back towards the middle of the world, by the half in
    /// which its centre lies.
    pub fn flip_direction_x(&mut self)
        ensures
            final(self)@ == old(self)@.flipped(),
    {
        let (x, _) = self.rectangle.get_center();
        let middle: i64 = half(WORLD_WIDTH);
        if x > middle {
            self.physics.vx = pinned_neg(self.speed);
        }
        if x < middle {
            self.physics.vx = self.speed;
        }
    }
}

/// Flipping the ball again changes nothing: the horizontal velocity after a
/// flip is decided by the speed and by the half of the world in which the
/// centre lies, not by the velocity before it nor by the number of flips.
pub proof fn lemma_flip_is_idempotent(ball: Ball)
    ensures
        ball@.flipped().flipped() == ball@.flipped(),
        ball@.flipped().rectangle == ball@.rectangle,
        ball@.flipped().speed == ball@.speed,
        ball@.flipped().physics.vy == ball@.physics.vy,
        ball@.in_right_half() ==> ball@.flipped().physics.vx == pin(-ball.speed),
        ball@.in_left_half() ==> ball@.flipped().physics.vx == ball.speed,
        !ball@.in_right_half() && !ball@.in_left_half() ==> ball@.flipped() == ball@,
{
}

} // verus!
