//! The paddles: a rectangle that moves up and down under control.

use vstd::prelude::*;
use crate::fixed::{pin, pinned_neg};
use crate::geometry::{Rectangle, RectangleModel};
use crate::physics::{BodyModel, EdgeBehavior, PhysicsBody};

verus! {

/// Width of a paddle, 16 world units.
pub const PADDLE_WIDTH: i64 = 16_000;

/// Height of a paddle, 64 world units.
pub const PADDLE_HEIGHT: i64 = 64_000;

/// Speed of a paddle, 3 world units per tick.
pub const PADDLE_SPEED: i64 = 3_000;

/// A paddle: its rectangle, its physics and the speed at which it moves when
/// it is told to.
#[derive(Clone, Copy, Debug, PartialEq, Eq)]
pub struct Paddle {
    pub rectangle: Rectangle,
    pub physics: PhysicsBody,
    pub speed: i64,
}

/// The mathematical content of a [`Paddle`].
pub ghost struct PaddleModel {
    pub rectangle: RectangleModel,
    pub physics: BodyModel,
    pub speed: int,
}

impl View for Paddle {
    type V = PaddleModel;

    open spec fn view(&self) -> PaddleModel {
        PaddleModel { rectangle: self.rectangle@, physics: self.physics@, speed: self.speed as int }
    }
}

impl PaddleModel {
    /// The paddle that `Paddle::new` makes at `(x, y)`.
    pub open spec fn fresh(x: int, y: int) -> PaddleModel {
        PaddleModel {
            rectangle: RectangleModel {
                x,
                y,
                width: PADDLE_WIDTH as int,
                height: PADDLE_HEIGHT as int,
            },
            physics: BodyModel { vx: 0, vy: 0, edge_behavior: EdgeBehavior::Constrain },
            speed: PADDLE_SPEED as int,
        }
    }

    /// The paddle with its vertical velocity set to `vy`.
    pub open spec fn with_vy(self, vy: int) -> PaddleModel {
        PaddleModel { physics: BodyModel { vy, ..self.physics }, ..self }
    }

    /// The paddle heading down, towards larger `y`, at its speed.
    pub open spec fn moving_down(self) -> PaddleModel {
        self.with_vy(self.speed)
    }

    /// The paddle heading up, towards smaller `y`, at its speed.
    pub open spec fn moving_up(self) -> PaddleModel {
        self.with_vy(pin(-self.speed))
    }

    /// The paddle at rest on both axes.
    pub open spec fn stopped(self) -> PaddleModel {
        PaddleModel { physics: BodyModel { vx: 0, vy: 0, ..self.physics }, ..self }
    }

    /// The paddle after one tick of its physics.
    pub open spec fn updated(self) -> PaddleModel {
        PaddleModel {
            rectangle: self.physics.rectangle_after(self.rectangle),
            physics: self.physics.body_after(self.rectangle),
            ..self
        }
    }

    /// The paddle steered towards the height `target_y`: up when its centre
    /// lies below the target on the screen (a larger `y`), down when it lies
    /// above, and as it was when the two are level.
    pub open spec fn steered(self, target_y: int) -> PaddleModel {
        if self.rectangle.center_y() > target_y {
            self.moving_up()
        } else if self.rectangle.center_y() < target_y {
            self.moving_down()
        } else {
            self
        }
    }
}

impl Paddle {
    /// A paddle at rest with its corner at `(x, y)`, held inside the world.
    pub fn new(x: i64, y: i64) -> (paddle: Paddle)
        ensures
            paddle@ == PaddleModel::fresh(x as int, y as int),
            paddle@.rectangle.wf(),
    {
        let rectangle = Rectangle::new(x, y, PADDLE_WIDTH, PADDLE_HEIGHT);
        let mut physics = PhysicsBody::new();
        physics.edge_behavior = EdgeBehavior::Constrain;
        Paddle { rectangle, physics, speed: PADDLE_SPEED }
    }

    /// Sets the velocity downwards.
    pub fn move_down(&mut self)
        ensures
            final(self)@ == old(self)@.moving_down(),
    {
        self.physics.vy = self.speed;
    }

    /// Sets the velocity upwards.
    pub fn move_up(&mut self)
        ensures
            final(self)@ == old(self)@.moving_up(),
    {
        self.physics.vy = pinned_neg(self.speed);
    }

    /// Brings the paddle to rest.
    pub fn stop_moving(&mut self)
        ensures
            final(self)@ == old(self)@.stopped(),
    {
        self.physics.vy = 0;
        self.physics.vx = 0;
    }

    /// Advances the paddle by one tick.
    pub fn update(&mut self)
        ensures
            final(self)@ == old(self)@.updated(),
    {
        self.physics.apply(&mut self.rectangle);
    }

    /// Sets the velocity so that the paddle heads for the height `y`. The
    /// horizontal target `x` plays no part. A paddle whose centre is level
    /// with `y` keeps the velocity it has: it is not stopped.
    #[allow(unused_variables)]
    pub fn move_towards(&mut self, x: i64, y: i64)
        ensures
            final(self)@ == old(self)@.steered(y as int),
    {
        let (_, center_y) = self.rectangle.get_center();
        if center_y > y {
            self.move_up();
        }
        if center_y < y {
            self.move_down();
        }
    }
}

/// Steering and the physics step never change the size of a paddle, and a
/// paddle that is steered towards the height of its own centre is unchanged.
pub proof fn lemma_level_paddle_is_left_alone(paddle: Paddle)
    ensures
        paddle@.steered(paddle@.rectangle.center_y()) == paddle@,
        forall|y: int| (#[trigger] paddle@.steered(y)).rectangle == paddle@.rectangle,
        paddle@.updated().rectangle.width == paddle@.rectangle.width,
        paddle@.updated().rectangle.height == paddle@.rectangle.height,
{
}

} // verus!
