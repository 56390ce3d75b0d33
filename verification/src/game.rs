//! The session: two paddles, a ball, the score and the state machine that
//! takes a round from its start to a win or a loss and back.

use vstd::prelude::*;
use crate::ball::{Ball, BallModel, BALL_SPEED, BALL_SPEED_STEP};
use crate::fixed::{ease, eased, half, pin, pin_wide, pinned_add};
use crate::paddle::{Paddle, PaddleModel};
use crate::geometry::RectangleModel;
use crate::physics::{EdgeBehavior, WORLD_HEIGHT, WORLD_WIDTH};

verus! {

/// Horizontal position of the player's paddle, 50 world units from the left.
pub const PLAYER1_X: i64 = 50_000;

/// Horizontal position of the machine's paddle: its right edge is 50 world
/// units from the right side of the world.
pub const PLAYER2_X: i64 = 534_000;

/// What one paddle hit adds to the score, 1000 points.
pub const HIT_SCORE: i64 = 1_000_000;

/// Length of the cycle of the tick counter.
pub const TICK_PERIOD: u32 = 600;

/// Reach of the machine's paddle to either side of the middle while it
/// waits for a round to start, in world units.
pub const IDLE_AMPLITUDE: i64 = 100;

/// Reach of the machine's paddle to either side of the middle after it has
/// won a round, in world units: the height of the world less 100.
pub const DANCE_AMPLITUDE: i64 = 300;

/// The four states of a session.
#[derive(Clone, Copy, Debug, PartialEq, Eq, Structural)]
pub enum GameState {
    /// The ball rests until the player starts the round.
    WaitForStart,
    /// The ball is in play.
    Play,
    /// The ball has left the world on the player's side.
    Lose,
    /// The ball has left the world on the machine's side.
    Win,
}

/// The keys that the session knows.
#[derive(Clone, Copy, Debug, PartialEq, Eq, Structural)]
pub enum Key {
    /// Moves the player's paddle up.
    Up,
    /// Moves the player's paddle down.
    Down,
    /// Starts a round, or resets the session after one.
    Start,
    /// Any other key.
    Other,
}

/// A sound that the session asks for.
#[derive(Clone, Copy, Debug, PartialEq, Eq, Structural)]
pub enum Cue {
    /// The ball has met a paddle.
    PaddleHit,
    /// The round is over, whoever has won it.
    LoseOrWin,
    /// A third sound, which no rule asks for yet.
    Plop,
}

/// Samples of the two oscillators that steer the machine's paddle when it
/// does not follow the ball, in thousandths, taken at the tick that is being
/// simulated.
#[derive(Clone, Copy, Debug, PartialEq, Eq)]
pub struct Waves {
    /// The plain wave that is used while waiting for a start.
    pub idle: i64,
    /// The modulated wave that is used after the player has lost.
    pub dance: i64,
}

/// The whole session.
#[derive(Clone, Copy, Debug, PartialEq, Eq)]
pub struct MainState {
    /// The player's paddle.
    pub paddle1: Paddle,
    /// The machine's paddle.
    pub paddle2: Paddle,
    pub ball: Ball,
    /// The score as it stands.
    pub score: i64,
    /// The score as it is shown, which trails behind `score`.
    pub display_score: i64,
    pub game_state: GameState,
    /// The tick counter, which starts again at 0 after `TICK_PERIOD` ticks.
    pub time: u32,
}

/// The mathematical content of a [`MainState`].
pub ghost struct SessionModel {
    pub paddle1: PaddleModel,
    pub paddle2: PaddleModel,
    pub ball: BallModel,
    pub score: int,
    pub display_score: int,
    pub game_state: GameState,
    pub time: int,
}

impl View for MainState {
    type V = SessionModel;

    open spec fn view(&self) -> SessionModel {
        SessionModel {
            paddle1: self.paddle1@,
            paddle2: self.paddle2@,
            ball: self.ball@,
            score: self.score as int,
            display_score: self.display_score as int,
            game_state: self.game_state,
            time: self.time as int,
        }
    }
}

/// The height that an oscillator sample stands for: the middle of the world
/// plus `wave` thousandths of `amplitude` world units.
pub open spec fn wave_height(wave: int, amplitude: int) -> int {
    pin(wave * amplitude + WORLD_HEIGHT / 2)
}

fn wave_target(wave: i64, amplitude: i64) -> (y: i64)
    ensures
        y == wave_height(wave as int, amplitude as int),
{
    proof {
        assert(-0x8000_0000_0000_0000 * 0x8000_0000_0000_0000 <= wave * amplitude
            <= 0x8000_0000_0000_0000 * 0x8000_0000_0000_0000) by (nonlinear_arith)
            requires
                -0x8000_0000_0000_0000 <= wave < 0x8000_0000_0000_0000,
                -0x8000_0000_0000_0000 <= amplitude < 0x8000_0000_0000_0000,
        ;
    }
    pin_wide(wave as i128 * amplitude as i128 + half(WORLD_HEIGHT) as i128)
}

impl SessionModel {
    /// The session as it is at the start: paddles level with the middle of
    /// the world, the ball with its corner on the middle, no score.
    pub open spec fn initial() -> SessionModel {
        SessionModel {
            paddle1: PaddleModel::fresh(PLAYER1_X as int, WORLD_HEIGHT / 2),
            paddle2: PaddleModel::fresh(PLAYER2_X as int, WORLD_HEIGHT / 2),
            ball: BallModel::fresh(WORLD_WIDTH / 2, WORLD_HEIGHT / 2),
            score: 0,
            display_score: 0,
            game_state: GameState::WaitForStart,
            time: 0,
        }
    }

    /// Neither paddle nor the ball has a negative extent.
    pub open spec fn wf(self) -> bool {
        self.paddle1.rectangle.wf() && self.paddle2.rectangle.wf() && self.ball.rectangle.wf()
    }

    /// The tick counter after the next tick.
    pub open spec fn next_time(self) -> int {
        (self.time + 1) % (TICK_PERIOD as int)
    }

    /// The ball has left the world on the player's side: its right edge is
    /// at or beyond the left side of the world.
    pub open spec fn ball_lost(self) -> bool {
        self.ball.rectangle.x <= 0 - self.ball.rectangle.width
    }

    /// The ball has left the world on the machine's side: its left edge is
    /// at or beyond the right side of the world.
    pub open spec fn ball_won(self) -> bool {
        self.ball.rectangle.x >= WORLD_WIDTH
    }

    /// The ball touches one of the paddles.
    pub open spec fn ball_hits_paddle(self) -> bool {
        self.ball.rectangle.overlaps(self.paddle1.rectangle) || self.ball.rectangle.overlaps(
            self.paddle2.rectangle,
        )
    }

    /// The ball touches the machine's paddle.
    pub open spec fn ball_hits_far_paddle(self) -> bool {
        self.ball.rectangle.overlaps(self.paddle2.rectangle)
    }

    /// The session after the ball has been moved back to where it starts,
    /// its speed put back and the score wiped. Velocities, paddles and the
    /// shown score are left as they are.
    pub open spec fn reset(self) -> SessionModel {
        SessionModel {
            ball: BallModel {
                rectangle: RectangleModel {
                    x: WORLD_WIDTH / 2,
                    y: WORLD_HEIGHT / 2,
                    ..self.ball.rectangle
                },
                ..self.ball
            }.with_base_speed(),
            score: 0,
            ..self
        }
    }

    /// The state after a tick.
    pub open spec fn state_after_tick(self) -> GameState {
        if self.game_state != GameState::Play {
            self.game_state
        } else if self.ball_won() {
            GameState::Win
        } else if self.ball_lost() {
            GameState::Lose
        } else {
            GameState::Play
        }
    }

    /// The height towards which the machine's paddle is steered in a tick.
    pub open spec fn far_paddle_target(self, waves: Waves) -> int {
        match self.game_state {
            GameState::WaitForStart => wave_height(waves.idle as int, IDLE_AMPLITUDE as int),
            GameState::Play => self.ball.rectangle.center_y(),
            GameState::Lose => wave_height(waves.dance as int, DANCE_AMPLITUDE as int),
            GameState::Win => WORLD_HEIGHT / 2,
        }
    }

    /// The session after one tick.
    ///
    /// In every state the counter advances and both paddles move. In play
    /// the machine's paddle is steered before it moves, towards the centre
    /// of the ball; in the other states it is steered after it has moved.
    /// In play, a ball that touches a paddle is flipped and scores, and the
    /// ball moves last. A round that ends in this tick still has the rest of
    /// the tick carried out.
    pub open spec fn ticked(self, waves: Waves) -> SessionModel {
        let target = self.far_paddle_target(waves);
        if self.game_state == GameState::Play {
            let hit = self.ball_hits_paddle();
            let ball = if hit {
                self.ball.flipped()
            } else {
                self.ball
            };
            SessionModel {
                paddle1: self.paddle1.updated(),
                paddle2: self.paddle2.steered(target).updated(),
                ball: ball.updated(),
                score: if hit {
                    pin(self.score + HIT_SCORE)
                } else {
                    self.score
                },
                game_state: self.state_after_tick(),
                time: self.next_time(),
                ..self
            }
        } else {
            SessionModel {
                paddle1: self.paddle1.updated(),
                paddle2: self.paddle2.updated().steered(target),
                time: self.next_time(),
                ..self
            }
        }
    }

    /// The sounds that a tick asks for, in the order in which they are
    /// asked for: the end of the round, once for a loss and once for a win,
    /// then a hit on either paddle, then a hit on the machine's paddle, which
    /// therefore sounds twice.
    pub open spec fn tick_cues(self) -> Seq<Cue> {
        if self.game_state == GameState::Play {
            (if self.ball_lost() {
                seq![Cue::LoseOrWin]
            } else {
                seq![]
            }) + (if self.ball_won() {
                seq![Cue::LoseOrWin]
            } else {
                seq![]
            }) + (if self.ball_hits_paddle() {
                seq![Cue::PaddleHit]
            } else {
                seq![]
            }) + (if self.ball_hits_far_paddle() {
                seq![Cue::PaddleHit]
            } else {
                seq![]
            })
        } else {
            seq![]
        }
    }

    /// The session after a key has gone down.
    pub open spec fn key_pressed(self, key: Key) -> SessionModel {
        match key {
            Key::Up => SessionModel { paddle1: self.paddle1.moving_up(), ..self },
            Key::Down => SessionModel { paddle1: self.paddle1.moving_down(), ..self },
            Key::Start => match self.game_state {
                GameState::WaitForStart => SessionModel {
                    game_state: GameState::Play,
                    ball: self.ball.started(),
                    ..self
                },
                GameState::Play => self,
                GameState::Lose | GameState::Win => SessionModel {
                    game_state: GameState::WaitForStart,
                    ..self.reset()
                },
            },
            Key::Other => self,
        }
    }

    /// The session after a key has come up.
    pub open spec fn key_released(self, key: Key) -> SessionModel {
        match key {
            Key::Up | Key::Down => SessionModel { paddle1: self.paddle1.stopped(), ..self },
            _ => self,
        }
    }

    /// The session after a frame has been drawn: the shown score has moved a
    /// twentieth of the way towards the score.
    pub open spec fn drawn(self) -> SessionModel {
        SessionModel { display_score: eased(self.display_score, self.score), ..self }
    }
}

impl MainState {
    /// A session that waits for its first round.
    pub fn new() -> (session: MainState)
        ensures
            session@ == SessionModel::initial(),
            session@.wf(),
    {
        let paddle1 = Paddle::new(PLAYER1_X, half(WORLD_HEIGHT));
        let paddle2 = Paddle::new(PLAYER2_X, half(WORLD_HEIGHT));
        let ball = Ball::new(half(WORLD_WIDTH), half(WORLD_HEIGHT));
        MainState {
            paddle1,
            paddle2,
            ball,
            score: 0,
            display_score: 0,
            game_state: GameState::WaitForStart,
            time: 0,
        }
    }

    /// The value that the tick counter will have in the next tick: the
    /// phase at which the oscillators are to be sampled for it.
    pub fn upcoming_time(&self) -> (t: u32)
        ensures
            t == self@.next_time(),
            t < TICK_PERIOD,
    {
        (self.time % TICK_PERIOD + 1) % TICK_PERIOD
    }

    /// Puts the ball back to where it starts, at its starting speed, and
    /// wipes the score.
    pub fn reset(&mut self)
        ensures
            final(self)@ == old(self)@.reset(),
    {
        self.ball.rectangle.x = half(WORLD_WIDTH);
        self.ball.rectangle.y = half(WORLD_HEIGHT);
        self.ball.reset_speed();
        self.score = 0;
    }

    /// Whether the ball has left the world on the player's side.
    pub fn ball_lost(&self) -> (lost: bool)
        ensures
            lost == self@.ball_lost(),
    {
        self.ball.rectangle.x as i128 <= 0 - self.ball.rectangle.width as i128
    }

    /// Whether the ball has left the world on the machine's side.
    pub fn ball_won(&self) -> (won: bool)
        ensures
            won == self@.ball_won(),
    {
        self.ball.rectangle.x >= WORLD_WIDTH
    }

    /// Simulates one tick and returns the sounds that it asks for.
    pub fn update(&mut self, waves: Waves) -> (cues: Vec<Cue>)
        ensures
            final(self)@ == old(self)@.ticked(waves),
            cues@ == old(self)@.tick_cues(),
    {
        let mut cues: Vec<Cue> = Vec::new();
        self.time = self.upcoming_time();
        match self.game_state {
            GameState::WaitForStart => {
                self.paddle1.update();
                self.paddle2.update();
                self.paddle2.move_towards(0, wave_target(waves.idle, IDLE_AMPLITUDE));
            },
            GameState::Play => {
                if self.ball_lost() {
                    self.game_state = GameState::Lose;
                    cues.push(Cue::LoseOrWin);
                }
                if self.ball_won() {
                    self.game_state = GameState::Win;
                    cues.push(Cue::LoseOrWin);
                }
                if self.ball.rectangle.collides(&self.paddle1.rectangle)
                    || self.ball.rectangle.collides(&self.paddle2.rectangle) {
                    self.ball.flip_direction_x();
                    self.score = pinned_add(self.score, HIT_SCORE);
                    cues.push(Cue::PaddleHit);
                }
                if self.ball.rectangle.collides(&self.paddle2.rectangle) {
                    self.ball.flip_direction_x();
                    cues.push(Cue::PaddleHit);
                }
                let (x, y) = self.ball.rectangle.get_center();
                self.paddle2.move_towards(x, y);
                self.paddle1.update();
                self.paddle2.update();
                self.ball.update();
            },
            GameState::Lose => {
                self.paddle1.update();
                self.paddle2.update();
                self.paddle2.move_towards(0, wave_target(waves.dance, DANCE_AMPLITUDE));
            },
            GameState::Win => {
                self.paddle1.update();
                self.paddle2.update();
                self.paddle2.move_towards(0, half(WORLD_HEIGHT));
            },
        }
        proof {
            assert(cues@ =~= old(self)@.tick_cues());
        }
        cues
    }

    /// Handles a key that has gone down.
    pub fn key_down_event(&mut self, key: Key)
        ensures
            final(self)@ == old(self)@.key_pressed(key),
    {
        match key {
            Key::Up => {
                self.paddle1.move_up();
            },
            Key::Down => {
                self.paddle1.move_down();
            },
            Key::Start => {
                match self.game_state {
                    GameState::WaitForStart => {
                        self.game_state = GameState::Play;
                        self.ball.start();
                    },
                    GameState::Play => {},
                    GameState::Lose => {
                        self.game_state = GameState::WaitForStart;
                        self.reset();
                    },
                    GameState::Win => {
                        self.game_state = GameState::WaitForStart;
                        self.reset();
                    },
                }
            },
            Key::Other => {},
        }
    }

    /// Handles a key that has come up.
    pub fn key_up_event(&mut self, key: Key)
        ensures
            final(self)@ == old(self)@.key_released(key),
    {
        match key {
            Key::Up => {
                self.paddle1.stop_moving();
            },
            Key::Down => {
                self.paddle1.stop_moving();
            },
            _ => {},
        }
    }

    /// Moves the shown score towards the score, as each drawn frame does.
    pub fn smooth_score(&mut self)
        ensures
            final(self)@ == old(self)@.drawn(),
    {
        self.display_score = ease(self.display_score, self.score);
    }
}

/// A waiting session is put in play by the start key and by nothing else:
/// no tick, no other key going down, no key coming up and no drawn frame
/// takes it out of `WaitForStart`. The start key also launches the ball.
pub proof fn lemma_only_start_leaves_waiting(session: MainState, waves: Waves, key: Key)
    requires
        session.game_state == GameState::WaitForStart,
    ensures
        session@.ticked(waves).game_state == GameState::WaitForStart,
        session@.key_released(key).game_state == GameState::WaitForStart,
        session@.drawn().game_state == GameState::WaitForStart,
        key == Key::Start ==> session@.key_pressed(key).game_state == GameState::Play,
        key == Key::Start ==> session@.key_pressed(key).ball == session@.ball.started(),
        key != Key::Start ==> session@.key_pressed(key).game_state == GameState::WaitForStart,
{
}

/// A round in play ends only in a tick, and only when the ball has crossed
/// one of the two sides of the world: it is won when the left edge of the
/// ball has reached the right side, lost when the right edge of the ball has
/// reached the left side, and goes on otherwise. No key and no drawn frame
/// ends it or takes it back to `WaitForStart`.
pub proof fn lemma_only_crossings_end_play(session: MainState, waves: Waves, key: Key)
    requires
        session.game_state == GameState::Play,
        session@.wf(),
    ensures
        session@.key_pressed(key).game_state == GameState::Play,
        session@.key_released(key).game_state == GameState::Play,
        session@.drawn().game_state == GameState::Play,
        !(session@.ball_won() && session@.ball_lost()),
        session@.ticked(waves).game_state == GameState::Win <==> session.ball.rectangle.x
            >= WORLD_WIDTH,
        session@.ticked(waves).game_state == GameState::Lose <==> session.ball.rectangle.x
            + session.ball.rectangle.width <= 0,
        session@.ticked(waves).game_state == GameState::Play <==> -session.ball.rectangle.width
            < session.ball.rectangle.x < WORLD_WIDTH,
        session@.ticked(waves).game_state != GameState::WaitForStart,
{
}

/// A finished round, lost or won, is left by the start key and by nothing
/// else, and it is left for `WaitForStart`. That step wipes the score, puts
/// the speed of the ball back to its starting speed and the corner of the
/// ball back on the middle of the world.
pub proof fn lemma_only_reset_leaves_finished(session: MainState, waves: Waves, key: Key)
    requires
        session.game_state == GameState::Lose || session.game_state == GameState::Win,
    ensures
        session@.ticked(waves).game_state == session.game_state,
        session@.key_released(key).game_state == session.game_state,
        session@.drawn().game_state == session.game_state,
        key != Key::Start ==> session@.key_pressed(key).game_state == session.game_state,
        key == Key::Start ==> ({
            let after = session@.key_pressed(key);
            &&& after.game_state == GameState::WaitForStart
            &&& after.score == 0
            &&& after.ball.speed == BALL_SPEED
            &&& after.ball.rectangle.x == WORLD_WIDTH / 2
            &&& after.ball.rectangle.y == WORLD_HEIGHT / 2
            &&& after.ball.rectangle.width == session.ball.rectangle.width
            &&& after.ball.rectangle.height == session.ball.rectangle.height
        }),
{
}

/// The paddle is at rest horizontally and stands wholly inside the world
/// horizontally.
pub open spec fn on_rails(paddle: PaddleModel) -> bool {
    &&& paddle.physics.vx == 0
    &&& paddle.physics.edge_behavior == EdgeBehavior::Constrain
    &&& paddle.rectangle.wf()
    &&& 0 <= paddle.rectangle.x
    &&& paddle.rectangle.x + paddle.rectangle.width <= WORLD_WIDTH
}

/// The paddles only ever move up and down: both paddles of a new session
/// are on rails, and a paddle that is on rails is still on rails, at the same
/// horizontal position, after any tick, key or frame. After a tick it also
/// stands wholly inside the world vertically if it is no higher than the
/// world.
pub proof fn lemma_paddles_move_vertically(session: MainState, waves: Waves, key: Key)
    ensures
        on_rails(SessionModel::initial().paddle1),
        on_rails(SessionModel::initial().paddle2),
        on_rails(session@.paddle1) ==> {
            &&& stays_on_rails(session@.paddle1, session@.ticked(waves).paddle1)
            &&& stays_on_rails(session@.paddle1, session@.key_pressed(key).paddle1)
            &&& stays_on_rails(session@.paddle1, session@.key_released(key).paddle1)
            &&& stays_on_rails(session@.paddle1, session@.drawn().paddle1)
            &&& 0 <= session@.ticked(waves).paddle1.rectangle.y
            &&& session.paddle1.rectangle.height <= WORLD_HEIGHT ==> session@.ticked(
                waves,
            ).paddle1.rectangle.y + session.paddle1.rectangle.height <= WORLD_HEIGHT
        },
        on_rails(session@.paddle2) ==> {
            &&& stays_on_rails(session@.paddle2, session@.ticked(waves).paddle2)
            &&& stays_on_rails(session@.paddle2, session@.key_pressed(key).paddle2)
            &&& stays_on_rails(session@.paddle2, session@.key_released(key).paddle2)
            &&& stays_on_rails(session@.paddle2, session@.drawn().paddle2)
            &&& 0 <= session@.ticked(waves).paddle2.rectangle.y
            &&& session.paddle2.rectangle.height <= WORLD_HEIGHT ==> session@.ticked(
                waves,
            ).paddle2.rectangle.y + session.paddle2.rectangle.height <= WORLD_HEIGHT
        },
{
}

/// `after` is on rails at the horizontal position of `before`, with the
/// speed of `before`.
pub open spec fn stays_on_rails(before: PaddleModel, after: PaddleModel) -> bool {
    &&& on_rails(after)
    &&& after.rectangle.x == before.rectangle.x
    &&& after.rectangle.width == before.rectangle.width
    &&& after.speed == before.speed
}

/// The ball moves and gains speed in play and only there: a tick in play
/// adds one step to its speed, which never falls in a tick, and a tick in any
/// other state leaves the ball as it is. Keys that are not the start key and
/// drawn frames leave the ball and the score as they are. The score changes
/// in a tick only by one hit, and only in play.
pub proof fn lemma_ball_moves_only_in_play(session: MainState, waves: Waves, key: Key)
    ensures
        session.game_state == GameState::Play ==> session@.ticked(waves).ball.speed == pin(
            session.ball.speed + BALL_SPEED_STEP,
        ),
        session@.ticked(waves).ball.speed >= session.ball.speed,
        session.game_state != GameState::Play ==> session@.ticked(waves).ball == session@.ball,
        session.game_state != GameState::Play ==> session@.ticked(waves).score == session.score,
        session@.ticked(waves).score == session.score || session@.ticked(waves).score == pin(
            session.score + HIT_SCORE,
        ),
        session@.ticked(waves).display_score == session.display_score,
        key != Key::Start ==> session@.key_pressed(key).ball == session@.ball,
        key != Key::Start ==> session@.key_pressed(key).score == session.score,
        session@.key_released(key).ball == session@.ball,
        session@.key_released(key).score == session.score,
        session@.drawn().ball == session@.ball,
        session@.drawn().score == session.score,
{
}

/// Whatever happens to a session, no rectangle in it changes its size, and
/// the tick counter stays inside its cycle once a tick has passed.
pub proof fn lemma_session_keeps_shapes(session: MainState, waves: Waves, key: Key)
    ensures
        same_shapes(session@, session@.ticked(waves)),
        same_shapes(session@, session@.key_pressed(key)),
        same_shapes(session@, session@.key_released(key)),
        same_shapes(session@, session@.drawn()),
        0 <= session@.ticked(waves).time < TICK_PERIOD,
{
}

/// The paddles and the ball of `after` have the sizes that they have in
/// `before`.
pub open spec fn same_shapes(before: SessionModel, after: SessionModel) -> bool {
    &&& after.paddle1.rectangle.width == before.paddle1.rectangle.width
    &&& after.paddle1.rectangle.height == before.paddle1.rectangle.height
    &&& after.paddle2.rectangle.width == before.paddle2.rectangle.width
    &&& after.paddle2.rectangle.height == before.paddle2.rectangle.height
    &&& after.ball.rectangle.width == before.ball.rectangle.width
    &&& after.ball.rectangle.height == before.ball.rectangle.height
}

} // verus!
