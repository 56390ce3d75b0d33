//! What a frame shows: the three rectangles, the score line and the prompt
//! that goes with the state of the session.

use vstd::prelude::*;
use vstd::string::StringExecFns;
use crate::fixed::{to_whole_units, whole_units};
use crate::game::{GameState, MainState};
use crate::geometry::Rectangle;

verus! {

/// Everything that a frame shows.
#[derive(Clone, Debug, PartialEq, Eq)]
pub struct Scene {
    /// The player's paddle.
    pub paddle1: Rectangle,
    /// The machine's paddle.
    pub paddle2: Rectangle,
    pub ball: Rectangle,
    /// The shown score in whole points, rounded up.
    pub score: i64,
    /// The score line.
    pub score_text: String,
    /// The prompt of the current state, where it has one.
    pub prompt: Option<&'static str>,
}

/// The character of a decimal digit.
pub open spec fn digit_char(d: int) -> char {
    if d == 0 {
        '0'
    } else if d == 1 {
        '1'
    } else if d == 2 {
        '2'
    } else if d == 3 {
        '3'
    } else if d == 4 {
        '4'
    } else if d == 5 {
        '5'
    } else if d == 6 {
        '6'
    } else if d == 7 {
        '7'
    } else if d == 8 {
        '8'
    } else {
        '9'
    }
}

/// The decimal digits of a natural number, without leading zeros.
pub open spec fn decimal(n: nat) -> Seq<char>
    decreases n,
{
    if n < 10 {
        seq![digit_char(n as int)]
    } else {
        decimal(n / 10).push(digit_char((n % 10) as int))
    }
}

/// The decimal text of an integer, with a minus sign where it is negative.
pub open spec fn signed_decimal(n: int) -> Seq<char> {
    if n < 0 {
        seq!['-'] + decimal((-n) as nat)
    } else {
        decimal(n as nat)
    }
}

/// The score line for a score of `points` whole points.
pub open spec fn score_line(points: int) -> Seq<char> {
    "Score: "@ + signed_decimal(points)
}

/// The prompt that is shown in a state, if any.
pub open spec fn prompt_text(state: GameState) -> Option<Seq<char>> {
    match state {
        GameState::WaitForStart => Some("Press Space to start!"@),
        GameState::Play => None,
        GameState::Lose => Some("        You lose!\nPress Space to reset the game."@),
        GameState::Win => Some("        You win!\nPress Space to reset the game."@),
    }
}

fn digit_str(d: u64) -> (s: &'static str)
    requires
        d < 10,
    ensures
        s@ == seq![digit_char(d as int)],
{
    proof {
        reveal_strlit("0");
        reveal_strlit("1");
        reveal_strlit("2");
        reveal_strlit("3");
        reveal_strlit("4");
        reveal_strlit("5");
        reveal_strlit("6");
        reveal_strlit("7");
        reveal_strlit("8");
        reveal_strlit("9");
    }
    let s = if d == 0 {
        "0"
    } else if d == 1 {
        "1"
    } else if d == 2 {
        "2"
    } else if d == 3 {
        "3"
    } else if d == 4 {
        "4"
    } else if d == 5 {
        "5"
    } else if d == 6 {
        "6"
    } else if d == 7 {
        "7"
    } else if d == 8 {
        "8"
    } else {
        "9"
    };
    assert(s@ =~= seq![digit_char(d as int)]);
    s
}

fn append_decimal(text: &mut String, n: u64)
    ensures
        final(text)@ == old(text)@ + decimal(n as nat),
    decreases n,
{
    if n >= 10 {
        append_decimal(text, n / 10);
    }
    text.append(digit_str(n % 10));
    assert(final(text)@ =~= old(text)@ + decimal(n as nat));
}

/// Writes the score line for a score of `points` whole points.
pub fn score_label(points: i64) -> (label: String)
    ensures
        label@ == score_line(points as int),
{
    let mut label = String::from_str("Score: ");
    if points < 0 {
        proof {
            reveal_strlit("-");
        }
        label.append("-");
        append_decimal(&mut label, (0 - points as i128) as u64);
        assert(label@ =~= score_line(points as int));
    } else {
        append_decimal(&mut label, points as u64);
    }
    label
}

impl GameState {
    /// The prompt that is shown in this state, if any.
    pub fn prompt(&self) -> (text: Option<&'static str>)
        ensures
            match text {
                Some(s) => prompt_text(*self) == Some(s@),
                None => prompt_text(*self) is None,
            },
    {
        match self {
            GameState::WaitForStart => Some("Press Space to start!"),
            GameState::Play => None,
            GameState::Lose => Some("        You lose!\nPress Space to reset the game."),
            GameState::Win => Some("        You win!\nPress Space to reset the game."),
        }
    }
}

impl MainState {
    /// Draws a frame: moves the shown score a twentieth of the way towards
    /// the score, then hands out what is to be shown.
    pub fn draw(&mut self) -> (scene: Scene)
        ensures
            final(self)@ == old(self)@.drawn(),
            scene.paddle1 == old(self).paddle1.rectangle,
            scene.paddle2 == old(self).paddle2.rectangle,
            scene.ball == old(self).ball.rectangle,
            scene.score == whole_units(old(self)@.drawn().display_score),
            scene.score_text@ == score_line(scene.score as int),
            match scene.prompt {
                Some(s) => prompt_text(old(self).game_state) == Some(s@),
                None => prompt_text(old(self).game_state) is None,
            },
    {
        self.smooth_score();
        let score: i64 = to_whole_units(self.display_score);
        Scene {
            paddle1: self.paddle1.rectangle,
            paddle2: self.paddle2.rectangle,
            ball: self.ball.rectangle,
            score,
            score_text: score_label(score),
            prompt: self.game_state.prompt(),
        }
    }
}

} // verus!
