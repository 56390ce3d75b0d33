use pong::game::{GameState, Key, MainState, Waves};
use pong::geometry::Rectangle;
use pong::scene::score_label;

#[test]
fn score_label_writes_decimal_digits() {
    assert_eq!(score_label(0), "Score: 0");
    assert_eq!(score_label(7), "Score: 7");
    assert_eq!(score_label(10), "Score: 10");
    assert_eq!(score_label(50), "Score: 50");
    assert_eq!(score_label(1_000), "Score: 1000");
    assert_eq!(score_label(1_234_567_890), "Score: 1234567890");
    assert_eq!(score_label(i64::MAX), "Score: 9223372036854775807");
}

#[test]
fn score_label_writes_a_minus_sign() {
    assert_eq!(score_label(-1), "Score: -1");
    assert_eq!(score_label(-305), "Score: -305");
    assert_eq!(score_label(i64::MIN), "Score: -9223372036854775808");
}

#[test]
fn score_label_agrees_with_the_standard_formatting() {
    for n in [0_i64, 1, 9, 10, 11, 99, 100, 101, 999, 4_096, 65_535, -1, -10, -99, -100] {
        assert_eq!(score_label(n), format!("Score: {}", n));
    }
}

#[test]
fn prompts_go_with_the_states() {
    assert_eq!(GameState::WaitForStart.prompt(), Some("Press Space to start!"));
    assert_eq!(GameState::Play.prompt(), None);
    assert_eq!(
        GameState::Lose.prompt(),
        Some("        You lose!\nPress Space to reset the game.")
    );
    assert_eq!(
        GameState::Win.prompt(),
        Some("        You win!\nPress Space to reset the game.")
    );
}

#[test]
fn first_frame_shows_the_opening_scene() {
    let mut s = MainState::new();
    let scene = s.draw();
    assert_eq!(scene.paddle1, Rectangle::new(50_000, 200_000, 16_000, 64_000));
    assert_eq!(scene.paddle2, Rectangle::new(534_000, 200_000, 16_000, 64_000));
    assert_eq!(scene.ball, Rectangle::new(300_000, 200_000, 16_000, 16_000));
    assert_eq!(scene.score, 0);
    assert_eq!(scene.score_text, "Score: 0");
    assert_eq!(scene.prompt, Some("Press Space to start!"));
}

#[test]
fn frame_in_play_has_no_prompt() {
    let mut s = MainState::new();
    s.key_down_event(Key::Start);
    s.update(Waves { idle: 0, dance: 0 });
    let scene = s.draw();
    assert_eq!(scene.prompt, None);
    assert_eq!(scene.ball, Rectangle::new(303_000, 203_000, 16_000, 16_000));
    assert_eq!(scene.ball, s.ball.rectangle);
}

#[test]
fn shown_score_jumps_to_fifty_in_the_first_frame() {
    let mut s = MainState::new();
    s.score = 1_000_000;
    let scene = s.draw();
    assert_eq!(s.display_score, 50_000);
    assert_eq!(scene.score, 50);
    assert_eq!(scene.score_text, "Score: 50");
    assert_eq!(s.score, 1_000_000);
}

#[test]
fn shown_score_follows_the_geometric_series() {
    let mut s = MainState::new();
    s.score = 1_000_000;
    let mut expected: f64 = 0.0;
    for n in 1..=200 {
        s.draw();
        expected += (1_000_000.0 - expected) * 0.05;
        let closed_form = 1_000_000.0 * (1.0 - 0.95_f64.powi(n));
        assert!((expected - closed_form).abs() < 1e-3);
        // Each step is rounded down by less than one stored unit, and
        // the loss of earlier steps shrinks with the gap.
        let shown = s.display_score as f64;
        assert!(shown <= closed_form + 1e-3);
        assert!(closed_form - shown < 20.0);
    }
}

#[test]
fn shown_score_rises_and_never_reaches_the_score() {
    let mut s = MainState::new();
    s.score = 1_000_000;
    let mut last = s.display_score;
    for _ in 0..2_000 {
        let scene = s.draw();
        assert!(s.display_score >= last);
        assert!(s.display_score < 1_000_000);
        assert!(scene.score <= 1_000);
        last = s.display_score;
    }
    assert_eq!(s.display_score, 999_981);
    assert_eq!(s.draw().score, 1_000);
}

#[test]
fn shown_score_falls_back_to_zero_after_a_reset() {
    let mut s = MainState::new();
    s.display_score = 1_000_000;
    let mut last = s.display_score;
    for _ in 0..2_000 {
        s.draw();
        assert!(s.display_score <= last);
        assert!(s.display_score >= 0);
        last = s.display_score;
    }
    assert_eq!(s.display_score, 0);
    assert_eq!(s.draw().score_text, "Score: 0");
}

#[test]
fn smoothing_alone_changes_only_the_shown_score() {
    let mut s = MainState::new();
    s.score = 3_000_000;
    let before = s;
    s.smooth_score();
    assert_eq!(s.display_score, 150_000);
    s.display_score = before.display_score;
    assert_eq!(s, before);
}

#[test]
fn drawing_does_not_change_the_state() {
    for state in [GameState::WaitForStart, GameState::Play, GameState::Lose, GameState::Win] {
        let mut s = MainState::new();
        s.game_state = state;
        let before = s;
        let scene = s.draw();
        assert_eq!(s, before);
        assert_eq!(scene.prompt, state.prompt());
    }
}
