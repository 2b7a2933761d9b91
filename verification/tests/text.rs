use coinfall::game::Game;
use coinfall::score::Score;
use coinfall::text::score_text;

fn line(n: usize) -> String {
    score_text(&Score::from_usize(n))
}

#[test]
fn the_score_line_shows_the_score_in_decimal() {
    assert_eq!(score_text(&Score::new()), "Score 0");
    assert_eq!(line(0), "Score 0");
    assert_eq!(line(7), "Score 7");
    assert_eq!(line(9), "Score 9");
    assert_eq!(line(10), "Score 10");
    assert_eq!(line(99), "Score 99");
    assert_eq!(line(100), "Score 100");
    assert_eq!(line(1_234_567_890), "Score 1234567890");
    assert_eq!(line(305_060), "Score 305060");
}

#[test]
fn the_score_line_agrees_with_the_standard_formatting() {
    for n in 0..3000usize {
        assert_eq!(line(n), format!("Score {}", n));
    }
    assert_eq!(line(usize::MAX), format!("Score {}", usize::MAX));
    assert_eq!(line(usize::MAX / 10), format!("Score {}", usize::MAX / 10));
}

#[test]
fn the_scene_carries_the_score_line() {
    let mut g = Game::new(800, 600, 508, 288, 1000, 500);
    assert_eq!(g.draw().score_text, "Score 0");
    g.player.score = Score::from_usize(42);
    let scene = g.draw();
    assert_eq!(scene.score_text, "Score 42");
}
