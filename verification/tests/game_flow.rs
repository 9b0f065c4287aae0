use tetris::game::{
    setup_game_data, GameOptions, GameScoresRes, LandingOutcome, ScoreBoard, DEFAULT_EASY_FALL_INTERVAL,
    DEFAULT_HARD_FALL_INTERVAL, DEFAULT_NORMAL_FALL_INTERVAL, MAX_FALL_INTERVAL,
};
use tetris::menu::{GameLevelRes, GameSelectedLevel};

fn level_of(lines: usize) -> usize {
    lines / 10 + 1
}

fn points_of(level: usize, lines: usize) -> usize {
    level * lines * 100
}

#[test]
fn scores_start_empty() {
    assert_eq!(GameScoresRes::new(), GameScoresRes { level: 0, score: 0, lines: 0 });
    assert_eq!(ScoreBoard::new(), ScoreBoard { score: Some(0), lines: Some(0), level: Some(1) });
}

#[test]
fn easy_setup_keeps_every_help() {
    let mut options = GameOptions { show_shadow_brick: false, show_board_lines: false, seven_bag_randomization: false };
    let mut stored = GameScoresRes { level: 5, score: 900, lines: 44 };
    let interval = setup_game_data(&GameLevelRes(GameSelectedLevel::Easy), &mut options, &mut stored);
    assert_eq!(interval, 1_100_000_024);
    assert_eq!(interval, DEFAULT_EASY_FALL_INTERVAL);
    assert_eq!(options, GameOptions { show_shadow_brick: true, show_board_lines: true, seven_bag_randomization: true });
    assert_eq!(stored, GameScoresRes { level: 1, score: 0, lines: 0 });
}

#[test]
fn normal_setup_hides_the_shadow() {
    let mut options = GameOptions::new();
    let mut stored = GameScoresRes::new();
    let interval = setup_game_data(&GameLevelRes(GameSelectedLevel::Normal), &mut options, &mut stored);
    assert_eq!(interval, 725_000_024);
    assert_eq!(interval, DEFAULT_NORMAL_FALL_INTERVAL);
    assert_eq!(options, GameOptions { show_shadow_brick: false, show_board_lines: true, seven_bag_randomization: true });
    assert_eq!(stored, GameScoresRes { level: 1, score: 0, lines: 0 });
}

#[test]
fn hard_setup_hides_all_helps() {
    let mut options = GameOptions::new();
    let mut stored = GameScoresRes::new();
    let interval = setup_game_data(&GameLevelRes(GameSelectedLevel::Hard), &mut options, &mut stored);
    assert_eq!(interval, 400_000_006);
    assert_eq!(interval, DEFAULT_HARD_FALL_INTERVAL);
    assert_eq!(options, GameOptions { show_shadow_brick: false, show_board_lines: false, seven_bag_randomization: false });
}

#[test]
fn setup_does_not_depend_on_previous_options() {
    for level in [GameSelectedLevel::Easy, GameSelectedLevel::Normal, GameSelectedLevel::Hard] {
        let mut results = Vec::new();
        for bits in 0u8..8 {
            let mut options = GameOptions {
                show_shadow_brick: bits & 1 != 0,
                show_board_lines: bits & 2 != 0,
                seven_bag_randomization: bits & 4 != 0,
            };
            let mut stored = GameScoresRes::new();
            setup_game_data(&GameLevelRes(level), &mut options, &mut stored);
            results.push(options);
        }
        assert!(results.iter().all(|o| *o == results[0]));
    }
}

#[test]
fn difficulties_are_ordered_by_speed() {
    assert!(DEFAULT_EASY_FALL_INTERVAL > DEFAULT_NORMAL_FALL_INTERVAL);
    assert!(DEFAULT_NORMAL_FALL_INTERVAL > DEFAULT_HARD_FALL_INTERVAL);
    assert!(DEFAULT_HARD_FALL_INTERVAL > MAX_FALL_INTERVAL);
    assert_eq!(MAX_FALL_INTERVAL, 100_000_001);
    for (interval, seconds) in [
        (DEFAULT_EASY_FALL_INTERVAL, 1.1f32),
        (DEFAULT_NORMAL_FALL_INTERVAL, 0.725f32),
        (DEFAULT_HARD_FALL_INTERVAL, 0.4f32),
        (MAX_FALL_INTERVAL, 0.1f32),
    ] {
        assert_eq!(std::time::Duration::from_nanos(interval), std::time::Duration::from_secs_f32(seconds));
    }
}

#[test]
fn cleared_lines_are_counted_and_recorded() {
    let mut board = ScoreBoard { score: Some(300), lines: Some(8), level: Some(1) };
    let mut stored = GameScoresRes { level: 1, score: 300, lines: 8 };
    let outcome = board.settle_landing(&mut stored, true, 3, level_of, points_of);
    assert_eq!(outcome, LandingOutcome::NextBrick);
    assert_eq!(board, ScoreBoard { score: Some(300 + 2 * 3 * 100), lines: Some(11), level: Some(2) });
    assert_eq!(stored, GameScoresRes { level: 2, score: 900, lines: 11 });
}

#[test]
fn landing_without_cleared_lines_changes_no_counter() {
    let mut board = ScoreBoard { score: Some(300), lines: Some(8), level: Some(1) };
    let mut stored = GameScoresRes { level: 1, score: 250, lines: 7 };
    let outcome = board.settle_landing(&mut stored, true, 0, level_of, points_of);
    assert_eq!(outcome, LandingOutcome::NextBrick);
    assert_eq!(board, ScoreBoard { score: Some(300), lines: Some(8), level: Some(1) });
    assert_eq!(stored, GameScoresRes { level: 1, score: 250, lines: 7 });
}

#[test]
fn blocked_entry_ends_the_game_without_counting() {
    let mut board = ScoreBoard { score: Some(300), lines: Some(8), level: Some(1) };
    let mut stored = GameScoresRes { level: 1, score: 300, lines: 8 };
    let outcome = board.settle_landing(&mut stored, false, 4, level_of, points_of);
    assert_eq!(outcome, LandingOutcome::GameOver);
    assert_eq!(board, ScoreBoard { score: Some(300), lines: Some(8), level: Some(1) });
    assert_eq!(stored, GameScoresRes { level: 1, score: 300, lines: 8 });
}

#[test]
fn level_is_taken_from_the_total_line_count() {
    let mut board = ScoreBoard::new();
    let mut stored = GameScoresRes { level: 1, score: 0, lines: 0 };
    let seen = std::cell::RefCell::new(Vec::new());
    board.settle_landing(&mut stored, true, 2, |n| { seen.borrow_mut().push(n); n }, |_, c| c);
    assert_eq!(*seen.borrow(), vec![2]);
    assert_eq!(board.level, Some(2));
    assert_eq!(board.score, Some(2));
}

#[test]
fn counters_off_screen_fall_back_to_defaults() {
    let mut board = ScoreBoard { score: None, lines: None, level: None };
    let mut stored = GameScoresRes { level: 4, score: 800, lines: 33 };
    let outcome = board.settle_landing(&mut stored, true, 2, level_of, points_of);
    assert_eq!(outcome, LandingOutcome::NextBrick);
    assert_eq!(board, ScoreBoard { score: None, lines: None, level: None });
    assert_eq!(stored, GameScoresRes { level: 1, score: 0, lines: 0 });
}

#[test]
fn a_missing_line_counter_counts_from_zero() {
    let mut board = ScoreBoard { score: Some(50), lines: None, level: Some(3) };
    let mut stored = GameScoresRes { level: 3, score: 50, lines: 25 };
    board.settle_landing(&mut stored, true, 1, level_of, points_of);
    assert_eq!(board, ScoreBoard { score: Some(50 + 100), lines: None, level: Some(1) });
    assert_eq!(stored, GameScoresRes { level: 1, score: 150, lines: 0 });
}

#[test]
fn points_are_only_asked_for_the_level_reached() {
    let mut board = ScoreBoard { score: Some(1), lines: Some(0), level: Some(1) };
    let mut stored = GameScoresRes { level: 1, score: 1, lines: 0 };
    let outcome = board.settle_landing(
        &mut stored,
        true,
        1,
        |_| 1,
        |level, lines| if level <= 1000 { 100 * level * lines + 1 } else { usize::MAX },
    );
    assert_eq!(outcome, LandingOutcome::NextBrick);
    assert_eq!(board, ScoreBoard { score: Some(102), lines: Some(1), level: Some(1) });
    assert_eq!(stored, GameScoresRes { level: 1, score: 102, lines: 1 });
}
