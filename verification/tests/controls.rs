use tetris::brick_kind::BrickType;
use tetris::game::{LandingOutcome, MAX_FALL_INTERVAL, SOFT_DROP_LIMIT};
use tetris::input::{ControlKey, InputFrame};
use tetris::moving::{
    brick_after_landing, brick_fall_down, enter_brick, hard_drop_key_event, move_brick_key_event, rotate_brick_key_event, soft_drop_key_event,
    FallAction, MovingBrick, SoftDropAction,
};
use tetris::pause::{is_not_pause_state, pause_state_changed_event, PauseStateRes};
use tetris::position::Position;

fn pressed(keys: &[ControlKey]) -> InputFrame {
    InputFrame::new(keys.to_vec(), vec![])
}

fn released(keys: &[ControlKey]) -> InputFrame {
    InputFrame::new(vec![], keys.to_vec())
}

/// A ten-column board with a floor at row 0 and a wall block at (5, 3).
fn open_cell(_brick: u8, p: Position) -> bool {
    p.y >= 0 && p.x >= 0 && p.x < 10 && !(p.x == 5 && p.y == 3)
}

#[test]
fn input_frame_reports_keys() {
    let input = InputFrame::new(vec![ControlKey::Space], vec![ControlKey::KeyJ]);
    assert!(input.just_pressed(ControlKey::Space));
    assert!(!input.just_pressed(ControlKey::KeyJ));
    assert!(input.just_released(ControlKey::KeyJ));
    assert!(!input.just_released(ControlKey::Space));
}

#[test]
fn new_moving_brick_is_movable() {
    let m = MovingBrick::new(7u8, Position { x: 3, y: 18 });
    assert!(m.movable);
    assert_eq!(m.brick, 7);
    assert_eq!(m.moving_pos, Position { x: 3, y: 18 });
}

#[test]
fn gravity_waits_for_next_brick() {
    let mut moving = Some(MovingBrick::new(0u8, Position { x: 2, y: 6 }));
    assert_eq!(brick_fall_down(None, &mut moving, open_cell, 10, 24), FallAction::Idle);
    assert_eq!(moving.as_ref().unwrap().moving_pos, Position { x: 2, y: 6 });
}

#[test]
fn gravity_spawns_first_brick() {
    let mut moving: Option<MovingBrick<u8>> = None;
    assert_eq!(brick_fall_down(Some((9u8, BrickType::T)), &mut moving, open_cell, 10, 24), FallAction::SpawnFirst);
    let entered = moving.unwrap();
    assert_eq!(entered.brick, 9);
    assert_eq!(entered.moving_pos, Position { x: 3, y: 18 });
    assert!(entered.movable);
}

#[test]
fn gravity_moves_down_then_lands() {
    let mut moving = Some(MovingBrick::new(0u8, Position { x: 2, y: 1 }));
    assert_eq!(brick_fall_down(Some((5u8, BrickType::O)), &mut moving, open_cell, 10, 24), FallAction::MovedDown);
    assert_eq!(moving.as_ref().unwrap().moving_pos, Position { x: 2, y: 0 });
    assert_eq!(brick_fall_down(Some((5u8, BrickType::O)), &mut moving, open_cell, 10, 24), FallAction::Landed);
    assert!(moving.is_none());
}

#[test]
fn hard_drop_goes_to_the_floor_and_locks() {
    let mut m = MovingBrick::new(0u8, Position { x: 2, y: 9 });
    hard_drop_key_event(&pressed(&[ControlKey::Space]), &mut m, open_cell);
    assert_eq!(m.moving_pos, Position { x: 2, y: 0 });
    assert!(!m.movable);
}

#[test]
fn hard_drop_stops_above_an_obstacle() {
    let mut m = MovingBrick::new(0u8, Position { x: 5, y: 9 });
    hard_drop_key_event(&pressed(&[ControlKey::Space]), &mut m, open_cell);
    assert_eq!(m.moving_pos, Position { x: 5, y: 4 });
    assert!(!m.movable);
}

#[test]
fn hard_drop_needs_space() {
    let mut m = MovingBrick::new(0u8, Position { x: 2, y: 9 });
    hard_drop_key_event(&pressed(&[ControlKey::ArrowDown]), &mut m, open_cell);
    assert_eq!(m.moving_pos, Position { x: 2, y: 9 });
    assert!(m.movable);
}

#[test]
fn moving_left_and_right() {
    let mut m = MovingBrick::new(0u8, Position { x: 2, y: 9 });
    assert!(move_brick_key_event(&pressed(&[ControlKey::ArrowLeft]), &mut m, open_cell));
    assert_eq!(m.moving_pos, Position { x: 1, y: 9 });
    assert!(move_brick_key_event(&pressed(&[ControlKey::ArrowRight]), &mut m, open_cell));
    assert_eq!(m.moving_pos, Position { x: 2, y: 9 });
    assert!(move_brick_key_event(&pressed(&[ControlKey::ArrowRight, ControlKey::ArrowLeft]), &mut m, open_cell));
    assert_eq!(m.moving_pos, Position { x: 1, y: 9 });
    assert!(!move_brick_key_event(&pressed(&[ControlKey::ArrowUp]), &mut m, open_cell));
    assert_eq!(m.moving_pos, Position { x: 1, y: 9 });
}

#[test]
fn moving_into_a_wall_is_refused() {
    let mut m = MovingBrick::new(0u8, Position { x: 0, y: 9 });
    assert!(!move_brick_key_event(&pressed(&[ControlKey::ArrowLeft]), &mut m, open_cell));
    assert_eq!(m.moving_pos, Position { x: 0, y: 9 });
    let mut n = MovingBrick::new(0u8, Position { x: 4, y: 3 });
    assert!(!move_brick_key_event(&pressed(&[ControlKey::ArrowRight]), &mut n, open_cell));
    assert_eq!(n.moving_pos, Position { x: 4, y: 3 });
}

#[test]
fn a_dropped_brick_no_longer_moves_or_turns() {
    let mut m = MovingBrick { moving_pos: Position { x: 2, y: 0 }, brick: 1u8, movable: false };
    assert!(!move_brick_key_event(&pressed(&[ControlKey::ArrowLeft]), &mut m, open_cell));
    assert!(!rotate_brick_key_event(&pressed(&[ControlKey::ArrowUp]), &mut m, |b| b + 1, open_cell));
    assert_eq!(m.moving_pos, Position { x: 2, y: 0 });
    assert_eq!(m.brick, 1);
}

#[test]
fn rotation_turns_when_the_shape_fits() {
    let mut m = MovingBrick::new(1u8, Position { x: 2, y: 5 });
    assert!(rotate_brick_key_event(&pressed(&[ControlKey::ArrowUp]), &mut m, |b| (b + 1) % 4, open_cell));
    assert_eq!(m.brick, 2);
    assert_eq!(m.moving_pos, Position { x: 2, y: 5 });
    assert!(m.movable);
    assert!(!rotate_brick_key_event(&pressed(&[ControlKey::ArrowUp]), &mut m, |b| (b + 1) % 4, |b, _| b != 3));
    assert_eq!(m.brick, 2);
    assert!(!rotate_brick_key_event(&pressed(&[ControlKey::ArrowDown]), &mut m, |b| (b + 1) % 4, open_cell));
    assert_eq!(m.brick, 2);
}

#[test]
fn soft_drop_speeds_up_and_release_restores() {
    assert_eq!(soft_drop_key_event(&pressed(&[ControlKey::ArrowDown]), 725_000_000), SoftDropAction::SpeedUp);
    assert_eq!(soft_drop_key_event(&pressed(&[ControlKey::KeyJ]), 725_000_000), SoftDropAction::SpeedUp);
    assert_eq!(soft_drop_key_event(&pressed(&[ControlKey::KeyJ]), MAX_FALL_INTERVAL), SoftDropAction::Unchanged);
    assert_eq!(soft_drop_key_event(&pressed(&[ControlKey::KeyJ]), SOFT_DROP_LIMIT), SoftDropAction::Unchanged);
    assert_eq!(soft_drop_key_event(&pressed(&[ControlKey::KeyJ]), 100_000_004), SoftDropAction::Unchanged);
    assert_eq!(soft_drop_key_event(&pressed(&[ControlKey::KeyJ]), 100_000_005), SoftDropAction::SpeedUp);
    assert_eq!(soft_drop_key_event(&released(&[ControlKey::ArrowDown]), MAX_FALL_INTERVAL), SoftDropAction::RestoreLevelSpeed);
    assert_eq!(soft_drop_key_event(&released(&[ControlKey::KeyJ]), 1), SoftDropAction::RestoreLevelSpeed);
    assert_eq!(soft_drop_key_event(&pressed(&[ControlKey::Space]), 725_000_000), SoftDropAction::Unchanged);
    let both = InputFrame::new(vec![ControlKey::KeyJ], vec![ControlKey::ArrowDown]);
    assert_eq!(soft_drop_key_event(&both, 725_000_000), SoftDropAction::SpeedUp);
}

#[test]
fn pause_follows_focus_and_escape() {
    let mut state = PauseStateRes::new(false, false);
    assert!(is_not_pause_state(&state));
    pause_state_changed_event(&pressed(&[]), &vec![false], &mut state);
    assert!(state.lose_focus_pause);
    assert!(!is_not_pause_state(&state));
    pause_state_changed_event(&pressed(&[]), &vec![false, true], &mut state);
    assert!(!state.lose_focus_pause);
    assert!(is_not_pause_state(&state));
    pause_state_changed_event(&pressed(&[ControlKey::Escape]), &vec![], &mut state);
    assert!(state.user_click_pause);
    assert!(state.is_pause_state());
    pause_state_changed_event(&pressed(&[ControlKey::Escape]), &vec![], &mut state);
    assert_eq!(state, PauseStateRes::new(false, false));
}

#[test]
fn regaining_focus_keeps_a_player_pause() {
    let mut state = PauseStateRes::new(true, true);
    pause_state_changed_event(&pressed(&[]), &vec![true], &mut state);
    assert!(state.is_pause_state());
    assert!(!state.lose_focus_pause);
}

#[test]
fn hard_drop_twice_is_hard_drop_once() {
    let mut m = MovingBrick::new(0u8, Position { x: 5, y: 12 });
    hard_drop_key_event(&pressed(&[ControlKey::Space]), &mut m, open_cell);
    let once = (m.moving_pos, m.movable, m.brick);
    hard_drop_key_event(&pressed(&[ControlKey::Space]), &mut m, open_cell);
    assert_eq!((m.moving_pos, m.movable, m.brick), once);
    assert_eq!(once, (Position { x: 5, y: 4 }, false, 0));
}

#[test]
fn right_undoes_left() {
    let start = Position { x: 6, y: 7 };
    let mut m = MovingBrick::new(3u8, start);
    assert!(move_brick_key_event(&pressed(&[ControlKey::ArrowLeft]), &mut m, open_cell));
    assert_eq!(m.moving_pos, Position { x: 5, y: 7 });
    assert!(move_brick_key_event(&pressed(&[ControlKey::ArrowRight]), &mut m, open_cell));
    assert_eq!(m.moving_pos, start);
    assert!(m.movable);
    assert_eq!(m.brick, 3);
}

#[test]
fn waiting_brick_enters_at_its_start_position() {
    let m = enter_brick(4u8, &BrickType::I, 10, 24);
    assert_eq!(m.moving_pos, Position { x: 3, y: 19 });
    assert_eq!(m.brick, 4);
    assert!(m.movable);
}

#[test]
fn after_landing_the_waiting_brick_enters_unless_game_over() {
    let next = brick_after_landing(LandingOutcome::NextBrick, 2u8, &BrickType::S, 10, 24).unwrap();
    assert_eq!(next.moving_pos, Position { x: 3, y: 19 });
    assert_eq!(next.brick, 2);
    assert!(next.movable);
    assert!(brick_after_landing(LandingOutcome::GameOver, 2u8, &BrickType::S, 10, 24).is_none());
}

#[test]
fn soft_drop_limit_matches_single_precision_comparison() {
    for n in (100_000_000u64..=100_000_020).chain([99_999_000, 725_000_024, 1_100_000_024]) {
        let faster_than_soft_drop = std::time::Duration::from_nanos(n).as_secs_f32() > 0.1f32;
        assert_eq!(faster_than_soft_drop, n > SOFT_DROP_LIMIT, "{}", n);
    }
}
