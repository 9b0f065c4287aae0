use vstd::prelude::*;

use crate::game::{LandingOutcome, SOFT_DROP_LIMIT};
use crate::input::{ControlKey, InputFrame};
use crate::brick_kind::{create_brick_start_position, spec_brick_start_position, BrickType};
use crate::position::Position;

verus! {

/// The brick under the player's control: its shape `brick`, where it is, and
/// whether the player may still move and rotate it (a hard-dropped brick may not).
#[derive(Debug)]
pub struct MovingBrick<B> {
    pub moving_pos: Position,
    pub brick: B,
    pub movable: bool,
}

impl<B: Copy> MovingBrick<B> {
    /// A brick entering the board at `moving_pos`, free to be moved.
    pub fn new(brick: B, moving_pos: Position) -> (res: MovingBrick<B>)
        ensures
            res.brick == brick,
            res.moving_pos == moving_pos,
            res.movable,
    {
        MovingBrick { moving_pos, brick, movable: true }
    }
}

/// The moving brick that `next`, of kind `kind`, becomes when it enters a board
/// `board_x` columns wide and `board_y` rows high: at its entry position, free to be moved.
pub open spec fn entered<B>(next: B, kind: BrickType, board_x: usize, board_y: usize) -> MovingBrick<B> {
    MovingBrick { moving_pos: spec_brick_start_position(kind, board_x, board_y), brick: next, movable: true }
}

/// Brings the waiting brick `next`, of kind `kind`, onto the board as the moving brick.
pub fn enter_brick<B: Copy>(next: B, kind: &BrickType, board_x: usize, board_y: usize) -> (res: MovingBrick<B>)
    requires
        board_x <= i32::MAX,
        board_y <= i32::MAX,
    ensures
        res == entered(next, *kind, board_x, board_y),
{
    MovingBrick::new(next, create_brick_start_position(kind, board_x, board_y))
}

/// The moving brick after a landing has been settled: none when the game is
/// over, and otherwise the waiting brick `next`, entered at its entry position.
pub fn brick_after_landing<B: Copy>(
    outcome: LandingOutcome,
    next: B,
    kind: &BrickType,
    board_x: usize,
    board_y: usize,
) -> (res: Option<MovingBrick<B>>)
    requires
        board_x <= i32::MAX,
        board_y <= i32::MAX,
    ensures
        outcome == LandingOutcome::GameOver ==> res is None,
        outcome == LandingOutcome::NextBrick ==> res == Some(entered(next, *kind, board_x, board_y)),
{
    match outcome {
        LandingOutcome::GameOver => None,
        LandingOutcome::NextBrick => Some(enter_brick(next, kind, board_x, board_y)),
    }
}

/// The position one row below `pos`.
pub open spec fn below(pos: Position) -> Position {
    Position { x: pos.x, y: (pos.y - 1) as i32 }
}

/// What the fall timer did in one frame.
#[derive(Clone, Copy, Debug, PartialEq, Eq, Structural)]
pub enum FallAction {
    /// No next brick is waiting: nothing happens.
    Idle,
    /// No brick was moving: the waiting brick has entered the board.
    SpawnFirst,
    /// The moving brick went one row down.
    MovedDown,
    /// The moving brick could not go down and lands where it is.
    Landed,
}

/// One tick of gravity, once the fall timer has run out. With no next brick
/// waiting nothing happens; with no moving brick the waiting one enters the
/// board (a `board_x` by `board_y` board) at its entry position; otherwise the
/// moving brick goes one row down if the board takes it there (`fits`), and
/// else it lands and stops being the moving brick.
pub fn brick_fall_down<B: Copy, F: Fn(B, Position) -> bool>(
    next_brick: Option<(B, BrickType)>,
    moving: &mut Option<MovingBrick<B>>,
    fits: F,
    board_x: usize,
    board_y: usize,
) -> (action: FallAction)
    requires
        forall|b: B, p: Position| call_requires(fits, (b, p)),
        next_brick is Some ==> (*old(moving) matches Some(m) ==> m.moving_pos.y > i32::MIN),
        board_x <= i32::MAX,
        board_y <= i32::MAX,
    ensures
        next_brick is None ==> action == FallAction::Idle && *final(moving) == *old(moving),
        next_brick is Some && *old(moving) is None ==> action == FallAction::SpawnFirst
            && *final(moving) == Some(entered(next_brick.unwrap().0, next_brick.unwrap().1, board_x, board_y)),
        next_brick is Some && *old(moving) is Some ==> {
            let m = old(moving).unwrap();
            ||| action == FallAction::MovedDown && call_ensures(fits, (m.brick, below(m.moving_pos)), true)
                && *final(moving) == Some(MovingBrick { moving_pos: below(m.moving_pos), ..m })
            ||| action == FallAction::Landed && call_ensures(fits, (m.brick, below(m.moving_pos)), false)
                && *final(moving) is None
        },
{
    let (next, kind) = match next_brick {
        None => {
            return FallAction::Idle;
        },
        Some(waiting) => waiting,
    };
    match moving {
        None => {
            *moving = Some(enter_brick(next, &kind, board_x, board_y));
            FallAction::SpawnFirst
        },
        Some(m) => {
            let below_pos = m.moving_pos.down();
            if fits(m.brick, below_pos) {
                m.moving_pos.down_assign();
                FallAction::MovedDown
            } else {
                *moving = None;
                FallAction::Landed
            }
        },
    }
}

/// The lowest position straight below `pos` that the brick reaches by falling
/// row by row while `fits` accepts the next row.
fn drop_to_bottom<B: Copy, F: Fn(B, Position) -> bool>(brick: B, pos: Position, fits: &F) -> (bottom: Position)
    requires
        pos.y > i32::MIN,
        forall|b: B, p: Position| call_requires(*fits, (b, p)),
        !call_ensures(*fits, (brick, Position { x: pos.x, y: i32::MIN }), true),
    ensures
        bottom.x == pos.x,
        bottom.y <= pos.y,
        bottom.y > i32::MIN,
        call_ensures(*fits, (brick, below(bottom)), false),
        forall|y: i32| bottom.y <= y < pos.y ==> #[trigger] call_ensures(*fits, (brick, Position { x: pos.x, y }), true),
{
    let mut cur = pos;
    loop
        invariant_except_break
            cur.x == pos.x,
            cur.y <= pos.y,
            cur.y > i32::MIN,
            forall|b: B, p: Position| call_requires(*fits, (b, p)),
            !call_ensures(*fits, (brick, Position { x: pos.x, y: i32::MIN }), true),
            forall|y: i32| cur.y <= y < pos.y ==> #[trigger] call_ensures(*fits, (brick, Position { x: pos.x, y }), true),
        ensures
            cur.x == pos.x,
            cur.y <= pos.y,
            cur.y > i32::MIN,
            call_ensures(*fits, (brick, below(cur)), false),
            forall|y: i32| cur.y <= y < pos.y ==> #[trigger] call_ensures(*fits, (brick, Position { x: pos.x, y }), true),
        decreases cur.y - i32::MIN,
    {
        let next = cur.down();
        if fits(brick, next) {
            cur = next;
        } else {
            break;
        }
    }
    cur
}

/// Whether the board gives one answer per shape and position: `fits` is a function.
pub open spec fn answers_consistently<B, F: Fn(B, Position) -> bool>(fits: F) -> bool {
    forall|b: B, p: Position, r1: bool, r2: bool|
        #![trigger call_ensures(fits, (b, p), r1), call_ensures(fits, (b, p), r2)]
        call_ensures(fits, (b, p), r1) && call_ensures(fits, (b, p), r2) ==> r1 == r2
}

/// Whether `new` is `old` dropped straight down as far as the board answers
/// `fits` take it, and locked: every row passed was accepted and the row below
/// the end is refused.
pub open spec fn hard_dropped<B, F: Fn(B, Position) -> bool>(old: MovingBrick<B>, new: MovingBrick<B>, fits: F) -> bool {
    &&& new.brick == old.brick
    &&& !new.movable
    &&& new.moving_pos.x == old.moving_pos.x
    &&& new.moving_pos.y <= old.moving_pos.y
    &&& new.moving_pos.y > i32::MIN
    &&& call_ensures(fits, (old.brick, below(new.moving_pos)), false)
    &&& forall|y: i32| new.moving_pos.y <= y < old.moving_pos.y
        ==> #[trigger] call_ensures(fits, (old.brick, Position { x: old.moving_pos.x, y }), true)
}

/// Dropping a brick that has just been hard-dropped, on a board that gives one
/// answer per position, leaves it where it is: hard drop twice is hard drop once.
pub proof fn hard_drop_twice_is_once<B, F: Fn(B, Position) -> bool>(
    first: MovingBrick<B>,
    dropped: MovingBrick<B>,
    dropped_again: MovingBrick<B>,
    fits: F,
)
    requires
        answers_consistently(fits),
        hard_dropped(first, dropped, fits),
        hard_dropped(dropped, dropped_again, fits),
    ensures
        dropped_again == dropped,
{
    if dropped_again.moving_pos.y < dropped.moving_pos.y {
        let y = (dropped.moving_pos.y - 1) as i32;
        assert(call_ensures(fits, (dropped.brick, Position { x: dropped.moving_pos.x, y }), true));
        assert(below(dropped.moving_pos) == Position { x: dropped.moving_pos.x, y });
    }
    assert(dropped_again.moving_pos == dropped.moving_pos);
}

/// `Space` drops the moving brick straight down as far as the board takes it,
/// after which it can no longer be moved or rotated.
pub fn hard_drop_key_event<B: Copy, F: Fn(B, Position) -> bool>(
    input: &InputFrame,
    moving: &mut MovingBrick<B>,
    fits: F,
)
    requires
        forall|b: B, p: Position| call_requires(fits, (b, p)),
        input.spec_just_pressed(ControlKey::Space) ==> old(moving).moving_pos.y > i32::MIN,
        input.spec_just_pressed(ControlKey::Space) ==> !call_ensures(
            fits,
            (old(moving).brick, Position { x: old(moving).moving_pos.x, y: i32::MIN }),
            true,
        ),
        input.spec_just_pressed(ControlKey::Space) ==> answers_consistently(fits),
    ensures
        !input.spec_just_pressed(ControlKey::Space) ==> *final(moving) == *old(moving),
        input.spec_just_pressed(ControlKey::Space) ==> hard_dropped(*old(moving), *final(moving), fits),
{
    if input.just_pressed(ControlKey::Space) {
        let bottom = drop_to_bottom(moving.brick, moving.moving_pos, &fits);
        moving.moving_pos = bottom;
        moving.movable = false;
    }
}

/// `ArrowUp` turns the moving brick clockwise when the turned shape fits where
/// the brick is; a brick that may no longer be moved does not turn.
pub fn rotate_brick_key_event<B: Copy, R: Fn(B) -> B, F: Fn(B, Position) -> bool>(
    input: &InputFrame,
    moving: &mut MovingBrick<B>,
    rotate_right: R,
    fits_for_rotation: F,
) -> (rotated: bool)
    requires
        forall|b: B| call_requires(rotate_right, (b,)),
        forall|b: B, p: Position| call_requires(fits_for_rotation, (b, p)),
    ensures
        !rotated ==> *final(moving) == *old(moving),
        rotated ==> input.spec_just_pressed(ControlKey::ArrowUp) && old(moving).movable
            && call_ensures(rotate_right, (old(moving).brick,), final(moving).brick)
            && call_ensures(fits_for_rotation, (final(moving).brick, old(moving).moving_pos), true),
        rotated ==> final(moving).moving_pos == old(moving).moving_pos && final(moving).movable,
        input.spec_just_pressed(ControlKey::ArrowUp) && old(moving).movable ==> exists|r: B|
            #[trigger] call_ensures(rotate_right, (old(moving).brick,), r)
            && call_ensures(fits_for_rotation, (r, old(moving).moving_pos), rotated),
{
    if !input.just_pressed(ControlKey::ArrowUp) {
        return false;
    }
    if !moving.movable {
        return false;
    }
    let rotated_brick = rotate_right(moving.brick);
    if fits_for_rotation(rotated_brick, moving.moving_pos) {
        *moving = MovingBrick::new(rotated_brick, moving.moving_pos);
        true
    } else {
        false
    }
}

/// Whether `new` and `moved` are what a frame with `left` and `right` pressed
/// makes of `old` on a board answering `fits`: a movable brick tries one column
/// to the left (when `left` is pressed) or else to the right (when `right` is
/// pressed), and goes there exactly when the board accepts that position;
/// otherwise nothing changes.
pub open spec fn shifted<B, F: Fn(B, Position) -> bool>(
    left: bool,
    right: bool,
    old: MovingBrick<B>,
    new: MovingBrick<B>,
    moved: bool,
    fits: F,
) -> bool {
    &&& new.brick == old.brick
    &&& new.movable == old.movable
    &&& new.moving_pos.y == old.moving_pos.y
    &&& !moved ==> new == old
    &&& moved ==> old.movable && call_ensures(fits, (old.brick, new.moving_pos), true)
    &&& moved && left ==> new.moving_pos.x == old.moving_pos.x - 1
    &&& moved && !left ==> right && new.moving_pos.x == old.moving_pos.x + 1
    &&& old.movable && left ==> call_ensures(
        fits,
        (old.brick, Position { x: (old.moving_pos.x - 1) as i32, y: old.moving_pos.y }),
        moved,
    )
    &&& old.movable && !left && right ==> call_ensures(
        fits,
        (old.brick, Position { x: (old.moving_pos.x + 1) as i32, y: old.moving_pos.y }),
        moved,
    )
}

/// A move to the right undoes a move to the left, when the board answers one
/// way per position and accepts the starting position.
pub proof fn right_undoes_left<B, F: Fn(B, Position) -> bool>(
    start: MovingBrick<B>,
    after_left: MovingBrick<B>,
    after_right: MovingBrick<B>,
    moved_right: bool,
    fits: F,
)
    requires
        answers_consistently(fits),
        call_ensures(fits, (start.brick, start.moving_pos), true),
        shifted(true, false, start, after_left, true, fits),
        shifted(false, true, after_left, after_right, moved_right, fits),
    ensures
        moved_right,
        after_right == start,
{
    assert(Position { x: (after_left.moving_pos.x + 1) as i32, y: after_left.moving_pos.y } == start.moving_pos);
    assert(after_right.moving_pos == start.moving_pos);
}

/// `ArrowLeft` or `ArrowRight` moves the moving brick one column to that side
/// when the board takes it there; `ArrowLeft` wins when both are pressed, and a
/// brick that may no longer be moved stays.
pub fn move_brick_key_event<B: Copy, F: Fn(B, Position) -> bool>(
    input: &InputFrame,
    moving: &mut MovingBrick<B>,
    fits: F,
) -> (moved: bool)
    requires
        forall|b: B, p: Position| call_requires(fits, (b, p)),
        old(moving).movable && input.spec_just_pressed(ControlKey::ArrowLeft) ==> old(moving).moving_pos.x > i32::MIN,
        old(moving).movable && !input.spec_just_pressed(ControlKey::ArrowLeft)
            && input.spec_just_pressed(ControlKey::ArrowRight) ==> old(moving).moving_pos.x < i32::MAX,
    ensures
        shifted(
            input.spec_just_pressed(ControlKey::ArrowLeft),
            input.spec_just_pressed(ControlKey::ArrowRight),
            *old(moving),
            *final(moving),
            moved,
            fits,
        ),
{
    let is_left_moving = input.just_pressed(ControlKey::ArrowLeft);
    if !(is_left_moving || input.just_pressed(ControlKey::ArrowRight)) {
        return false;
    }
    if !moving.movable {
        return false;
    }
    let next_pos = if is_left_moving {
        moving.moving_pos.left()
    } else {
        moving.moving_pos.right()
    };
    if fits(moving.brick, next_pos) {
        moving.moving_pos = next_pos;
        true
    } else {
        false
    }
}

/// What the soft-drop keys do to the fall timer in one frame.
#[derive(Clone, Copy, Debug, PartialEq, Eq, Structural)]
pub enum SoftDropAction {
    Unchanged,
    /// Fall at the soft-drop interval.
    SpeedUp,
    /// Fall at the interval of the current level again.
    RestoreLevelSpeed,
}

/// `J` or `ArrowDown` going down makes the brick fall at the soft-drop interval
/// (unless its interval is already at most `SOFT_DROP_LIMIT`); either key coming up restores
/// the interval of the current level.
pub fn soft_drop_key_event(input: &InputFrame, current_interval: u64) -> (action: SoftDropAction)
    ensures
        input.spec_just_pressed(ControlKey::KeyJ) || input.spec_just_pressed(ControlKey::ArrowDown) ==> action == (
        if current_interval > SOFT_DROP_LIMIT {
            SoftDropAction::SpeedUp
        } else {
            SoftDropAction::Unchanged
        }),
        !(input.spec_just_pressed(ControlKey::KeyJ) || input.spec_just_pressed(ControlKey::ArrowDown)) ==> action == (
        if input.spec_just_released(ControlKey::KeyJ) || input.spec_just_released(ControlKey::ArrowDown) {
            SoftDropAction::RestoreLevelSpeed
        } else {
            SoftDropAction::Unchanged
        }),
{
    if input.just_pressed(ControlKey::KeyJ) || input.just_pressed(ControlKey::ArrowDown) {
        if current_interval > SOFT_DROP_LIMIT {
            SoftDropAction::SpeedUp
        } else {
            SoftDropAction::Unchanged
        }
    } else if input.just_released(ControlKey::KeyJ) || input.just_released(ControlKey::ArrowDown) {
        SoftDropAction::RestoreLevelSpeed
    } else {
        SoftDropAction::Unchanged
    }
}

} // verus!
