use vstd::prelude::*;

use crate::position::Position;

verus! {

/// The seven tetromino shapes, and `Empty` for an empty board cell.
#[derive(Clone, Copy, Debug, PartialEq, Eq, Hash, Structural)]
pub enum BrickType {
    O,
    I,
    J,
    L,
    S,
    Z,
    T,
    Empty,
}

/// The colour, as a `#RRGGBB` string, in which each kind of cell is drawn.
pub open spec fn spec_brick_color_hex(brick_type: BrickType) -> Seq<char> {
    match brick_type {
        BrickType::O => "#CDCD00"@,
        BrickType::I => "#00CDCD"@,
        BrickType::J => "#0000CD"@,
        BrickType::L => "#CD6600"@,
        BrickType::S => "#00CD00"@,
        BrickType::Z => "#CD0000"@,
        BrickType::T => "#9A00CD"@,
        BrickType::Empty => "#484848"@,
    }
}

/// Looks up the drawing colour of a cell kind.
pub fn brick_color_hex(brick_type: &BrickType) -> (res: &'static str)
    ensures
        res@ == spec_brick_color_hex(*brick_type),
{
    match brick_type {
        BrickType::O => "#CDCD00",
        BrickType::I => "#00CDCD",
        BrickType::J => "#0000CD",
        BrickType::L => "#CD6600",
        BrickType::S => "#00CD00",
        BrickType::Z => "#CD0000",
        BrickType::T => "#9A00CD",
        BrickType::Empty => "#484848",
    }
}

/// Whether a newly spawned brick of this kind starts one row higher than the others.
pub open spec fn starts_one_row_higher(brick_type: BrickType) -> bool {
    brick_type == BrickType::Z || brick_type == BrickType::S || brick_type == BrickType::I
}

/// The entry position of a brick of kind `brick_type` on a board `board_x`
/// columns wide and `board_y` rows high.
pub open spec fn spec_brick_start_position(brick_type: BrickType, board_x: usize, board_y: usize) -> Position {
    Position {
        x: (board_x / 2 - 2) as i32,
        y: (board_y - 6 + (if starts_one_row_higher(brick_type) { 1int } else { 0int })) as i32,
    }
}

/// Where a new brick enters a board that is `board_x` columns wide and `board_y` rows high:
/// two columns left of the middle, six rows below the top, and one row higher for
/// the `Z`, `S` and `I` shapes.
pub fn create_brick_start_position(brick_type: &BrickType, board_x: usize, board_y: usize) -> (pos: Position)
    requires
        board_x <= i32::MAX,
        board_y <= i32::MAX,
    ensures
        pos.x == board_x / 2 - 2,
        pos.y == board_y - 6 + (if starts_one_row_higher(*brick_type) { 1int } else { 0int }),
        pos == spec_brick_start_position(*brick_type, board_x, board_y),
{
    let half: i32 = (board_x / 2) as i32;
    let top: i32 = board_y as i32;
    let mut pos = Position { x: half - 2, y: top - 6 };
    match brick_type {
        BrickType::Z | BrickType::S | BrickType::I => pos.y = pos.y + 1,
        _ => (),
    }
    pos
}

} // verus!
