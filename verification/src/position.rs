use vstd::prelude::*;

verus! {

/// A cell coordinate on the board: `x` grows to the right, `y` grows upwards.
#[derive(Clone, Copy, Debug, PartialEq, Eq, Structural)]
pub struct Position {
    pub x: i32,
    pub y: i32,
}

impl Position {
    /// The position one row below.
    pub fn down(&self) -> (res: Position)
        requires
            self.y > i32::MIN,
        ensures
            res.x == self.x,
            res.y == self.y - 1,
    {
        Position { x: self.x, y: self.y - 1 }
    }

    /// Moves this position one row down.
    pub fn down_assign(&mut self)
        requires
            old(self).y > i32::MIN,
        ensures
            final(self).x == old(self).x,
            final(self).y == old(self).y - 1,
    {
        self.y = self.y - 1;
    }

    /// The position one column to the left.
    pub fn left(&self) -> (res: Position)
        requires
            self.x > i32::MIN,
        ensures
            res.x == self.x - 1,
            res.y == self.y,
    {
        Position { x: self.x - 1, y: self.y }
    }

    /// The position one column to the right.
    pub fn right(&self) -> (res: Position)
        requires
            self.x < i32::MAX,
        ensures
            res.x == self.x + 1,
            res.y == self.y,
    {
        Position { x: self.x + 1, y: self.y }
    }
}

} // verus!
