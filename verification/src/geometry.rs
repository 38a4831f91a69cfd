use vstd::prelude::*;

verus! {

/// One of the four unit steps on the grid. Rows grow upwards, so `Down`
/// decreases `y`.
#[derive(Clone, Copy, Debug, PartialEq, Eq, Structural, Hash)]
pub enum Direction {
    Left,
    Right,
    Up,
    Down,
}

impl Direction {
    /// Column change of one step in this direction.
    pub open spec fn dx(self) -> int {
        match self {
            Direction::Left => -1,
            Direction::Right => 1,
            Direction::Up => 0,
            Direction::Down => 0,
        }
    }

    /// Row change of one step in this direction.
    pub open spec fn dy(self) -> int {
        match self {
            Direction::Left => 0,
            Direction::Right => 0,
            Direction::Up => 1,
            Direction::Down => -1,
        }
    }

    /// The direction a quarter turn clockwise from this one.
    pub open spec fn spec_clockwise(self) -> Direction {
        match self {
            Direction::Right => Direction::Down,
            Direction::Down => Direction::Left,
            Direction::Left => Direction::Up,
            Direction::Up => Direction::Right,
        }
    }

    /// The direction a quarter turn anti-clockwise from this one.
    pub open spec fn spec_anti_clockwise(self) -> Direction {
        match self {
            Direction::Right => Direction::Up,
            Direction::Up => Direction::Left,
            Direction::Left => Direction::Down,
            Direction::Down => Direction::Right,
        }
    }

    #[verifier::when_used_as_spec(spec_clockwise)]
    pub fn clockwise(self) -> (turned: Direction)
        ensures
            turned == self.spec_clockwise(),
    {
        match self {
            Direction::Right => Direction::Down,
            Direction::Down => Direction::Left,
            Direction::Left => Direction::Up,
            Direction::Up => Direction::Right,
        }
    }

    #[verifier::when_used_as_spec(spec_anti_clockwise)]
    pub fn anti_clockwise(self) -> (turned: Direction)
        ensures
            turned == self.spec_anti_clockwise(),
    {
        match self {
            Direction::Right => Direction::Up,
            Direction::Up => Direction::Left,
            Direction::Left => Direction::Down,
            Direction::Down => Direction::Right,
        }
    }
}

/// A cell coordinate: column `x`, row `y`, with row 0 at the bottom.
#[derive(Clone, Copy, Debug, PartialEq, Eq, Structural, Hash)]
pub struct Position {
    pub x: i8,
    pub y: i8,
}

impl Position {
    /// Whether the neighbour one step in `direction` still fits the
    /// coordinate type.
    pub open spec fn can_translate(self, direction: Direction) -> bool {
        &&& i8::MIN <= self.x + direction.dx() <= i8::MAX
        &&& i8::MIN <= self.y + direction.dy() <= i8::MAX
    }

    /// The neighbour one step in `direction`.
    pub open spec fn spec_translate(self, direction: Direction) -> Position {
        Position {
            x: (self.x + direction.dx()) as i8,
            y: (self.y + direction.dy()) as i8,
        }
    }

    /// Executable form of `can_translate`.
    pub fn fits(self, direction: Direction) -> (ok: bool)
        ensures
            ok == self.can_translate(direction),
    {
        match direction {
            Direction::Left => self.x > i8::MIN,
            Direction::Right => self.x < i8::MAX,
            Direction::Up => self.y < i8::MAX,
            Direction::Down => self.y > i8::MIN,
        }
    }

    /// Moves one cell in `direction`.
    #[verifier::when_used_as_spec(spec_translate)]
    pub fn translate(self, direction: Direction) -> (moved: Position)
        requires
            self.can_translate(direction),
        ensures
            moved == self.spec_translate(direction),
            moved.x == self.x + direction.dx(),
            moved.y == self.y + direction.dy(),
    {
        match direction {
            Direction::Left => Position { x: self.x - 1, y: self.y },
            Direction::Right => Position { x: self.x + 1, y: self.y },
            Direction::Up => Position { x: self.x, y: self.y + 1 },
            Direction::Down => Position { x: self.x, y: self.y - 1 },
        }
    }
}

} // verus!
