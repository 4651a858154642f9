use vstd::prelude::*;

verus! {

/// Width of the playing field in cells, border included.
pub const WIDTH: u16 = 40;

/// Height of the playing field in cells, border included.
pub const HEIGHT: u16 = 20;

/// A cell of the playing field, 0-indexed from the top-left corner.
#[derive(Clone, Copy, PartialEq, Eq, Structural, Debug)]
pub struct Position {
    pub x: u16,
    pub y: u16,
}

/// Number of cells strictly inside the one-cell wall border.
pub open spec fn interior_cell_count() -> int {
    (WIDTH - 2) * (HEIGHT - 2)
}

/// A position lies strictly inside the one-cell wall border.
pub open spec fn in_interior(p: Position) -> bool {
    1 <= p.x < WIDTH - 1 && 1 <= p.y < HEIGHT - 1
}

/// One of the four axis-aligned movement directions; the snake never
/// moves diagonally.
#[derive(Clone, Copy, PartialEq, Eq, Structural, Debug)]
pub enum Direction {
    Up,
    Down,
    Left,
    Right,
}

impl Direction {
    /// The direction pointing the opposite way.
    pub open spec fn spec_opposite(self) -> Direction {
        match self {
            Direction::Up => Direction::Down,
            Direction::Down => Direction::Up,
            Direction::Left => Direction::Right,
            Direction::Right => Direction::Left,
        }
    }

    /// The direction pointing the opposite way.
    #[verifier::when_used_as_spec(spec_opposite)]
    pub fn opposite(self) -> (r: Direction)
        ensures
            r == self.spec_opposite(),
    {
        match self {
            Direction::Up => Direction::Down,
            Direction::Down => Direction::Up,
            Direction::Left => Direction::Right,
            Direction::Right => Direction::Left,
        }
    }
}

/// The cell one step away from `p` in direction `d`.  Meaningful only for
/// positions away from the top and left edge, where no coordinate underflows;
/// the game only ever moves from interior cells.
pub open spec fn move_pos(p: Position, d: Direction) -> Position {
    match d {
        Direction::Up => Position { x: p.x, y: (p.y - 1) as u16 },
        Direction::Down => Position { x: p.x, y: (p.y + 1) as u16 },
        Direction::Left => Position { x: (p.x - 1) as u16, y: p.y },
        Direction::Right => Position { x: (p.x + 1) as u16, y: p.y },
    }
}

} // verus!
