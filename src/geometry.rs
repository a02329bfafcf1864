//! The playfield: its size, the cells on it and the two collision predicates.
use vstd::prelude::*;

verus! {

/// Column of the right-hand wall; the interior spans columns `1..WIDTH`.
pub const WIDTH: u16 = 50;

/// Row of the bottom wall; the interior spans rows `1..HEIGHT`.
pub const HEIGHT: u16 = 30;

/// Length at which the snake has won.
pub const WIN_LENGTH: usize = 10;

/// Foreground color of a glyph.
#[derive(Clone, Copy, PartialEq, Eq, Debug, Structural)]
pub enum Color {
    Red,
    Blue,
    Yellow,
    Green,
    White,
}

/// A renderable point: a glyph, its color and its cell.
#[derive(Clone, Copy, PartialEq, Eq, Debug, Structural)]
pub struct Item {
    pub figure: char,
    pub color: Color,
    pub x: u16,
    pub y: u16,
}

impl Item {
    /// The cell lies on the grid, walls included.
    pub open spec fn on_grid(self) -> bool {
        self.x <= WIDTH && self.y <= HEIGHT
    }

    /// The cell lies strictly inside the walls.
    pub open spec fn interior(self) -> bool {
        1 <= self.x < WIDTH && 1 <= self.y < HEIGHT
    }

    pub open spec fn at(self, x: u16, y: u16) -> bool {
        self.x == x && self.y == y
    }

    pub fn new(figure: char, color: Color, x: u16, y: u16) -> (r: Item)
        ensures
            r == (Item { figure, color, x, y }),
    {
        Item { figure, color, x, y }
    }
}

/// Two items stand on the same cell, whatever they look like.
pub open spec fn same_cell(a: Item, b: Item) -> bool {
    a.x == b.x && a.y == b.y
}

/// The cell is a wall cell or lies beyond the walls.
pub open spec fn is_wall_hit(p: Item) -> bool {
    p.x >= WIDTH || p.x < 1 || p.y < 1 || p.y >= HEIGHT
}

pub fn check_collision(a: &Item, b: &Item) -> (r: bool)
    ensures
        r == same_cell(*a, *b),
{
    a.x == b.x && a.y == b.y
}

pub fn check_hit_wall(head: &Item) -> (r: bool)
    ensures
        r == is_wall_hit(*head),
        r == !head.interior(),
{
    head.x >= WIDTH || head.x < 1 || head.y < 1 || head.y >= HEIGHT
}

} // verus!
