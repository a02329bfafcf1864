//! The snake: its body, head first, and the direction it travels in.
use vstd::prelude::*;
use crate::geometry::{Color, Item, WIDTH, HEIGHT, WIN_LENGTH, same_cell};

verus! {

#[derive(Clone, Copy, PartialEq, Eq, Debug, Structural)]
pub enum Direction {
    Up,
    Down,
    Left,
    Right,
}

/// A key press, as far as the game tells keys apart.
#[derive(Clone, Copy, PartialEq, Eq, Debug, Structural)]
pub enum Key {
    Up,
    Down,
    Left,
    Right,
    /// Leaves the end screen.
    Esc,
    /// Starts a new session from the end screen.
    Restart,
    /// Ends the process at once, from anywhere.
    HardQuit,
    Other,
}

impl Direction {
    pub open spec fn opposite_spec(self) -> Direction {
        match self {
            Direction::Up => Direction::Down,
            Direction::Down => Direction::Up,
            Direction::Left => Direction::Right,
            Direction::Right => Direction::Left,
        }
    }

    pub fn opposite(&self) -> (r: Direction)
        ensures
            r == self.opposite_spec(),
    {
        match self {
            Direction::Up => Direction::Down,
            Direction::Down => Direction::Up,
            Direction::Left => Direction::Right,
            Direction::Right => Direction::Left,
        }
    }

    /// Whether the snake travels along a row.
    pub open spec fn is_horizontal(self) -> bool {
        self == Direction::Left || self == Direction::Right
    }
}

/// The direction a key asks for; `None` for keys that steer nowhere.
pub open spec fn key_direction(key: Key) -> Option<Direction> {
    match key {
        Key::Up => Some(Direction::Up),
        Key::Down => Some(Direction::Down),
        Key::Left => Some(Direction::Left),
        Key::Right => Some(Direction::Right),
        _ => None,
    }
}

/// The direction after `key` is pressed while travelling `current`: a turn
/// to the exact opposite is refused.
pub open spec fn steer(current: Direction, key: Key) -> Direction {
    match key_direction(key) {
        Some(d) => if d == current.opposite_spec() { current } else { d },
        None => current,
    }
}

/// The cell one step from `(x, y)`, wrapping at the edges of the grid.
pub open spec fn step_from(x: u16, y: u16, d: Direction) -> (u16, u16) {
    match d {
        Direction::Up => if y == 0 { (x, (HEIGHT - 1) as u16) } else { (x, (y - 1) as u16) },
        Direction::Down => if y == HEIGHT { (x, 1u16) } else { (x, (y + 1) as u16) },
        Direction::Left => if x == 0 { ((WIDTH - 1) as u16, y) } else { ((x - 1) as u16, y) },
        Direction::Right => if x == WIDTH { (1u16, y) } else { ((x + 1) as u16, y) },
    }
}

/// The body after one move to `head`: the tail stays when growing.
pub open spec fn moved_body(body: Seq<Item>, head: Item, grow: bool) -> Seq<Item> {
    if grow {
        seq![head] + body
    } else {
        seq![head] + body.drop_last()
    }
}

pub struct Snake {
    /// Segments, head first.
    pub body: Vec<Item>,
    pub direction: Direction,
}

impl Snake {
    /// Between one and `WIN_LENGTH` segments, each on the grid.
    pub open spec fn wf(&self) -> bool {
        &&& 1 <= self.body@.len() <= WIN_LENGTH
        &&& forall|i: int| 0 <= i < self.body@.len() ==> (#[trigger] self.body@[i]).on_grid()
    }

    pub open spec fn head_spec(&self) -> Item {
        self.body@[0]
    }

    /// The segment the next move puts in front.
    pub open spec fn next_head_spec(&self) -> Item {
        let (x, y) = step_from(self.head_spec().x, self.head_spec().y, self.direction);
        Item { figure: 'X', color: Color::Blue, x, y }
    }

    /// Some segment stands at `(x, y)`.
    pub open spec fn occupies_spec(&self, x: u16, y: u16) -> bool {
        exists|i: int| 0 <= i < self.body@.len() && (#[trigger] self.body@[i]).at(x, y)
    }

    /// A segment other than the head stands where `p` does.
    pub open spec fn hits_body_spec(&self, p: Item) -> bool {
        exists|i: int| 1 <= i < self.body@.len() && same_cell(p, #[trigger] self.body@[i])
    }

    /// Milliseconds to wait for a key: shorter as the snake grows, and
    /// shorter along a row than along a column.
    pub open spec fn tick_timeout_spec(&self) -> int {
        if self.direction.is_horizontal() {
            100 - self.body@.len()
        } else {
            150 - self.body@.len()
        }
    }

    /// A snake of one segment, heading up.
    pub fn new(head: Item) -> (r: Snake)
        requires
            head.on_grid(),
        ensures
            r.wf(),
            r.body@ == seq![head],
            r.direction == Direction::Up,
    {
        Snake { body: vec![head], direction: Direction::Up }
    }

    pub fn length(&self) -> (r: usize)
        ensures
            r == self.body@.len(),
    {
        self.body.len()
    }

    pub fn get_head(&self) -> (r: &Item)
        requires
            self.body@.len() > 0,
        ensures
            *r == self.head_spec(),
    {
        &self.body[0]
    }

    pub fn next_head(&self) -> (r: Item)
        requires
            self.wf(),
        ensures
            r == self.next_head_spec(),
            r.on_grid(),
    {
        let head = self.get_head();
        let (x, y) = match self.direction {
            Direction::Up => if head.y == 0 { (head.x, HEIGHT - 1) } else { (head.x, head.y - 1) },
            Direction::Down => if head.y == HEIGHT { (head.x, 1) } else { (head.x, head.y + 1) },
            Direction::Left => if head.x == 0 { (WIDTH - 1, head.y) } else { (head.x - 1, head.y) },
            Direction::Right => if head.x == WIDTH { (1, head.y) } else { (head.x + 1, head.y) },
        };
        Item::new('X', Color::Blue, x, y)
    }

    /// Moves one cell on; keeps the tail when `will_grow`.
    pub fn move_snake(&mut self, will_grow: bool)
        requires
            old(self).wf(),
            will_grow ==> old(self).body@.len() < WIN_LENGTH,
        ensures
            final(self).wf(),
            final(self).body@ == moved_body(old(self).body@, old(self).next_head_spec(), will_grow),
            final(self).direction == old(self).direction,
    {
        let new_head = self.next_head();
        if !will_grow {
            self.body.pop();
        }
        self.body.insert(0, new_head);
        proof {
            let b = self.body@;
            assert forall|i: int| 0 <= i < b.len() implies (#[trigger] b[i]).on_grid() by {
                if i > 0 {
                    assert(b[i] == old(self).body@[i - 1]);
                }
            }
        }
    }

    /// Removes the last segment.
    pub fn drop_tail(&mut self)
        requires
            old(self).wf(),
            old(self).body@.len() > 1,
        ensures
            final(self).wf(),
            final(self).body@ == old(self).body@.drop_last(),
            final(self).direction == old(self).direction,
    {
        self.body.pop();
    }

    /// Turns as `key` asks, unless that is a reversal or the key steers nowhere.
    pub fn change_direction(&mut self, key: Key)
        ensures
            final(self).direction == steer(old(self).direction, key),
            final(self).body == old(self).body,
    {
        let new_direction = match key {
            Key::Up => Direction::Up,
            Key::Down => Direction::Down,
            Key::Left => Direction::Left,
            Key::Right => Direction::Right,
            _ => self.direction,
        };
        if new_direction != self.direction.opposite() {
            self.direction = new_direction;
        }
    }

    pub fn occupies(&self, x: u16, y: u16) -> (r: bool)
        ensures
            r == self.occupies_spec(x, y),
    {
        let mut i: usize = 0;
        while i < self.body.len()
            invariant
                0 <= i <= self.body@.len(),
                forall|j: int| 0 <= j < i ==> !(#[trigger] self.body@[j]).at(x, y),
            decreases self.body@.len() - i,
        {
            if self.body[i].x == x && self.body[i].y == y {
                return true;
            }
            i += 1;
        }
        false
    }

    pub fn hits_body(&self, p: &Item) -> (r: bool)
        ensures
            r == self.hits_body_spec(*p),
    {
        let mut i: usize = 1;
        while i < self.body.len()
            invariant
                1 <= i,
                i <= self.body@.len() || self.body@.len() == 0,
                forall|j: int| 1 <= j < i && j < self.body@.len() ==> !same_cell(*p, #[trigger] self.body@[j]),
            decreases self.body@.len() - i,
        {
            if self.body[i].x == p.x && self.body[i].y == p.y {
                return true;
            }
            i += 1;
        }
        false
    }

    pub fn tick_timeout_ms(&self) -> (r: u64)
        requires
            self.wf(),
        ensures
            r == self.tick_timeout_spec(),
    {
        let len = self.body.len() as u64;
        match self.direction {
            Direction::Left | Direction::Right => 100 - len,
            Direction::Up | Direction::Down => 150 - len,
        }
    }
}

/// A turn to the exact opposite of the current direction leaves the
/// direction as it was.
pub proof fn lemma_reversal_rejected(current: Direction, key: Key)
    requires
        key_direction(key) == Some(current.opposite_spec()),
    ensures
        steer(current, key) == current,
{
}

} // verus!
