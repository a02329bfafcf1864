//! One game session: the snake, the food and the hazard, advanced tick by
//! tick until the game is won or lost.
use vstd::prelude::*;
use crate::bomb::{Bomb, BOMB_TIMEOUT_MS, RESPAWN_ODDS};
use crate::food::{cell_free, free_cells};
use crate::geometry::{check_collision, check_hit_wall, is_wall_hit, same_cell, Color, Item, HEIGHT, WIDTH, WIN_LENGTH};
use crate::random::random_in;
use crate::rules::{resolve, verdict, Collisions, Verdict};
use crate::snake::{moved_body, steer, Key, Snake};

verus! {

/// Where a tick leaves the loop.
#[derive(Clone, Copy, PartialEq, Eq, Debug, Structural)]
pub enum Signal {
    /// The game goes on.
    Continue,
    /// The game is over: show the end screen.
    Ended,
    /// The player asked to quit at once; nothing was changed.
    Abort,
}

/// What a key does on the end screen.
#[derive(Clone, Copy, PartialEq, Eq, Debug, Structural)]
pub enum EndChoice {
    Exit,
    Restart,
    /// The key is ignored: keep waiting.
    Wait,
}

/// The body after a tick with verdict `v`, for next head `head`.
pub open spec fn tick_body(body: Seq<Item>, head: Item, grow: bool, v: Verdict) -> Seq<Item> {
    match v {
        Verdict::Win => seq![head] + body,
        Verdict::Lose => body,
        Verdict::Shrink => moved_body(body.drop_last(), head, grow),
        Verdict::Advance => moved_body(body, head, grow),
    }
}

pub open spec fn end_choice_spec(key: Key) -> EndChoice {
    match key {
        Key::Esc => EndChoice::Exit,
        Key::Restart => EndChoice::Restart,
        _ => EndChoice::Wait,
    }
}

pub fn end_choice(key: Key) -> (r: EndChoice)
    ensures
        r == end_choice_spec(key),
{
    match key {
        Key::Esc => EndChoice::Exit,
        Key::Restart => EndChoice::Restart,
        _ => EndChoice::Wait,
    }
}

pub struct Game {
    pub snake: Snake,
    pub food: Item,
    pub bomb: Bomb,
    /// The game has ended, won or lost.
    pub over: bool,
}

impl Game {
    /// The snake is well formed, food and hazard lie inside the walls, no
    /// segment stands on the food, and a running game is not yet won.
    pub open spec fn wf(&self) -> bool {
        &&& self.snake.wf()
        &&& self.food.interior()
        &&& self.bomb.item.interior()
        &&& !self.snake.occupies_spec(self.food.x, self.food.y)
        &&& !self.over ==> self.snake.body@.len() < WIN_LENGTH
    }

    /// What the next head meets.
    pub open spec fn collisions_spec(&self) -> Collisions {
        let h = self.snake.next_head_spec();
        Collisions {
            will_grow: same_cell(h, self.food),
            hit_wall: is_wall_hit(h),
            hit_hazard: self.bomb.visible && same_cell(h, self.bomb.item),
            self_collision: self.snake.hits_body_spec(h),
        }
    }

    pub open spec fn verdict_spec(&self) -> Verdict {
        verdict(self.snake.body@.len() as int, self.collisions_spec())
    }

    /// The outcome, read from the length alone.
    pub open spec fn won_spec(&self) -> bool {
        self.snake.body@.len() >= WIN_LENGTH
    }

    /// A fresh session with the hazard armed at `(bomb_x, bomb_y)` at clock
    /// reading `now`.
    pub fn with_bomb_at(bomb_x: u16, bomb_y: u16, now: u64) -> (r: Game)
        requires
            1 <= bomb_x < WIDTH,
            1 <= bomb_y < HEIGHT,
        ensures
            r.wf(),
            !r.over,
            r.food == (Item { figure: '$', color: Color::Blue, x: WIDTH / 2, y: HEIGHT / 2 }),
            r.snake.body@ == seq![Item { figure: 'X', color: Color::Red, x: WIDTH / 2, y: (HEIGHT / 2 + 6) as u16 }],
            r.snake.direction == crate::snake::Direction::Up,
            r.bomb == (Bomb {
                item: Item { figure: 'O', color: Color::Red, x: bomb_x, y: bomb_y },
                visible: true,
                timeout: BOMB_TIMEOUT_MS,
                armed_at: now,
            }),
    {
        let food = Item::new('$', Color::Blue, WIDTH / 2, HEIGHT / 2);
        let head = Item::new('X', Color::Red, WIDTH / 2, HEIGHT / 2 + 6);
        let snake = Snake::new(head);
        let bomb = Bomb::new_bomb('O', Color::Red, bomb_x, bomb_y, BOMB_TIMEOUT_MS, now);
        Game { snake, food, bomb, over: false }
    }

    /// A fresh session with the hazard armed at a random interior cell.
    pub fn new(now: u64) -> (r: Game)
        ensures
            r.wf(),
            !r.over,
            r.food == (Item { figure: '$', color: Color::Blue, x: WIDTH / 2, y: HEIGHT / 2 }),
            r.snake.body@ == seq![Item { figure: 'X', color: Color::Red, x: WIDTH / 2, y: (HEIGHT / 2 + 6) as u16 }],
            r.bomb.visible,
            r.bomb.armed_at == now,
            r.bomb.timeout == BOMB_TIMEOUT_MS,
    {
        let x = random_in(1, WIDTH as usize) as u16;
        let y = random_in(1, HEIGHT as usize) as u16;
        Game::with_bomb_at(x, y, now)
    }

    pub fn is_won(&self) -> (r: bool)
        ensures
            r == self.won_spec(),
    {
        self.snake.length() >= WIN_LENGTH
    }

    /// Milliseconds to wait for a key this tick.
    pub fn poll_timeout(&self) -> (r: u64)
        requires
            self.wf(),
        ensures
            r == self.snake.tick_timeout_spec(),
    {
        self.snake.tick_timeout_ms()
    }

    /// One tick of the rules, after any turn: the head moves on, and what it
    /// meets decides the verdict. When it eats, the food moves to
    /// `new_food`, which must be a cell that neither the snake nor the new
    /// head holds.
    pub fn advance(&mut self, new_food: (u16, u16)) -> (r: Signal)
        requires
            old(self).wf(),
            !old(self).over,
            old(self).collisions_spec().will_grow ==> cell_free(
                old(self).snake,
                old(self).snake.next_head_spec(),
                new_food.0,
                new_food.1,
            ),
        ensures
            ({
                let c = old(self).collisions_spec();
                let v = old(self).verdict_spec();
                let h = old(self).snake.next_head_spec();
                &&& final(self).wf()
                &&& final(self).over == (v == Verdict::Win || v == Verdict::Lose)
                &&& r == if final(self).over { Signal::Ended } else { Signal::Continue }
                &&& final(self).snake.direction == old(self).snake.direction
                &&& final(self).snake.body@ == tick_body(old(self).snake.body@, h, c.will_grow, v)
                &&& final(self).food == if c.will_grow {
                    Item { x: new_food.0, y: new_food.1, ..old(self).food }
                } else {
                    old(self).food
                }
                &&& final(self).bomb == if v == Verdict::Shrink {
                    Bomb { visible: false, ..old(self).bomb }
                } else {
                    old(self).bomb
                }
            }),
    {
        let h = self.snake.next_head();
        let c = Collisions {
            will_grow: check_collision(&h, &self.food),
            hit_wall: check_hit_wall(&h),
            hit_hazard: self.bomb.visible && check_collision(&h, &self.bomb.item),
            self_collision: self.snake.hits_body(&h),
        };
        let ghost old_snake = self.snake;
        let ghost old_food = self.food;
        let v = resolve(self.snake.length(), &c);
        if c.will_grow {
            self.food.x = new_food.0;
            self.food.y = new_food.1;
        }
        match v {
            Verdict::Win => {
                self.snake.move_snake(true);
                self.over = true;
            },
            Verdict::Lose => {
                self.over = true;
            },
            Verdict::Shrink => {
                self.snake.drop_tail();
                self.bomb.hide_bomb();
                self.snake.move_snake(c.will_grow);
            },
            Verdict::Advance => {
                self.snake.move_snake(c.will_grow);
            },
        }
        proof {
            let fx = self.food.x;
            let fy = self.food.y;
            let b = self.snake.body@;
            assert forall|i: int| 0 <= i < b.len() implies !(#[trigger] b[i]).at(fx, fy) by {
                if i == 0 && v != Verdict::Lose {
                    assert(b[0] == h);
                } else {
                    let j = if v == Verdict::Lose { i } else { i - 1 };
                    assert(b[i] == old_snake.body@[j]);
                }
            }
        }
        if self.over {
            Signal::Ended
        } else {
            Signal::Continue
        }
    }

    /// A tick as the loop runs it: a hard quit changes nothing; any other
    /// key may turn the snake; then the rules run, and eaten food moves to a
    /// free cell drawn at random.
    pub fn step(&mut self, key: Option<Key>) -> (r: Signal)
        requires
            old(self).wf(),
            !old(self).over,
        ensures
            key == Some(Key::HardQuit) ==> r == Signal::Abort && *final(self) == *old(self),
            key != Some(Key::HardQuit) ==> ({
                let turned = Game {
                    snake: Snake {
                        direction: match key {
                            Some(k) => steer(old(self).snake.direction, k),
                            None => old(self).snake.direction,
                        },
                        ..old(self).snake
                    },
                    ..*old(self)
                };
                let c = turned.collisions_spec();
                let v = turned.verdict_spec();
                let h = turned.snake.next_head_spec();
                &&& final(self).wf()
                &&& final(self).over == (v == Verdict::Win || v == Verdict::Lose)
                &&& r == if final(self).over { Signal::Ended } else { Signal::Continue }
                &&& final(self).snake.direction == turned.snake.direction
                &&& final(self).snake.body@ == tick_body(old(self).snake.body@, h, c.will_grow, v)
                &&& c.will_grow ==> cell_free(turned.snake, h, final(self).food.x, final(self).food.y)
                &&& c.will_grow ==> final(self).food == Item {
                    x: final(self).food.x,
                    y: final(self).food.y,
                    ..old(self).food
                }
                &&& !c.will_grow ==> final(self).food == old(self).food
                &&& final(self).bomb == if v == Verdict::Shrink {
                    Bomb { visible: false, ..old(self).bomb }
                } else {
                    old(self).bomb
                }
            }),
    {
        match key {
            Some(Key::HardQuit) => {
                return Signal::Abort;
            },
            Some(k) => {
                self.snake.change_direction(k);
            },
            None => {},
        }
        let h = self.snake.next_head();
        let mut new_food: (u16, u16) = (self.food.x, self.food.y);
        if check_collision(&h, &self.food) {
            let cells = free_cells(&self.snake, &h);
            let pick = random_in(0, cells.len());
            new_food = cells[pick];
        }
        self.advance(new_food)
    }

    /// The hazard's part of a tick, given a roll in `0..RESPAWN_ODDS` and a
    /// cell: an armed hazard whose time has run out at `now` hides; then a
    /// hidden one respawns at `(x, y)`, armed at `now`, when the roll is zero.
    /// Returns whether it respawned. Nothing else changes.
    pub fn update_bomb_with(&mut self, now: u64, roll: u16, x: u16, y: u16) -> (r: bool)
        requires
            old(self).wf(),
            1 <= x < WIDTH,
            1 <= y < HEIGHT,
        ensures
            ({
                let hidden = !old(self).bomb.visible || old(self).bomb.expired_at(now);
                &&& final(self).wf()
                &&& final(self).snake == old(self).snake
                &&& final(self).food == old(self).food
                &&& final(self).over == old(self).over
                &&& r == (hidden && roll == 0)
                &&& r ==> final(self).bomb == Bomb {
                    item: Item { x, y, ..old(self).bomb.item },
                    visible: true,
                    armed_at: now,
                    ..old(self).bomb
                }
                &&& (!r && hidden) ==> final(self).bomb == Bomb { visible: false, ..old(self).bomb }
                &&& !hidden ==> final(self).bomb == old(self).bomb
            }),
    {
        self.bomb.expire(now);
        self.bomb.respawn_with(roll, x, y, now)
    }

    /// The hazard's part of a tick, with the roll and the cell drawn at
    /// random. Returns whether it respawned.
    pub fn update_bomb(&mut self, now: u64) -> (r: bool)
        requires
            old(self).wf(),
        ensures
            ({
                let hidden = !old(self).bomb.visible || old(self).bomb.expired_at(now);
                &&& final(self).wf()
                &&& final(self).snake == old(self).snake
                &&& final(self).food == old(self).food
                &&& final(self).over == old(self).over
                &&& r ==> hidden && final(self).bomb.visible && final(self).bomb.armed_at == now
                    && final(self).bomb.timeout == old(self).bomb.timeout
                &&& (!r && hidden) ==> final(self).bomb == Bomb { visible: false, ..old(self).bomb }
                &&& !hidden ==> final(self).bomb == old(self).bomb
            }),
    {
        let roll = random_in(0, RESPAWN_ODDS as usize) as u16;
        let x = random_in(1, WIDTH as usize) as u16;
        let y = random_in(1, HEIGHT as usize) as u16;
        self.update_bomb_with(now, roll, x, y)
    }

    /// What to draw, in order: the food, the snake head first, and the
    /// hazard while it is armed.
    pub fn scene(&self) -> (r: Vec<Item>)
        ensures
            r@ == seq![self.food] + self.snake.body@ + if self.bomb.visible {
                seq![self.bomb.item]
            } else {
                Seq::<Item>::empty()
            },
    {
        let mut r: Vec<Item> = Vec::new();
        r.push(self.food);
        let mut i: usize = 0;
        while i < self.snake.body.len()
            invariant
                0 <= i <= self.snake.body@.len(),
                r@ == seq![self.food] + self.snake.body@.take(i as int),
            decreases self.snake.body@.len() - i,
        {
            r.push(self.snake.body[i]);
            assert(self.snake.body@.take(i + 1) == self.snake.body@.take(i as int).push(self.snake.body@[i as int]));
            i += 1;
        }
        assert(self.snake.body@.take(i as int) == self.snake.body@);
        if self.bomb.visible {
            r.push(self.bomb.item);
        }
        assert(r@ =~= seq![self.food] + self.snake.body@ + if self.bomb.visible {
            seq![self.bomb.item]
        } else {
            Seq::<Item>::empty()
        });
        r
    }
}

/// A well-formed session, running or over, holds between one and
/// `WIN_LENGTH` segments; every method that changes it keeps it well formed.
pub proof fn lemma_length_in_bounds(g: Game)
    requires
        g.wf(),
    ensures
        1 <= g.snake.body@.len() <= WIN_LENGTH,
{
}

/// In a well-formed session no segment stands on the food.
pub proof fn lemma_food_clear_of_snake(g: Game)
    requires
        g.wf(),
    ensures
        forall|i: int| 0 <= i < g.snake.body@.len() ==> !same_cell(g.food, #[trigger] g.snake.body@[i]),
{
    assert forall|i: int| 0 <= i < g.snake.body@.len() implies !same_cell(g.food, #[trigger] g.snake.body@[i]) by {
        assert(!g.snake.body@[i].at(g.food.x, g.food.y));
    }
}

/// Eating on a tick that the snake survives adds exactly one segment, the
/// new head, in front of the whole old body.
pub proof fn lemma_growth_adds_one(body: Seq<Item>, head: Item, v: Verdict)
    requires
        body.len() >= 1,
        v == Verdict::Win || v == Verdict::Advance,
    ensures
        tick_body(body, head, true, v).len() == body.len() + 1,
        tick_body(body, head, true, v) == seq![head] + body,
{
}

/// On a tick of a running session the snake reaches the winning length
/// exactly when the verdict is a win, which takes eating at one below it.
pub proof fn lemma_win_iff_growth_to_length(g: Game)
    requires
        g.wf(),
        !g.over,
    ensures
        ({
            let c = g.collisions_spec();
            let v = g.verdict_spec();
            let len = g.snake.body@.len();
            &&& tick_body(g.snake.body@, g.snake.next_head_spec(), c.will_grow, v).len() >= WIN_LENGTH
                <==> v == Verdict::Win
            &&& v == Verdict::Win <==> (c.will_grow && len + 1 == WIN_LENGTH)
        }),
{
}

/// A hazard met by a longer snake that meets nothing else fatal costs
/// exactly one segment and hides the hazard; met by a snake of one segment
/// it loses the game.
pub proof fn lemma_hazard_costs_one_segment(g: Game)
    requires
        g.wf(),
        !g.over,
        g.collisions_spec().hit_hazard,
        !g.collisions_spec().will_grow,
        !g.collisions_spec().hit_wall,
        !g.collisions_spec().self_collision,
    ensures
        g.snake.body@.len() == 1 ==> g.verdict_spec() == Verdict::Lose,
        g.snake.body@.len() > 1 ==> g.verdict_spec() == Verdict::Shrink && tick_body(
            g.snake.body@,
            g.snake.next_head_spec(),
            false,
            Verdict::Shrink,
        ).len() == g.snake.body@.len() - 1,
{
}

} // verus!
