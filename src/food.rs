//! Where food may go: the interior cells that no segment holds.
use vstd::prelude::*;
use vstd::set_lib::{set_int_range, lemma_int_range, lemma_len_subset};
use crate::geometry::{Item, WIDTH, HEIGHT, WIN_LENGTH};
use crate::snake::Snake;

verus! {

/// `(x, y)` is an interior cell that neither the snake nor `head`, the
/// segment it is about to gain, stands on.
pub open spec fn cell_free(snake: Snake, head: Item, x: u16, y: u16) -> bool {
    &&& 1 <= x < WIDTH
    &&& 1 <= y < HEIGHT
    &&& !snake.occupies_spec(x, y)
    &&& !head.at(x, y)
}

/// Some cell of the top interior row is free: the snake is too short to
/// cover the row.
pub proof fn lemma_free_cell_exists(snake: Snake, head: Item)
    requires
        snake.wf(),
    ensures
        exists|x: u16| 1 <= x < WIDTH && #[trigger] cell_free(snake, head, x, 1),
{
    let segs = seq![head] + snake.body@;
    let xs = segs.map_values(|it: Item| it.x as int);
    let row = set_int_range(1, WIDTH as int);
    if forall|x: u16| 1 <= x < WIDTH ==> !#[trigger] cell_free(snake, head, x, 1) {
        assert forall|v: int| row.contains(v) implies xs.to_set().contains(v) by {
            let x = v as u16;
            assert(!cell_free(snake, head, x, 1));
            if head.at(x, 1) {
                assert(xs[0] == v);
            } else {
                let i = choose|i: int| 0 <= i < snake.body@.len() && (#[trigger] snake.body@[i]).at(x, 1);
                assert(segs[i + 1] == snake.body@[i]);
                assert(xs[i + 1] == v);
            }
        }
        lemma_int_range(1, WIDTH as int);
        xs.lemma_cardinality_of_set();
        lemma_len_subset(row, xs.to_set());
        assert(xs.len() <= WIN_LENGTH + 1);
        assert(false);
    }
}

/// Every free cell, row by row.
pub fn free_cells(snake: &Snake, head: &Item) -> (r: Vec<(u16, u16)>)
    requires
        snake.wf(),
    ensures
        r@.len() > 0,
        forall|k: int| 0 <= k < r@.len() ==> cell_free(*snake, *head, (#[trigger] r@[k]).0, r@[k].1),
        forall|x: u16, y: u16| #[trigger] cell_free(*snake, *head, x, y) ==> r@.contains((x, y)),
{
    let mut r: Vec<(u16, u16)> = Vec::new();
    let mut y: u16 = 1;
    while y < HEIGHT
        invariant
            1 <= y <= HEIGHT,
            forall|k: int| 0 <= k < r@.len() ==> cell_free(*snake, *head, (#[trigger] r@[k]).0, r@[k].1),
            forall|cx: u16, cy: u16| cy < y && #[trigger] cell_free(*snake, *head, cx, cy) ==> r@.contains((cx, cy)),
        decreases HEIGHT - y,
    {
        let mut x: u16 = 1;
        while x < WIDTH
            invariant
                1 <= y < HEIGHT,
                1 <= x <= WIDTH,
                forall|k: int| 0 <= k < r@.len() ==> cell_free(*snake, *head, (#[trigger] r@[k]).0, r@[k].1),
                forall|cx: u16, cy: u16|
                    (cy < y || (cy == y && cx < x)) && #[trigger] cell_free(*snake, *head, cx, cy)
                        ==> r@.contains((cx, cy)),
            decreases WIDTH - x,
        {
            if !snake.occupies(x, y) && !(head.x == x && head.y == y) {
                let ghost before = r@;
                r.push((x, y));
                proof {
                    assert forall|cx: u16, cy: u16|
                        (cy < y || (cy == y && cx < x + 1)) && #[trigger] cell_free(*snake, *head, cx, cy)
                            implies r@.contains((cx, cy)) by {
                        if cx == x && cy == y {
                            assert(r@[r@.len() - 1] == (x, y));
                        } else {
                            assert(before.contains((cx, cy)));
                            let k = choose|k: int| 0 <= k < before.len() && before[k] == (cx, cy);
                            assert(r@[k] == (cx, cy));
                        }
                    }
                }
            }
            x += 1;
        }
        y += 1;
    }
    proof {
        lemma_free_cell_exists(*snake, *head);
        let x = choose|x: u16| 1 <= x < WIDTH && #[trigger] cell_free(*snake, *head, x, 1);
        assert(r@.contains((x, 1u16)));
    }
    r
}

} // verus!
