use snake_game::bomb::{Bomb, BOMB_TIMEOUT_MS};
use snake_game::game::{end_choice, EndChoice, Game, Signal};
use snake_game::geometry::{check_collision, check_hit_wall, Color, Item, HEIGHT, WIDTH, WIN_LENGTH};
use snake_game::rules::{resolve, Collisions, Verdict};
use snake_game::snake::{Direction, Key, Snake};

fn cell(x: u16, y: u16) -> Item {
    Item::new('X', Color::Blue, x, y)
}

fn cells(s: &Snake) -> Vec<(u16, u16)> {
    s.body.iter().map(|i| (i.x, i.y)).collect()
}

fn game_with(snake: Snake, food: (u16, u16)) -> Game {
    let mut g = Game::with_bomb_at(1, 1, 0);
    g.bomb.visible = false;
    g.snake = snake;
    g.food = Item::new('$', Color::Blue, food.0, food.1);
    g
}

/// A snake heading up whose head is at `(x, y)` and whose body trails below it.
fn grown_snake(x: u16, y: u16, len: u16) -> Snake {
    let mut s = Snake::new(cell(x, y + len - 1));
    for _ in 1..len {
        s.move_snake(true);
    }
    s
}

#[test]
fn eating_from_length_one_grows_and_moves_food() {
    let g0 = game_with(Snake::new(cell(25, 15)), (25, 14));
    let mut g = g0;
    assert_eq!(g.step(None), Signal::Continue);
    assert_eq!(g.snake.length(), 2);
    assert_eq!(cells(&g.snake), vec![(25, 14), (25, 15)]);
    assert_ne!((g.food.x, g.food.y), (25, 14));
    assert_ne!((g.food.x, g.food.y), (25, 15));
    assert!(g.food.x >= 1 && g.food.x < WIDTH && g.food.y >= 1 && g.food.y < HEIGHT);
    assert_eq!(g.food.figure, '$');
}

#[test]
fn moving_left_from_column_zero_wraps() {
    let mut s = Snake::new(cell(0, 12));
    s.change_direction(Key::Left);
    s.move_snake(false);
    assert_eq!(cells(&s), vec![(WIDTH - 1, 12)]);
}

#[test]
fn other_edges_wrap() {
    let mut s = Snake::new(cell(7, 0));
    s.move_snake(false);
    assert_eq!(cells(&s), vec![(7, HEIGHT - 1)]);
    let mut s = Snake::new(cell(7, HEIGHT));
    s.change_direction(Key::Left);
    s.change_direction(Key::Down);
    s.move_snake(false);
    assert_eq!(cells(&s), vec![(7, 1)]);
    let mut s = Snake::new(cell(WIDTH, 4));
    s.change_direction(Key::Right);
    s.move_snake(false);
    assert_eq!(cells(&s), vec![(1, 4)]);
}

#[test]
fn untouched_hazard_hides_after_timeout() {
    let mut g = Game::with_bomb_at(10, 10, 1000);
    let before = cells(&g.snake);
    assert!(!g.update_bomb_with(1000 + BOMB_TIMEOUT_MS - 1, 1, 5, 5));
    assert!(g.bomb.visible);
    assert!(!g.update_bomb_with(1000 + BOMB_TIMEOUT_MS, 1, 5, 5));
    assert!(!g.bomb.visible);
    assert_eq!((g.bomb.item.x, g.bomb.item.y), (10, 10));
    assert_eq!(cells(&g.snake), before);
    assert_eq!(g.snake.direction, Direction::Up);
    assert!(!g.over);
}

#[test]
fn hidden_hazard_respawns_on_zero_roll() {
    let mut g = Game::with_bomb_at(10, 10, 0);
    g.bomb.hide_bomb();
    assert!(!g.update_bomb_with(500, 3, 5, 6));
    assert!(!g.bomb.visible);
    assert!(g.update_bomb_with(600, 0, 5, 6));
    assert!(g.bomb.visible);
    assert_eq!((g.bomb.item.x, g.bomb.item.y, g.bomb.armed_at), (5, 6, 600));
    assert_eq!(g.bomb.item.figure, 'O');
}

#[test]
fn random_hazard_update_keeps_it_inside() {
    let mut g = Game::with_bomb_at(10, 10, 0);
    g.bomb.hide_bomb();
    let mut respawned = false;
    for t in 0..5000u64 {
        if g.update_bomb(t) {
            respawned = true;
            assert_eq!(g.bomb.armed_at, t);
            break;
        }
    }
    assert!(respawned);
    assert!(g.bomb.item.x >= 1 && g.bomb.item.x < WIDTH);
    assert!(g.bomb.item.y >= 1 && g.bomb.item.y < HEIGHT);
}

#[test]
fn growing_to_ten_wins_and_ends() {
    let s = grown_snake(25, 17, 9);
    assert_eq!(s.length(), 9);
    let mut g = game_with(s, (25, 16));
    assert!(!g.is_won());
    assert_eq!(g.step(None), Signal::Ended);
    assert!(g.over);
    assert!(g.is_won());
    assert_eq!(g.snake.length(), WIN_LENGTH);
    assert_eq!(g.snake.get_head().y, 16);
    assert_eq!(end_choice(Key::Up), EndChoice::Wait);
}

#[test]
fn reversal_is_rejected() {
    let mut s = Snake::new(cell(5, 5));
    s.change_direction(Key::Down);
    assert_eq!(s.direction, Direction::Up);
    s.change_direction(Key::Right);
    assert_eq!(s.direction, Direction::Right);
    s.change_direction(Key::Left);
    assert_eq!(s.direction, Direction::Right);
    s.change_direction(Key::Other);
    assert_eq!(s.direction, Direction::Right);
    s.change_direction(Key::Up);
    assert_eq!(s.direction, Direction::Up);
}

#[test]
fn opposites() {
    assert_eq!(Direction::Up.opposite(), Direction::Down);
    assert_eq!(Direction::Down.opposite(), Direction::Up);
    assert_eq!(Direction::Left.opposite(), Direction::Right);
    assert_eq!(Direction::Right.opposite(), Direction::Left);
}

#[test]
fn length_stays_in_bounds_over_a_run() {
    let mut g = Game::new(0);
    let keys = [None, Some(Key::Left), None, Some(Key::Up), Some(Key::Right), None];
    let mut ticks = 0;
    loop {
        let len = g.snake.length();
        assert!((1..=WIN_LENGTH).contains(&len));
        let k = keys[ticks % keys.len()];
        ticks += 1;
        if g.step(k) == Signal::Ended {
            break;
        }
    }
    assert!((1..=WIN_LENGTH).contains(&g.snake.length()));
    assert!(!g.is_won());
}

#[test]
fn food_never_lands_on_the_snake() {
    for _ in 0..200 {
        let mut g = game_with(grown_snake(25, 10, 8), (25, 9));
        g.step(None);
        let f = g.food;
        assert!(g.snake.body.iter().all(|seg| !check_collision(seg, &f)));
        assert!(!check_hit_wall(&f));
    }
}

#[test]
fn eating_adds_exactly_one_segment() {
    let mut g = game_with(grown_snake(20, 10, 3), (20, 9));
    let before = cells(&g.snake);
    let old_food = g.food;
    assert_eq!(g.advance((3, 3)), Signal::Continue);
    assert_eq!(g.snake.length(), 4);
    let mut expected = vec![(20, 9)];
    expected.extend(before);
    assert_eq!(cells(&g.snake), expected);
    assert_eq!((g.food.x, g.food.y), (3, 3));
    assert_eq!(g.food.color, old_food.color);
}

#[test]
fn plain_move_keeps_length() {
    let mut g = game_with(grown_snake(20, 10, 3), (3, 3));
    assert_eq!(g.step(None), Signal::Continue);
    assert_eq!(cells(&g.snake), vec![(20, 9), (20, 10), (20, 11)]);
    assert_eq!((g.food.x, g.food.y), (3, 3));
}

#[test]
fn wall_is_fatal_below_win_length() {
    let mut g = game_with(Snake::new(cell(25, 1)), (3, 3));
    assert_eq!(g.step(None), Signal::Ended);
    assert!(!g.is_won());
    assert_eq!(cells(&g.snake), vec![(25, 1)]);
}

#[test]
fn wall_is_not_fatal_at_win_length() {
    let c = Collisions { will_grow: false, hit_wall: true, hit_hazard: false, self_collision: false };
    assert_eq!(resolve(10, &c), Verdict::Advance);
    assert_eq!(resolve(11, &c), Verdict::Advance);
    assert_eq!(resolve(9, &c), Verdict::Lose);
}

#[test]
fn win_only_by_growth() {
    let grow = Collisions { will_grow: true, hit_wall: false, hit_hazard: false, self_collision: false };
    assert_eq!(resolve(9, &grow), Verdict::Win);
    assert_eq!(resolve(8, &grow), Verdict::Advance);
    let none = Collisions { will_grow: false, hit_wall: false, hit_hazard: false, self_collision: false };
    assert_eq!(resolve(9, &none), Verdict::Advance);
}

#[test]
fn hazard_at_length_one_loses() {
    let mut g = game_with(Snake::new(cell(10, 11)), (3, 3));
    g.bomb = Bomb::new_bomb('O', Color::Red, 10, 10, BOMB_TIMEOUT_MS, 0);
    assert_eq!(g.step(None), Signal::Ended);
    assert!(!g.is_won());
    assert_eq!(g.snake.length(), 1);
}

#[test]
fn hazard_at_longer_length_costs_one_segment() {
    let mut g = game_with(grown_snake(10, 11, 4), (3, 3));
    g.bomb = Bomb::new_bomb('O', Color::Red, 10, 10, BOMB_TIMEOUT_MS, 0);
    assert_eq!(g.step(None), Signal::Continue);
    assert_eq!(cells(&g.snake), vec![(10, 10), (10, 11), (10, 12)]);
    assert!(!g.bomb.visible);
}

#[test]
fn hidden_hazard_is_harmless() {
    let mut g = game_with(Snake::new(cell(10, 11)), (3, 3));
    g.bomb = Bomb::new_bomb('O', Color::Red, 10, 10, BOMB_TIMEOUT_MS, 0);
    g.bomb.hide_bomb();
    assert_eq!(g.step(None), Signal::Continue);
    assert_eq!(cells(&g.snake), vec![(10, 10)]);
}

#[test]
fn running_into_own_body_loses() {
    let mut s = grown_snake(10, 6, 5);
    s.change_direction(Key::Right);
    s.move_snake(false);
    s.change_direction(Key::Down);
    s.move_snake(false);
    assert_eq!(cells(&s), vec![(11, 7), (11, 6), (10, 6), (10, 7), (10, 8)]);
    let mut g = game_with(s, (3, 3));
    assert_eq!(g.step(Some(Key::Left)), Signal::Ended);
    assert_eq!(g.snake.length(), 5);
    assert_eq!(g.snake.direction, Direction::Left);
}

#[test]
fn hard_quit_changes_nothing() {
    let mut g = game_with(Snake::new(cell(25, 15)), (25, 14));
    assert_eq!(g.step(Some(Key::HardQuit)), Signal::Abort);
    assert_eq!(cells(&g.snake), vec![(25, 15)]);
    assert_eq!((g.food.x, g.food.y), (25, 14));
    assert!(!g.over);
}

#[test]
fn tick_timeout_depends_on_direction_and_length() {
    let mut g = game_with(grown_snake(20, 10, 3), (3, 3));
    assert_eq!(g.poll_timeout(), 147);
    g.snake.change_direction(Key::Left);
    assert_eq!(g.poll_timeout(), 97);
}

#[test]
fn new_session_layout() {
    let g = Game::with_bomb_at(4, 5, 77);
    assert_eq!((g.food.x, g.food.y, g.food.figure), (25, 15, '$'));
    assert_eq!(cells(&g.snake), vec![(25, 21)]);
    assert_eq!(g.snake.get_head().color, Color::Red);
    assert_eq!((g.bomb.item.x, g.bomb.item.y, g.bomb.timeout, g.bomb.armed_at), (4, 5, 7000, 77));
    assert!(g.bomb.visible && !g.over);
    let r = Game::new(3);
    assert!(r.bomb.item.x >= 1 && r.bomb.item.x < WIDTH && r.bomb.item.y >= 1 && r.bomb.item.y < HEIGHT);
}

#[test]
fn scene_lists_food_snake_and_armed_hazard() {
    let mut g = Game::with_bomb_at(4, 5, 0);
    let scene = g.scene();
    assert_eq!(scene.len(), 3);
    assert_eq!((scene[0].x, scene[0].y), (25, 15));
    assert_eq!((scene[1].x, scene[1].y), (25, 21));
    assert_eq!((scene[2].x, scene[2].y, scene[2].figure), (4, 5, 'O'));
    g.bomb.hide_bomb();
    assert_eq!(g.scene().len(), 2);
}

#[test]
fn end_screen_keys() {
    assert_eq!(end_choice(Key::Esc), EndChoice::Exit);
    assert_eq!(end_choice(Key::Restart), EndChoice::Restart);
    assert_eq!(end_choice(Key::HardQuit), EndChoice::Wait);
    assert_eq!(end_choice(Key::Other), EndChoice::Wait);
}

#[test]
fn wall_and_collision_predicates() {
    assert!(check_hit_wall(&cell(0, 5)));
    assert!(check_hit_wall(&cell(WIDTH, 5)));
    assert!(check_hit_wall(&cell(5, 0)));
    assert!(check_hit_wall(&cell(5, HEIGHT)));
    assert!(!check_hit_wall(&cell(1, 1)));
    assert!(!check_hit_wall(&cell(WIDTH - 1, HEIGHT - 1)));
    assert!(check_collision(&cell(3, 4), &Item::new('$', Color::Green, 3, 4)));
    assert!(!check_collision(&cell(3, 4), &cell(4, 3)));
}
