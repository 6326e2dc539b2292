use snake_core::game::{Coord, Dir, Game, Snake, World, START_LEN};

fn c(x: i32, y: i32) -> Coord {
    Coord { x, y }
}

fn cells(s: &Snake) -> Vec<Coord> {
    s.body.iter().copied().collect()
}

#[test]
fn contains_checks_both_axes() {
    let w = World { width: 5, height: 3 };
    assert!(w.contains(c(0, 0)));
    assert!(w.contains(c(4, 2)));
    assert!(!w.contains(c(5, 2)));
    assert!(!w.contains(c(4, 3)));
    assert!(!w.contains(c(-1, 0)));
    assert!(!w.contains(c(0, -1)));
}

#[test]
fn new_snake_extends_against_its_direction() {
    let r = Snake::new(c(5, 5), 3, Dir::Right);
    assert_eq!(cells(&r), vec![c(5, 5), c(4, 5), c(3, 5)]);
    let l = Snake::new(c(5, 5), 3, Dir::Left);
    assert_eq!(cells(&l), vec![c(5, 5), c(6, 5), c(7, 5)]);
    let u = Snake::new(c(5, 5), 3, Dir::Up);
    assert_eq!(cells(&u), vec![c(5, 5), c(5, 6), c(5, 7)]);
    let d = Snake::new(c(5, 5), 3, Dir::Down);
    assert_eq!(cells(&d), vec![c(5, 5), c(5, 4), c(5, 3)]);
    assert_eq!(r.head(), c(5, 5));
    assert_eq!(r.dir, Dir::Right);
}

#[test]
fn single_cell_snake() {
    let mut s = Snake::new(c(2, 2), 1, Dir::Down);
    s.step();
    assert_eq!(cells(&s), vec![c(2, 3)]);
    assert!(!s.hits_self());
}

#[test]
fn reversal_after_commit_is_rejected() {
    for d in [Dir::Up, Dir::Down, Dir::Left, Dir::Right] {
        let rev = match d {
            Dir::Up => Dir::Down,
            Dir::Down => Dir::Up,
            Dir::Left => Dir::Right,
            Dir::Right => Dir::Left,
        };
        let mut s = Snake::new(c(50, 50), 3, d);
        s.step();
        assert_eq!(s.dir, d);
        s.set_dir(rev);
        s.step();
        assert_eq!(s.dir, d);
    }
}

#[test]
fn step_keeps_length_without_growth() {
    let mut s = Snake::new(c(5, 5), 4, Dir::Right);
    s.step();
    assert_eq!(cells(&s), vec![c(6, 5), c(5, 5), c(4, 5), c(3, 5)]);
}

#[test]
fn step_grows_by_one_when_pending() {
    let mut s = Snake::new(c(5, 5), 4, Dir::Right);
    s.grow();
    s.grow();
    s.step();
    assert_eq!(s.body.len(), 5);
    assert_eq!(cells(&s), vec![c(6, 5), c(5, 5), c(4, 5), c(3, 5), c(2, 5)]);
    s.step();
    assert_eq!(s.body.len(), 5);
}

#[test]
fn step_moves_head_one_cell() {
    let mut s = Snake::new(c(5, 5), 2, Dir::Right);
    s.set_dir(Dir::Up);
    s.step();
    assert_eq!(s.head(), c(5, 4));
    s.set_dir(Dir::Left);
    s.step();
    assert_eq!(s.head(), c(4, 4));
    s.set_dir(Dir::Down);
    s.step();
    assert_eq!(s.head(), c(4, 5));
}

#[test]
fn last_request_between_ticks_wins() {
    let mut s = Snake::new(c(5, 5), 3, Dir::Up);
    s.set_dir(Dir::Up);
    s.set_dir(Dir::Left);
    s.step();
    assert_eq!(s.dir, Dir::Left);
    assert_eq!(s.head(), c(4, 5));

    let mut t = Snake::new(c(5, 5), 3, Dir::Right);
    t.set_dir(Dir::Up);
    t.set_dir(Dir::Down);
    t.step();
    assert_eq!(t.dir, Dir::Down);
    assert_eq!(t.head(), c(5, 6));
}

#[test]
fn buffered_turn_can_be_undone_before_the_tick() {
    let mut s = Snake::new(c(5, 5), 3, Dir::Right);
    s.set_dir(Dir::Up);
    s.set_dir(Dir::Right);
    s.step();
    assert_eq!(s.dir, Dir::Right);
    assert_eq!(s.head(), c(6, 5));
}

#[test]
fn hits_self_sees_only_non_head_cells() {
    let s = Snake::new(c(5, 5), 4, Dir::Right);
    assert!(!s.hits_self());
    let mut t = Snake::new(c(5, 5), 5, Dir::Right);
    t.set_dir(Dir::Up);
    t.step();
    t.set_dir(Dir::Left);
    t.step();
    t.set_dir(Dir::Down);
    t.step();
    assert!(t.hits_self());
}

#[test]
fn occupies_matches_body_cells() {
    let s = Snake::new(c(5, 5), 3, Dir::Right);
    assert!(s.occupies(c(3, 5)));
    assert!(!s.occupies(c(2, 5)));
}

#[test]
fn new_game_starts_centred() {
    let g = Game::new(20, 10, 42);
    assert_eq!(g.world.width, 20);
    assert_eq!(g.world.height, 10);
    assert_eq!(cells(&g.snake), vec![c(10, 5), c(9, 5), c(8, 5), c(7, 5)]);
    assert_eq!(g.snake.body.len(), START_LEN);
    assert_eq!(g.snake.dir, Dir::Right);
    assert_eq!(g.score, 0);
    assert!(!g.game_over);
}

#[test]
fn new_game_food_is_free_and_in_world() {
    for seed in 0..200u64 {
        let g = Game::new(12, 7, seed);
        assert!(g.world.contains(g.food));
        assert!(!g.snake.occupies(g.food));
    }
}

#[test]
fn food_found_when_one_cell_is_free() {
    for seed in 0..20u64 {
        let g = Game::new(3, 1, seed);
        assert_eq!(g.food, c(2, 0));
    }
}

#[test]
fn food_stays_put_when_no_cell_is_free() {
    let g = Game::new(1, 1, 9);
    assert_eq!(g.food, c(0, 0));
}

#[test]
fn same_seed_same_food() {
    let a = Game::new(30, 20, 0xDEADBEEF);
    let b = Game::new(30, 20, 0xDEADBEEF);
    assert_eq!(a.food, b.food);
}

#[test]
fn boundary_exit_ends_game() {
    let mut g = Game::new(5, 5, 1);
    g.snake = Snake::new(c(4, 2), 3, Dir::Right);
    g.food = c(0, 0);
    g.update();
    assert_eq!(g.snake.head(), c(5, 2));
    assert!(!g.world.contains(g.snake.head()));
    assert!(g.game_over);
    assert_eq!(g.score, 0);
}

#[test]
fn self_collision_ends_game() {
    let mut g = Game::new(10, 10, 3);
    g.snake = Snake::new(c(5, 5), 5, Dir::Right);
    g.food = c(0, 0);
    g.change_dir(Dir::Up);
    g.update();
    g.change_dir(Dir::Left);
    g.update();
    assert!(!g.game_over);
    g.change_dir(Dir::Down);
    g.update();
    assert!(g.snake.hits_self());
    assert!(g.game_over);
}

#[test]
fn eating_scores_and_grows_on_next_tick() {
    let mut g = Game::new(20, 10, 5);
    let head = g.snake.head();
    g.food = c(head.x + 1, head.y);
    let len = g.snake.body.len();
    g.update();
    assert_eq!(g.score, 1);
    assert!(g.snake.grow);
    assert_eq!(g.snake.body.len(), len);
    assert!(g.world.contains(g.food));
    assert!(!g.snake.occupies(g.food));
    g.food = c(0, 0);
    g.update();
    assert_eq!(g.snake.body.len(), len + 1);
    assert_eq!(g.score, 1);
}

#[test]
fn finished_game_ignores_ticks_and_turns() {
    let mut g = Game::new(5, 5, 1);
    g.snake = Snake::new(c(4, 2), 3, Dir::Right);
    g.food = c(0, 0);
    g.update();
    assert!(g.game_over);
    let body = cells(&g.snake);
    let food = g.food;
    for _ in 0..3 {
        g.update();
        g.change_dir(Dir::Up);
    }
    assert!(g.game_over);
    assert_eq!(cells(&g.snake), body);
    assert_eq!(g.food, food);
    assert_eq!(g.score, 0);
    assert_eq!(g.snake.pending_dir, Dir::Right);
}

#[test]
fn resize_clamps_cells_per_axis() {
    let mut g = Game::new(20, 10, 2);
    g.snake = Snake::new(c(9, 6), 4, Dir::Right);
    g.food = c(15, 8);
    g.resize(5, 4);
    assert_eq!(g.world.width, 5);
    assert_eq!(g.world.height, 4);
    assert_eq!(cells(&g.snake), vec![c(4, 3), c(4, 3), c(4, 3), c(4, 3)]);
    assert_eq!(g.food, c(4, 3));
}

#[test]
fn resize_keeps_cells_in_bounds() {
    let mut g = Game::new(20, 10, 2);
    g.snake = Snake::new(c(3, 2), 3, Dir::Right);
    g.food = c(0, 0);
    g.resize(5, 4);
    assert_eq!(cells(&g.snake), vec![c(3, 2), c(2, 2), c(1, 2)]);
    assert_eq!(g.food, c(0, 0));
}
