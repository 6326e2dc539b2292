use vstd::prelude::*;

use crate::random::{draw_below, seeded};
use rand::rngs::StdRng;
use std::collections::VecDeque;

verus! {

/// One of the four directions of travel on the grid; `Up` decreases `y`.
#[derive(Debug, Clone, Copy, PartialEq, Eq, Structural)]
pub enum Dir {
    Up,
    Down,
    Left,
    Right,
}

/// A cell of the grid.
#[derive(Debug, Clone, Copy, PartialEq, Eq, Structural)]
pub struct Coord {
    pub x: i32,
    pub y: i32,
}

/// The bounded grid: cells `0 <= x < width`, `0 <= y < height`.
#[derive(Debug)]
pub struct World {
    pub width: i32,
    pub height: i32,
}

/// The exact reverse of `d`.
pub open spec fn opposite(d: Dir) -> Dir {
    match d {
        Dir::Up => Dir::Down,
        Dir::Down => Dir::Up,
        Dir::Left => Dir::Right,
        Dir::Right => Dir::Left,
    }
}

/// Horizontal displacement of one move in direction `d`.
pub open spec fn dx(d: Dir) -> int {
    match d {
        Dir::Left => -1,
        Dir::Right => 1,
        _ => 0,
    }
}

/// Vertical displacement of one move in direction `d`.
pub open spec fn dy(d: Dir) -> int {
    match d {
        Dir::Up => -1,
        Dir::Down => 1,
        _ => 0,
    }
}

/// Whether the integer pair `(x, y)` is representable as a `Coord`.
pub open spec fn fits(x: int, y: int) -> bool {
    i32::MIN <= x <= i32::MAX && i32::MIN <= y <= i32::MAX
}

/// Whether one move from `c` in direction `d` stays representable.
pub open spec fn can_move(c: Coord, d: Dir) -> bool {
    fits(c.x + dx(d), c.y + dy(d))
}

/// The neighbour of `c` one cell away in direction `d`.
pub open spec fn moved(c: Coord, d: Dir) -> Coord {
    Coord { x: (c.x + dx(d)) as i32, y: (c.y + dy(d)) as i32 }
}

/// The `k`-th cell behind `start` for a body facing `d` (the head is `k == 0`).
pub open spec fn behind(start: Coord, d: Dir, k: int) -> Coord {
    Coord { x: (start.x - k * dx(d)) as i32, y: (start.y - k * dy(d)) as i32 }
}

/// Whether the first cell of `b` reappears later in `b`.
pub open spec fn head_on_rest(b: Seq<Coord>) -> bool {
    exists|i: int| 1 <= i < b.len() && #[trigger] b[i] == b[0]
}

proof fn lemma_behind_fits(start: Coord, d: Dir, k: int, n: int)
    requires
        0 <= k <= n,
        fits(start.x - n * dx(d), start.y - n * dy(d)),
    ensures
        fits(start.x - k * dx(d), start.y - k * dy(d)),
{
    assert(k * 0 == 0 && n * 0 == 0 && k * 1 == k && n * 1 == n) by (nonlinear_arith);
    assert(k * -1 == -k && n * -1 == -n) by (nonlinear_arith);
}

impl World {
    /// A world has at least one cell in each direction.
    pub open spec fn wf(&self) -> bool {
        self.width >= 1 && self.height >= 1
    }

    pub open spec fn spec_contains(&self, c: Coord) -> bool {
        0 <= c.x < self.width && 0 <= c.y < self.height
    }

    pub fn contains(&self, c: Coord) -> (r: bool)
        ensures
            r == self.spec_contains(c),
    {
        c.x >= 0 && c.x < self.width && c.y >= 0 && c.y < self.height
    }
}

fn turn_is_reversal(from: Dir, to: Dir) -> (r: bool)
    ensures
        r == (to == opposite(from)),
{
    match (from, to) {
        (Dir::Up, Dir::Down) | (Dir::Down, Dir::Up) | (Dir::Left, Dir::Right) | (
            Dir::Right,
            Dir::Left,
        ) => true,
        _ => false,
    }
}

/// The moving body: cells head-first, the direction committed by the last
/// step, the direction buffered for the next step, and whether growth is pending.
#[derive(Debug)]
pub struct Snake {
    pub body: VecDeque<Coord>,
    pub dir: Dir,
    pub pending_dir: Dir,
    pub grow: bool,
}

impl Snake {
    /// A body always has a head.
    pub open spec fn wf(&self) -> bool {
        self.body@.len() >= 1
    }

    pub open spec fn spec_head(&self) -> Coord {
        self.body@[0]
    }

    /// The buffered direction after a request for `d`: a request for the exact
    /// reverse of the committed direction is dropped, any other replaces the buffer.
    pub open spec fn requested(&self, d: Dir) -> Dir {
        if d == opposite(self.dir) {
            self.pending_dir
        } else {
            d
        }
    }

    /// The body after one step: a new head one cell along the buffered direction,
    /// and the old cells, less the tail unless growth was pending.
    pub open spec fn stepped_body(&self) -> Seq<Coord> {
        let rest = if self.grow {
            self.body@
        } else {
            self.body@.drop_last()
        };
        seq![moved(self.spec_head(), self.pending_dir)] + rest
    }

    /// `post` is `pre` after one `step`.
    pub open spec fn step_post(pre: Snake, post: Snake) -> bool {
        &&& post.body@ == pre.stepped_body()
        &&& post.dir == pre.pending_dir
        &&& post.pending_dir == pre.pending_dir
        &&& !post.grow
    }

    /// `post` is `pre` after a request for direction `d`.
    pub open spec fn request_post(pre: Snake, d: Dir, post: Snake) -> bool {
        &&& post.body@ == pre.body@
        &&& post.dir == pre.dir
        &&& post.pending_dir == pre.requested(d)
        &&& post.grow == pre.grow
    }

    /// Whether the head lies on another cell of the body.
    pub open spec fn spec_hits_self(&self) -> bool {
        head_on_rest(self.body@)
    }

    /// Lays out `len` cells from `start` backwards, against `dir`, with the head at `start`.
    pub fn new(start: Coord, len: usize, dir: Dir) -> (r: Self)
        requires
            len >= 1,
            fits(start.x - (len - 1) * dx(dir), start.y - (len - 1) * dy(dir)),
        ensures
            r.wf(),
            r.body@.len() == len,
            forall|k: int| 0 <= k < len ==> #[trigger] r.body@[k] == behind(start, dir, k),
            r.dir == dir,
            r.pending_dir == dir,
            !r.grow,
    {
        let mut body: VecDeque<Coord> = VecDeque::new();
        let ddx: i32 = match dir {
            Dir::Left => -1,
            Dir::Right => 1,
            _ => 0,
        };
        let ddy: i32 = match dir {
            Dir::Up => -1,
            Dir::Down => 1,
            _ => 0,
        };
        let mut cur = start;
        let mut i: usize = 0;
        while i < len
            invariant
                i <= len,
                i < len ==> cur == behind(start, dir, i as int),
                ddx == dx(dir),
                ddy == dy(dir),
                fits(start.x - (len - 1) * dx(dir), start.y - (len - 1) * dy(dir)),
                body@.len() == i,
                forall|k: int| 0 <= k < i ==> #[trigger] body@[k] == behind(start, dir, k),
            decreases len - i,
        {
            body.push_back(cur);
            if i + 1 < len {
                proof {
                    lemma_behind_fits(start, dir, i + 1, len - 1);
                }
                cur = Coord { x: cur.x - ddx, y: cur.y - ddy };
            }
            i = i + 1;
        }
        Snake { body, dir, pending_dir: dir, grow: false }
    }

    /// The first cell of the body.
    pub fn head(&self) -> (r: Coord)
        requires
            self.wf(),
        ensures
            r == self.spec_head(),
    {
        self.body[0]
    }

    /// Buffers `dir` for the next step unless it reverses the committed direction.
    pub fn set_dir(&mut self, dir: Dir)
        ensures
            Snake::request_post(*old(self), dir, *final(self)),
    {
        let illegal = turn_is_reversal(self.dir, dir);
        if !illegal {
            self.pending_dir = dir;
        }
    }

    /// Commits the buffered direction and moves the body one cell along it.
    pub fn step(&mut self)
        requires
            old(self).wf(),
            can_move(old(self).spec_head(), old(self).pending_dir),
        ensures
            final(self).wf(),
            Snake::step_post(*old(self), *final(self)),
            final(self).body@.len() == old(self).body@.len() + if old(self).grow {
                1int
            } else {
                0int
            },
            final(self).spec_head().x == old(self).spec_head().x + dx(final(self).dir),
            final(self).spec_head().y == old(self).spec_head().y + dy(final(self).dir),
    {
        self.dir = self.pending_dir;
        let mut next = self.head();
        match self.dir {
            Dir::Up => next.y = next.y - 1,
            Dir::Down => next.y = next.y + 1,
            Dir::Left => next.x = next.x - 1,
            Dir::Right => next.x = next.x + 1,
        }
        self.body.push_front(next);
        if !self.grow {
            self.body.pop_back();
        } else {
            self.grow = false;
        }
        assert(self.body@ =~= old(self).stepped_body());
    }

    /// Marks growth as pending for the next step.
    pub fn grow(&mut self)
        ensures
            final(self).body@ == old(self).body@,
            final(self).dir == old(self).dir,
            final(self).pending_dir == old(self).pending_dir,
            final(self).grow,
    {
        self.grow = true;
    }

    /// Whether the head lies on another cell of the body.
    pub fn hits_self(&self) -> (r: bool)
        requires
            self.wf(),
        ensures
            r == self.spec_hits_self(),
    {
        let h = self.head();
        let n = self.body.len();
        let mut i: usize = 1;
        while i < n
            invariant
                1 <= i <= n,
                n == self.body@.len(),
                h == self.body@[0],
                forall|j: int| 1 <= j < i ==> #[trigger] self.body@[j] != h,
            decreases n - i,
        {
            if self.body[i] == h {
                return true;
            }
            i = i + 1;
        }
        false
    }

    /// Whether `c` is one of the body's cells.
    pub fn occupies(&self, c: Coord) -> (r: bool)
        ensures
            r == self.body@.contains(c),
    {
        let n = self.body.len();
        let mut i: usize = 0;
        while i < n
            invariant
                i <= n,
                n == self.body@.len(),
                forall|j: int| 0 <= j < i ==> #[trigger] self.body@[j] != c,
            decreases n - i,
        {
            if self.body[i] == c {
                return true;
            }
            i = i + 1;
        }
        false
    }
}

/// `c` lies in `w` and is not a cell of `body`.
pub open spec fn free_in(w: World, body: Seq<Coord>, c: Coord) -> bool {
    w.spec_contains(c) && !body.contains(c)
}

/// Some cell of `w` is not a cell of `body`.
pub open spec fn has_free(w: World, body: Seq<Coord>) -> bool {
    exists|c: Coord| #[trigger] free_in(w, body, c)
}

/// `v` brought into `0..=hi - 1`.
pub open spec fn clamp_below(v: i32, hi: i32) -> i32 {
    if v < 0 {
        0
    } else if v > hi - 1 {
        (hi - 1) as i32
    } else {
        v
    }
}

/// `c` brought into `w`, each axis on its own.
pub open spec fn clamp_into(c: Coord, w: World) -> Coord {
    Coord { x: clamp_below(c.x, w.width), y: clamp_below(c.y, w.height) }
}

fn clamp_axis(v: i32, hi: i32) -> (r: i32)
    requires
        hi >= 1,
    ensures
        r == clamp_below(v, hi),
{
    if v < 0 {
        0
    } else if v > hi - 1 {
        hi - 1
    } else {
        v
    }
}

/// Number of cells of the body at the start of a game.
pub const START_LEN: usize = 4;

/// Number of random draws tried before free cells are searched for in order.
pub const MAX_DRAWS: u32 = 64;

/// The whole simulation: grid, body, food, score, terminal flag and random source.
pub struct Game {
    pub world: World,
    pub snake: Snake,
    pub food: Coord,
    /// Seeded once at the start; every food placement draws from it.
    pub rng: StdRng,
    pub score: u64,
    pub game_over: bool,
}

impl Game {
    /// A cell of the world that the body does not cover.
    pub open spec fn is_free(&self, c: Coord) -> bool {
        free_in(self.world, self.snake.body@, c)
    }

    pub open spec fn has_free_cell(&self) -> bool {
        has_free(self.world, self.snake.body@)
    }

    /// The world is non-empty, the body has a head, which lies in the world
    /// while the game runs, and each point of score is one cell grown or about to be.
    pub open spec fn wf(&self) -> bool {
        &&& self.world.wf()
        &&& self.snake.wf()
        &&& !self.game_over ==> self.world.spec_contains(self.snake.spec_head())
        &&& self.snake.body@.len() + (if self.snake.grow {
            1int
        } else {
            0int
        }) == START_LEN + self.score
    }

    /// `post` is the running game `pre` after one tick.
    pub open spec fn tick_post(pre: Game, post: Game) -> bool {
        let body = pre.snake.stepped_body();
        let head = body[0];
        let dead = !pre.world.spec_contains(head) || head_on_rest(body);
        &&& post.world == pre.world
        &&& post.snake.body@ == body
        &&& post.snake.dir == pre.snake.pending_dir
        &&& post.snake.pending_dir == pre.snake.pending_dir
        &&& post.game_over == dead
        &&& if dead || head != pre.food {
            &&& !post.snake.grow
            &&& post.score == pre.score
            &&& post.food == pre.food
        } else {
            &&& post.snake.grow
            &&& post.score == pre.score + 1
            &&& post.has_free_cell() ==> post.is_free(post.food)
            &&& !post.has_free_cell() ==> post.food == pre.food
        }
    }

    /// `post` is `pre` with the world replaced by `width` by `height` and every body
    /// cell and the food clamped into it; overlaps that this creates are kept.
    pub open spec fn resize_post(pre: Game, width: i32, height: i32, post: Game) -> bool {
        &&& post.world.width == width
        &&& post.world.height == height
        &&& post.snake.body@.len() == pre.snake.body@.len()
        &&& forall|i: int|
            0 <= i < pre.snake.body@.len() ==> #[trigger] post.snake.body@[i] == clamp_into(
                pre.snake.body@[i],
                post.world,
            )
        &&& post.food == clamp_into(pre.food, post.world)
        &&& post.snake.dir == pre.snake.dir
        &&& post.snake.pending_dir == pre.snake.pending_dir
        &&& post.snake.grow == pre.snake.grow
        &&& post.score == pre.score
        &&& post.game_over == pre.game_over
    }

    /// Replaces the world's size and clamps the body and the food into it.
    pub fn resize(&mut self, width: i32, height: i32)
        requires
            old(self).wf(),
            width >= 1,
            height >= 1,
        ensures
            final(self).wf(),
            Game::resize_post(*old(self), width, height, *final(self)),
    {
        self.world.width = width;
        self.world.height = height;
        let n = self.snake.body.len();
        let mut body: VecDeque<Coord> = VecDeque::new();
        let mut i: usize = 0;
        while i < n
            invariant
                i <= n,
                n == self.snake.body@.len(),
                self.snake.body@ == old(self).snake.body@,
                self.world.width == width,
                self.world.height == height,
                width >= 1,
                height >= 1,
                body@.len() == i,
                forall|j: int|
                    0 <= j < i ==> #[trigger] body@[j] == clamp_into(
                        old(self).snake.body@[j],
                        self.world,
                    ),
            decreases n - i,
        {
            let c = self.snake.body[i];
            body.push_back(Coord { x: clamp_axis(c.x, width), y: clamp_axis(c.y, height) });
            i = i + 1;
        }
        self.snake.body = body;
        self.food = Coord { x: clamp_axis(self.food.x, width), y: clamp_axis(self.food.y, height) };
    }

    /// Starts a game on a `world_w` by `world_h` grid: a body of `START_LEN` cells
    /// facing right with its head at the centre, and food on a free cell.
    pub fn new(world_w: i32, world_h: i32, seed: u64) -> (g: Self)
        requires
            world_w >= 1,
            world_h >= 1,
        ensures
            g.wf(),
            g.world.width == world_w,
            g.world.height == world_h,
            g.snake.body@.len() == START_LEN,
            forall|k: int|
                0 <= k < START_LEN ==> #[trigger] g.snake.body@[k] == behind(
                    Coord { x: (world_w / 2) as i32, y: (world_h / 2) as i32 },
                    Dir::Right,
                    k,
                ),
            g.snake.dir == Dir::Right,
            g.snake.pending_dir == Dir::Right,
            !g.snake.grow,
            g.score == 0,
            !g.game_over,
            g.has_free_cell() ==> g.is_free(g.food),
            !g.has_free_cell() ==> g.food == (Coord { x: 0, y: 0 }),
    {
        let world = World { width: world_w, height: world_h };
        let rng = seeded(seed);
        let start = Coord { x: world_w / 2, y: world_h / 2 };
        let mut g = Game {
            food: Coord { x: 0, y: 0 },
            world,
            snake: Snake::new(start, START_LEN, Dir::Right),
            rng,
            score: 0,
            game_over: false,
        };
        if let Some(c) = g.rand_free_cell() {
            g.food = c;
        }
        g
    }

    /// Advances the running game by one tick; a finished game stays as it is.
    pub fn update(&mut self)
        requires
            old(self).wf(),
        ensures
            final(self).wf(),
            old(self).game_over ==> *final(self) == *old(self),
            !old(self).game_over ==> Game::tick_post(*old(self), *final(self)),
    {
        if self.game_over {
            return;
        }
        self.snake.step();
        let head = self.snake.head();
        if !self.world.contains(head) || self.snake.hits_self() {
            self.game_over = true;
            return;
        }
        if head == self.food {
            // The body's length is a usize, so the score it bounds cannot overflow.
            let n = self.snake.body.len();
            assert(n == self.snake.body@.len());
            self.snake.grow();
            self.score = self.score + 1;
            if let Some(c) = self.rand_free_cell() {
                self.food = c;
            }
        }
    }

    /// `post` is `pre` after a request for direction `d`: a finished game is left
    /// as it is, a running one passes the request to the body.
    pub open spec fn turn_post(pre: Game, d: Dir, post: Game) -> bool {
        if pre.game_over {
            post == pre
        } else {
            &&& Snake::request_post(pre.snake, d, post.snake)
            &&& post.world == pre.world
            &&& post.food == pre.food
            &&& post.score == pre.score
            &&& post.game_over == pre.game_over
        }
    }

    /// Forwards a direction request to the body while the game runs.
    pub fn change_dir(&mut self, dir: Dir)
        requires
            old(self).wf(),
        ensures
            final(self).wf(),
            Game::turn_post(*old(self), dir, *final(self)),
    {
        if !self.game_over {
            self.snake.set_dir(dir);
        }
    }

    /// A free cell: up to `MAX_DRAWS` uniform draws, then the first free cell in
    /// row order; `None` only when the body covers the whole world.
    fn rand_free_cell(&mut self) -> (r: Option<Coord>)
        requires
            old(self).world.wf(),
        ensures
            final(self).world == old(self).world,
            final(self).snake == old(self).snake,
            final(self).food == old(self).food,
            final(self).score == old(self).score,
            final(self).game_over == old(self).game_over,
            match r {
                Some(c) => old(self).is_free(c),
                None => !old(self).has_free_cell(),
            },
    {
        let mut tries: u32 = 0;
        while tries < MAX_DRAWS
            invariant
                self.world == old(self).world,
                self.snake == old(self).snake,
                self.food == old(self).food,
                self.score == old(self).score,
                self.game_over == old(self).game_over,
                self.world.wf(),
            decreases MAX_DRAWS - tries,
        {
            let x = draw_below(&mut self.rng, 0, self.world.width);
            let y = draw_below(&mut self.rng, 0, self.world.height);
            let c = Coord { x, y };
            if !self.snake.occupies(c) {
                return Some(c);
            }
            tries = tries + 1;
        }
        let mut y: i32 = 0;
        while y < self.world.height
            invariant
                self.world == old(self).world,
                self.snake == old(self).snake,
                self.food == old(self).food,
                self.score == old(self).score,
                self.game_over == old(self).game_over,
                self.world.wf(),
                0 <= y <= self.world.height,
                forall|c: Coord|
                    self.world.spec_contains(c) && c.y < y ==> #[trigger] self.snake.body@.contains(c),
            decreases self.world.height - y,
        {
            let mut x: i32 = 0;
            while x < self.world.width
                invariant
                    self.world == old(self).world,
                    self.snake == old(self).snake,
                    self.food == old(self).food,
                    self.score == old(self).score,
                    self.game_over == old(self).game_over,
                    self.world.wf(),
                    0 <= y < self.world.height,
                    0 <= x <= self.world.width,
                    forall|c: Coord|
                        self.world.spec_contains(c) && (c.y < y || (c.y == y && c.x < x))
                            ==> #[trigger] self.snake.body@.contains(c),
                decreases self.world.width - x,
            {
                let c = Coord { x, y };
                if !self.snake.occupies(c) {
                    return Some(c);
                }
                x = x + 1;
            }
            y = y + 1;
        }
        assert forall|c: Coord| !old(self).is_free(c) by {
            if self.world.spec_contains(c) {
                assert(self.snake.body@.contains(c));
            }
        }
        None
    }
}

} // verus!
