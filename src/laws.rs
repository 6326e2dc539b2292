use vstd::prelude::*;

use crate::game::{can_move, dx, dy, opposite, Dir, Game, Snake};

verus! {

/// A request for the reverse of the direction that a step has just committed is
/// dropped: the next step commits that same direction again.
pub proof fn lemma_reversal_rejected(s0: Snake, s1: Snake, s2: Snake, s3: Snake)
    requires
        Snake::step_post(s0, s1),
        Snake::request_post(s1, opposite(s1.dir), s2),
        Snake::step_post(s2, s3),
    ensures
        s3.dir == s1.dir,
{
}

/// Of two requests between steps, the later one wins when neither reverses the
/// committed direction.
pub proof fn lemma_last_request_wins(s0: Snake, s1: Snake, s2: Snake, s3: Snake, a: Dir, b: Dir)
    requires
        a != opposite(s0.dir),
        b != opposite(s0.dir),
        Snake::request_post(s0, a, s1),
        Snake::request_post(s1, b, s2),
        Snake::step_post(s2, s3),
    ensures
        s3.dir == b,
{
}

/// A step keeps the body's length, or adds exactly one cell when growth was pending.
pub proof fn lemma_step_length(pre: Snake, post: Snake)
    requires
        pre.wf(),
        Snake::step_post(pre, post),
    ensures
        post.body@.len() == pre.body@.len() + if pre.grow {
            1int
        } else {
            0int
        },
{
}

/// A step moves the head by exactly one cell along exactly one axis, in the
/// committed direction.
pub proof fn lemma_step_moves_one_cell(pre: Snake, post: Snake)
    requires
        pre.wf(),
        can_move(pre.spec_head(), pre.pending_dir),
        Snake::step_post(pre, post),
    ensures
        post.spec_head().x - pre.spec_head().x == dx(post.dir),
        post.spec_head().y - pre.spec_head().y == dy(post.dir),
        (dx(post.dir) == 0 && (dy(post.dir) == 1 || dy(post.dir) == -1)) || (dy(post.dir) == 0
            && (dx(post.dir) == 1 || dx(post.dir) == -1)),
{
}

/// Once a tick ends the game, later ticks change nothing.
pub proof fn lemma_game_over_absorbs(g0: Game, g1: Game, g2: Game)
    requires
        !g0.game_over ==> Game::tick_post(g0, g1),
        g0.game_over ==> g1 == g0,
        g1.game_over,
        g1.game_over ==> g2 == g1,
    ensures
        g2.game_over,
        g2.snake.body@ == g1.snake.body@,
        g2.food == g1.food,
        g2.score == g1.score,
{
}

} // verus!
