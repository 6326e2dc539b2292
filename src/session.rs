use vstd::prelude::*;

use crate::game::{Dir, Game};

verus! {

/// Rows of the terminal taken by the banner above the board.
pub const HEADER_ROWS: u16 = 3;

/// A key press, as far as the game tells keys apart.
#[derive(Debug, Clone, Copy, PartialEq, Eq, Structural)]
pub enum Key {
    Char(char),
    Esc,
    Up,
    Down,
    Left,
    Right,
    Other,
}

/// What the event source delivers to the control loop.
#[derive(Debug, Clone, Copy, PartialEq, Eq, Structural)]
pub enum Event {
    Tick,
    Key(Key),
    Resize(u16, u16),
}

/// Whether the control loop goes on after an event.
#[derive(Debug, Clone, Copy, PartialEq, Eq, Structural)]
pub enum Flow {
    Continue,
    Quit,
}

/// `a - b`, or zero where that would be negative.
pub open spec fn sub_floor(a: int, b: int) -> int {
    if a >= b {
        a - b
    } else {
        0
    }
}

/// `a`, or one where `a` is smaller.
pub open spec fn at_least_one(a: int) -> int {
    if a >= 1 {
        a
    } else {
        1
    }
}

/// Grid columns for a terminal `term_cols` wide: a border on each side, two
/// terminal columns per cell.
pub open spec fn cells_wide(term_cols: int) -> int {
    at_least_one(sub_floor(term_cols, 2) / 2)
}

/// Grid rows for a terminal `term_rows` high: the banner and a border on each side.
pub open spec fn cells_high(term_rows: int) -> int {
    at_least_one(sub_floor(sub_floor(term_rows, HEADER_ROWS as int), 2))
}

/// The key that turns the body in each direction.
pub open spec fn turn_of(k: Key) -> Option<Dir> {
    match k {
        Key::Up => Some(Dir::Up),
        Key::Down => Some(Dir::Down),
        Key::Left => Some(Dir::Left),
        Key::Right => Some(Dir::Right),
        _ => None,
    }
}

/// The keys that end the session.
pub open spec fn is_quit(k: Key) -> bool {
    k == Key::Char('q') || k == Key::Esc
}

/// The grid size that fits a terminal of `term_cols` by `term_rows`; never below one.
pub fn world_from_terminal(term_cols: u16, term_rows: u16) -> (r: (u16, u16))
    ensures
        r.0 == cells_wide(term_cols as int),
        r.1 == cells_high(term_rows as int),
        r.0 >= 1,
        r.1 >= 1,
{
    let inner_cols = term_cols.saturating_sub(2);
    let inner_rows = term_rows.saturating_sub(HEADER_ROWS).saturating_sub(2);
    let half = inner_cols / 2;
    let cells_w = if half >= 1 {
        half
    } else {
        1
    };
    let cells_h = if inner_rows >= 1 {
        inner_rows
    } else {
        1
    };
    (cells_w, cells_h)
}

impl Game {
    /// Applies one event of the control loop: a tick advances the game and ends the
    /// session once it is over; the quit keys end it; the arrow keys request a
    /// turn; a terminal resize resizes the world; any other key does nothing.
    pub fn handle(&mut self, ev: Event) -> (r: Flow)
        requires
            old(self).wf(),
        ensures
            final(self).wf(),
            match ev {
                Event::Tick => {
                    &&& old(self).game_over ==> *final(self) == *old(self)
                    &&& !old(self).game_over ==> Game::tick_post(*old(self), *final(self))
                    &&& (r == Flow::Quit) == final(self).game_over
                },
                Event::Key(k) => {
                    &&& r == (if is_quit(k) {
                        Flow::Quit
                    } else {
                        Flow::Continue
                    })
                    &&& match turn_of(k) {
                        Some(d) => Game::turn_post(*old(self), d, *final(self)),
                        None => *final(self) == *old(self),
                    }
                },
                Event::Resize(cols, rows) => {
                    &&& r == Flow::Continue
                    &&& Game::resize_post(
                        *old(self),
                        cells_wide(cols as int) as i32,
                        cells_high(rows as int) as i32,
                        *final(self),
                    )
                },
            },
    {
        match ev {
            Event::Tick => {
                self.update();
                if self.game_over {
                    Flow::Quit
                } else {
                    Flow::Continue
                }
            },
            Event::Key(k) => match k {
                Key::Char('q') | Key::Esc => Flow::Quit,
                Key::Up => {
                    self.change_dir(Dir::Up);
                    Flow::Continue
                },
                Key::Down => {
                    self.change_dir(Dir::Down);
                    Flow::Continue
                },
                Key::Left => {
                    self.change_dir(Dir::Left);
                    Flow::Continue
                },
                Key::Right => {
                    self.change_dir(Dir::Right);
                    Flow::Continue
                },
                _ => Flow::Continue,
            },
            Event::Resize(cols, rows) => {
                let (w, h) = world_from_terminal(cols, rows);
                self.resize(w as i32, h as i32);
                Flow::Continue
            },
        }
    }
}

} // verus!
