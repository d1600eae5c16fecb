//! The frame driver: owns the snake and dispatches the three external
//! events — render, fixed-rate update tick, key press — to it.

use vstd::prelude::*;
use crate::snake::Heading;
use crate::snake::Snake;
use crate::snake::Square;
use crate::snake::apply_heading;
use crate::snake::square_of;
use crate::snake::step;

verus! {

/// A key press as the driver sees it: one of the four direction keys,
/// or anything else.
#[derive(Clone, Copy, Debug, PartialEq, Eq, Structural)]
pub enum KeyPress {
    Up,
    Down,
    Left,
    Right,
    Other,
}

/// The heading a key asks for, if it is a direction key at all.
pub open spec fn key_heading(k: KeyPress) -> Option<Heading> {
    match k {
        KeyPress::Up => Some(Heading::Up),
        KeyPress::Down => Some(Heading::Down),
        KeyPress::Left => Some(Heading::Left),
        KeyPress::Right => Some(Heading::Right),
        KeyPress::Other => None,
    }
}

/// The game: it owns the snake and reacts to the events the host loop
/// delivers, one at a time.
pub struct App {
    pub snake: Snake,
}

impl App {
    /// The game as it starts: the two-cell snake heading right.
    pub fn new() -> (a: App)
        ensures
            a.snake.body@ == seq![
                crate::snake::Cell { x: 0, y: 0 },
                crate::snake::Cell { x: 0, y: 1 },
            ],
            a.snake.dir == Heading::Right,
            a.snake.wf(),
    {
        App { snake: Snake::new() }
    }

    /// Whether the next update tick may run (the coordinate range would
    /// not be left). The host loop checks this before each tick.
    pub fn can_update(&self) -> (r: bool)
        ensures
            r == self.snake.can_advance(),
    {
        if self.snake.body.len() == 0 {
            return false;
        }
        let head = self.snake.body[0];
        match self.snake.dir {
            Heading::Right => head.x < i32::MAX,
            Heading::Left => head.x > i32::MIN,
            Heading::Up => head.y > i32::MIN,
            Heading::Down => head.y < i32::MAX,
        }
    }

    /// One fixed-rate update tick: the snake advances exactly once.
    /// Render ticks never come here; this alone drives game time.
    pub fn update(&mut self)
        requires
            old(self).snake.can_advance(),
        ensures
            final(self).snake.dir == old(self).snake.dir,
            final(self).snake.body@ == step(old(self).snake.body@, old(self).snake.dir),
            final(self).snake.wf(),
    {
        self.snake.advance();
    }

    /// One key-down transition: a direction key is mapped to its heading
    /// and handed to the snake (which rejects a reversal); any other key
    /// is ignored. The body is never touched.
    pub fn pressed(&mut self, key: KeyPress)
        ensures
            final(self).snake.dir == match key_heading(key) {
                Some(h) => apply_heading(old(self).snake.dir, h),
                None => old(self).snake.dir,
            },
            final(self).snake.body@ == old(self).snake.body@,
    {
        match key {
            KeyPress::Up => self.snake.set_heading(Heading::Up),
            KeyPress::Down => self.snake.set_heading(Heading::Down),
            KeyPress::Left => self.snake.set_heading(Heading::Left),
            KeyPress::Right => self.snake.set_heading(Heading::Right),
            KeyPress::Other => {},
        }
    }

    /// The geometry of one frame: exactly one square per body cell, in
    /// body order. The host clears the surface and draws these.
    pub fn frame(&self) -> (r: Vec<Square>)
        ensures
            r@.len() == self.snake.body@.len(),
            forall|i: int| 0 <= i < r@.len() ==> r@[i] == square_of(self.snake.body@[i]),
    {
        self.snake.squares()
    }
}

} // verus!
