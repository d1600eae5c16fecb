//! The snake itself: a heading, a body of grid cells, and the two
//! operations of the game — advancing one step and changing heading.

use vstd::prelude::*;

verus! {

/// Edge of one grid cell, in pixels, when the body is drawn.
pub const GRID_UNIT: i64 = 20;

/// The direction the snake currently moves in.
#[derive(Clone, Copy, Debug, PartialEq, Eq, Structural)]
pub enum Heading {
    Right,
    Left,
    Up,
    Down,
}

/// One grid cell. The grid is unbounded: nothing keeps coordinates
/// non-negative.
#[derive(Clone, Copy, Debug, PartialEq, Eq, Structural)]
pub struct Cell {
    pub x: i32,
    pub y: i32,
}

/// The heading that points exactly the other way.
pub open spec fn opposite(h: Heading) -> Heading {
    match h {
        Heading::Right => Heading::Left,
        Heading::Left => Heading::Right,
        Heading::Up => Heading::Down,
        Heading::Down => Heading::Up,
    }
}

/// The heading after a request: a reversal is rejected, anything else
/// (the same heading or a perpendicular one) is accepted.
pub open spec fn apply_heading(current: Heading, requested: Heading) -> Heading {
    if requested == opposite(current) {
        current
    } else {
        requested
    }
}

/// Requesting the exact opposite never changes the heading, and
/// requesting the current heading keeps it as well.
pub proof fn lemma_heading_noops(h: Heading)
    ensures
        apply_heading(h, opposite(h)) == h,
        apply_heading(h, h) == h,
{
}

/// The cell one grid unit from `c` in direction `h`. Up decreases y,
/// down increases it: the drawing surface grows downward.
pub open spec fn moved(c: Cell, h: Heading) -> Cell {
    match h {
        Heading::Right => Cell { x: (c.x + 1) as i32, y: c.y },
        Heading::Left => Cell { x: (c.x - 1) as i32, y: c.y },
        Heading::Up => Cell { x: c.x, y: (c.y - 1) as i32 },
        Heading::Down => Cell { x: c.x, y: (c.y + 1) as i32 },
    }
}

/// Whether the step in direction `h` from `c` stays within the machine
/// coordinate range.
pub open spec fn step_in_range(c: Cell, h: Heading) -> bool {
    match h {
        Heading::Right => c.x < i32::MAX,
        Heading::Left => c.x > i32::MIN,
        Heading::Up => c.y > i32::MIN,
        Heading::Down => c.y < i32::MAX,
    }
}

/// One update step of the body: the moved head is put at the front and
/// the tail cell is dropped, so the length never changes.
pub open spec fn step(body: Seq<Cell>, h: Heading) -> Seq<Cell>
    recommends
        body.len() >= 1,
{
    seq![moved(body[0], h)] + body.drop_last()
}

/// The body after a whole run of update steps, one per heading in `hs`,
/// applied front to back.
pub open spec fn run(body: Seq<Cell>, hs: Seq<Heading>) -> Seq<Cell>
    decreases hs.len(),
{
    if hs.len() == 0 {
        body
    } else {
        run(step(body, hs[0]), hs.drop_first())
    }
}

/// Length conservation: however many update steps are taken, under
/// whatever headings, the body keeps the length it started with.
pub proof fn lemma_run_preserves_len(body: Seq<Cell>, hs: Seq<Heading>)
    requires
        body.len() >= 1,
    ensures
        run(body, hs).len() == body.len(),
    decreases hs.len(),
{
    if hs.len() > 0 {
        assert(step(body, hs[0]).len() == body.len());
        lemma_run_preserves_len(step(body, hs[0]), hs.drop_first());
    }
}

/// One square of the drawn frame: a cell scaled to pixels.
#[derive(Clone, Copy, Debug, PartialEq, Eq, Structural)]
pub struct Square {
    pub x: i64,
    pub y: i64,
    pub edge: i64,
}

/// The square that a cell is drawn as: position scaled by the grid
/// unit, edge one grid unit.
pub open spec fn square_of(c: Cell) -> Square {
    Square { x: (c.x * GRID_UNIT) as i64, y: (c.y * GRID_UNIT) as i64, edge: GRID_UNIT }
}

/// The snake: its body, front cell first, and its current heading.
pub struct Snake {
    pub body: Vec<Cell>,
    pub dir: Heading,
}

impl Snake {
    /// The lifecycle invariant: the body is never empty.
    pub open spec fn wf(self) -> bool {
        self.body@.len() >= 1
    }

    /// Whether `advance` may be called: the body is non-empty and the
    /// next head cell stays within the coordinate range.
    pub open spec fn can_advance(self) -> bool {
        self.wf() && step_in_range(self.body@[0], self.dir)
    }

    /// The starting snake: two cells, head at the origin, heading right.
    pub fn new() -> (s: Snake)
        ensures
            s.body@ == seq![Cell { x: 0, y: 0 }, Cell { x: 0, y: 1 }],
            s.dir == Heading::Right,
            s.wf(),
    {
        let mut body: Vec<Cell> = Vec::new();
        body.push(Cell { x: 0, y: 0 });
        body.push(Cell { x: 0, y: 1 });
        proof {
            assert(body@ =~= seq![Cell { x: 0, y: 0 }, Cell { x: 0, y: 1 }]);
        }
        Snake { body, dir: Heading::Right }
    }

    /// Move one step: the new head, one grid unit along the current
    /// heading, goes to the front, and the tail cell is dropped. The
    /// length and the heading are unchanged.
    pub fn advance(&mut self)
        requires
            old(self).can_advance(),
        ensures
            final(self).dir == old(self).dir,
            final(self).body@ == step(old(self).body@, old(self).dir),
            final(self).body@.len() == old(self).body@.len(),
            final(self).wf(),
    {
        let head = self.body[0];
        let new_head = match self.dir {
            Heading::Right => Cell { x: head.x + 1, y: head.y },
            Heading::Left => Cell { x: head.x - 1, y: head.y },
            Heading::Up => Cell { x: head.x, y: head.y - 1 },
            Heading::Down => Cell { x: head.x, y: head.y + 1 },
        };
        self.body.insert(0, new_head);
        let last: usize = self.body.len() - 1;
        self.body.remove(last);
        proof {
            assert(self.body@ =~= step(old(self).body@, old(self).dir));
        }
    }

    /// Apply a requested heading: rejected (no change) exactly when it
    /// is the opposite of the current one. The body is untouched.
    pub fn set_heading(&mut self, requested: Heading)
        ensures
            final(self).dir == apply_heading(old(self).dir, requested),
            final(self).body@ == old(self).body@,
    {
        if !(requested == opposite_exec(self.dir)) {
            self.dir = requested;
        }
    }

    /// The frame to draw: exactly one square per body cell, in body
    /// order, each cell scaled to pixels.
    pub fn squares(&self) -> (r: Vec<Square>)
        ensures
            r@.len() == self.body@.len(),
            forall|i: int| 0 <= i < r@.len() ==> r@[i] == square_of(self.body@[i]),
    {
        let mut r: Vec<Square> = Vec::new();
        let mut i: usize = 0;
        while i < self.body.len()
            invariant
                i <= self.body@.len(),
                r@.len() == i,
                forall|j: int| 0 <= j < i ==> r@[j] == square_of(self.body@[j]),
            decreases self.body@.len() - i,
        {
            let c = self.body[i];
            let sq = Square { x: (c.x as i64) * GRID_UNIT, y: (c.y as i64) * GRID_UNIT, edge: GRID_UNIT };
            r.push(sq);
            i = i + 1;
        }
        r
    }
}

/// Executable twin of `opposite`.
pub fn opposite_exec(h: Heading) -> (r: Heading)
    ensures
        r == opposite(h),
{
    match h {
        Heading::Right => Heading::Left,
        Heading::Left => Heading::Right,
        Heading::Up => Heading::Down,
        Heading::Down => Heading::Up,
    }
}

} // verus!
