//! The snake: its cells from head to tail, its heading, and pending growth.
use vstd::prelude::*;

verus! {

/// A heading on the grid; `Up` lowers `y`, `Right` raises `x`.
#[derive(Clone, Copy, Debug, PartialEq, Eq, Structural)]
pub enum Direction {
    Up,
    Down,
    Left,
    Right,
}

/// The heading that points the other way.
pub open spec fn opposite_of(d: Direction) -> Direction {
    match d {
        Direction::Up => Direction::Down,
        Direction::Down => Direction::Up,
        Direction::Left => Direction::Right,
        Direction::Right => Direction::Left,
    }
}

/// The heading actually taken when `requested` is asked for while facing `current`:
/// a request for the reverse heading, or no request, keeps `current`.
pub open spec fn effective_heading(current: Direction, requested: Option<Direction>) -> Direction {
    match requested {
        Some(d) => if d == opposite_of(current) { current } else { d },
        None => current,
    }
}

/// The cell one step from `(x, y)` along `d`.
pub open spec fn step_from(x: int, y: int, d: Direction) -> (int, int) {
    match d {
        Direction::Up => (x, y - 1),
        Direction::Down => (x, y + 1),
        Direction::Left => (x - 1, y),
        Direction::Right => (x + 1, y),
    }
}

/// Whether some cell of `body` is `(x, y)`.
pub open spec fn occupies(body: Seq<(i32, i32)>, x: int, y: int) -> bool {
    exists|i: int| 0 <= i < body.len() && body[i].0 == x && body[i].1 == y
}

/// The body a fresh snake starts with: three cells, head first, tail at `(x, y)`.
pub open spec fn initial_body(x: int, y: int) -> Seq<(i32, i32)> {
    seq![((x + 2) as i32, y as i32), ((x + 1) as i32, y as i32), (x as i32, y as i32)]
}

/// The body after one move towards `(nx, ny)`: the new head in front, and the old
/// tail dropped unless growth is pending.
pub open spec fn advanced_body(body: Seq<(i32, i32)>, nx: int, ny: int, grow: bool) -> Seq<(i32, i32)> {
    seq![(nx as i32, ny as i32)] + if grow { body } else { body.drop_last() }
}

impl Direction {
    pub fn opposite(&self) -> (r: Direction)
        ensures
            r == opposite_of(*self),
    {
        match self {
            Direction::Up => Direction::Down,
            Direction::Down => Direction::Up,
            Direction::Left => Direction::Right,
            Direction::Right => Direction::Left,
        }
    }
}

/// A snake: its cells from head to tail, its heading, and whether the next move
/// keeps the tail.
pub struct Snake {
    body: Vec<(i32, i32)>,
    direction: Direction,
    grow: bool,
}

impl Snake {
    /// The cells of the body, head first.
    pub closed spec fn cells(&self) -> Seq<(i32, i32)> {
        self.body@
    }

    pub closed spec fn heading(&self) -> Direction {
        self.direction
    }

    /// Whether the next move keeps the tail.
    pub closed spec fn growing(&self) -> bool {
        self.grow
    }

    /// The head's coordinates can be stepped from without leaving `i32`.
    pub open spec fn head_steppable(&self) -> bool {
        self.cells().len() > 0 && i32::MIN < self.cells()[0].0 < i32::MAX && i32::MIN
            < self.cells()[0].1 < i32::MAX
    }

    /// The cell the head would move to on a request of `dir`.
    pub open spec fn next_cell(&self, dir: Option<Direction>) -> (int, int) {
        step_from(
            self.cells()[0].0 as int,
            self.cells()[0].1 as int,
            effective_heading(self.heading(), dir),
        )
    }

    pub fn new(x: i32, y: i32) -> (r: Snake)
        requires
            x <= i32::MAX - 2,
        ensures
            r.cells() == initial_body(x as int, y as int),
            r.heading() == Direction::Right,
            !r.growing(),
    {
        let mut body: Vec<(i32, i32)> = Vec::new();
        body.push((x + 2, y));
        body.push((x + 1, y));
        body.push((x, y));
        Snake { body, direction: Direction::Right, grow: false }
    }

    pub fn head_direction(&self) -> (r: Direction)
        ensures
            r == self.heading(),
    {
        self.direction
    }

    pub fn head_position(&self) -> (r: (i32, i32))
        requires
            self.cells().len() > 0,
        ensures
            r == self.cells()[0],
    {
        self.body[0]
    }

    fn heading_for(&self, dir: Option<Direction>) -> (r: Direction)
        ensures
            r == effective_heading(self.heading(), dir),
    {
        match dir {
            Some(d) => if d == self.direction.opposite() {
                self.direction
            } else {
                d
            },
            None => self.direction,
        }
    }

    /// Where the head would go on a request of `dir`; a request for the reverse
    /// heading is ignored.
    pub fn next_head(&self, dir: Option<Direction>) -> (r: (i32, i32))
        requires
            self.head_steppable(),
        ensures
            r.0 as int == self.next_cell(dir).0,
            r.1 as int == self.next_cell(dir).1,
    {
        let (x, y) = self.body[0];
        match self.heading_for(dir) {
            Direction::Up => (x, y - 1),
            Direction::Down => (x, y + 1),
            Direction::Left => (x - 1, y),
            Direction::Right => (x + 1, y),
        }
    }

    /// Moves one cell: the heading becomes the one requested (unless it is the
    /// reverse), the new head goes in front, and the tail is dropped unless growth
    /// was pending, which this move uses up.
    pub fn move_forward(&mut self, dir: Option<Direction>)
        requires
            old(self).head_steppable(),
        ensures
            final(self).heading() == effective_heading(old(self).heading(), dir),
            final(self).cells() == advanced_body(
                old(self).cells(),
                old(self).next_cell(dir).0,
                old(self).next_cell(dir).1,
                old(self).growing(),
            ),
            !final(self).growing(),
    {
        let next = self.next_head(dir);
        self.direction = self.heading_for(dir);
        let mut body: Vec<(i32, i32)> = Vec::new();
        body.push(next);
        let keep: usize = if self.grow {
            self.body.len()
        } else {
            self.body.len() - 1
        };
        let mut i: usize = 0;
        while i < keep
            invariant
                keep <= self.body.len(),
                i <= keep,
                body@ == seq![next] + self.body@.subrange(0, i as int),
            decreases keep - i,
        {
            body.push(self.body[i]);
            i += 1;
            proof {
                assert(body@ =~= seq![next] + self.body@.subrange(0, i as int));
            }
        }
        proof {
            assert(self.body@.subrange(0, keep as int) =~= if self.grow {
                self.body@
            } else {
                self.body@.drop_last()
            });
        }
        self.body = body;
        self.grow = false;
    }

    /// Makes the next move keep the tail, so that the body grows by one cell.
    pub fn restore_tail(&mut self)
        ensures
            final(self).cells() == old(self).cells(),
            final(self).heading() == old(self).heading(),
            final(self).growing(),
    {
        self.grow = true;
    }

    /// Drops the tail cell at once, if there is one.
    pub fn remove_tail(&mut self)
        ensures
            final(self).cells() == if old(self).cells().len() > 0 {
                old(self).cells().drop_last()
            } else {
                old(self).cells()
            },
            final(self).heading() == old(self).heading(),
            final(self).growing() == old(self).growing(),
    {
        if self.body.len() > 0 {
            self.body.pop();
        }
    }

    /// Whether `(x, y)` is a cell of the body.
    pub fn overlap_tail(&self, x: i32, y: i32) -> (r: bool)
        ensures
            r == occupies(self.cells(), x as int, y as int),
    {
        let mut i: usize = 0;
        while i < self.body.len()
            invariant
                i <= self.body.len(),
                forall|j: int| 0 <= j < i ==> !(self.body@[j].0 == x && self.body@[j].1 == y),
            decreases self.body.len() - i,
        {
            if self.body[i].0 == x && self.body[i].1 == y {
                return true;
            }
            i += 1;
        }
        false
    }

    pub fn get_body_length(&self) -> (r: usize)
        ensures
            r == self.cells().len(),
    {
        self.body.len()
    }

    /// The cell at position `i` of the body, counted from the head.
    pub fn cell(&self, i: usize) -> (r: (i32, i32))
        requires
            i < self.cells().len(),
        ensures
            r == self.cells()[i as int],
    {
        self.body[i]
    }
}

} // verus!
