//! Core of a grid snake game: a snake advances over a fixed grid of cells,
//! grows by eating food, and the session ends when it runs into a wall.
//!
//! The simulation is pure state: an external driver delivers update ticks,
//! directional input and render ticks, and reacts to the outcome of each
//! tick. Drawing and configuration loading stay outside the core. All
//! coordinates and bounds are in grid cells; a renderer scales a cell to a
//! fixed pixel square.

use vstd::prelude::*;

use crate::config::Window;
use rand::Rng;

pub mod config;

verus! {

/// The facing of the snake on the grid.
#[derive(Clone, Copy, Debug, PartialEq, Eq, Structural)]
pub enum Direction {
    Right,
    Left,
    Up,
    Down,
}

/// Outcome of one successful simulation tick: the snake either ate the food
/// (and grew), or moved one cell.
#[derive(Clone, Copy, Debug, PartialEq, Eq, Structural)]
pub enum SnakeBehaviour {
    Eat,
    Move,
}

/// Terminal failure of a tick: the snake would have left the grid. The
/// session ends here; the driver must stop issuing update ticks.
#[derive(Clone, Copy, Debug, PartialEq, Eq, Structural)]
pub struct CollisionFailure;

/// The direction exactly opposite to `d`.
pub open spec fn opposite(d: Direction) -> Direction {
    match d {
        Direction::Right => Direction::Left,
        Direction::Left => Direction::Right,
        Direction::Up => Direction::Down,
        Direction::Down => Direction::Up,
    }
}

/// The direction a snake faces after `requested` has been applied to a snake
/// currently facing `cur`: an exact reversal is rejected and the prior
/// direction kept, anything else is adopted.
pub open spec fn dir_after(cur: Direction, requested: Direction) -> Direction {
    if requested == opposite(cur) {
        cur
    } else {
        requested
    }
}

/// Horizontal displacement of one step in direction `d`, in cells.
pub open spec fn step_x(d: Direction) -> int {
    match d {
        Direction::Left => -1,
        Direction::Right => 1,
        Direction::Up => 0,
        Direction::Down => 0,
    }
}

/// Vertical displacement of one step in direction `d`, in cells.
pub open spec fn step_y(d: Direction) -> int {
    match d {
        Direction::Left => 0,
        Direction::Right => 0,
        Direction::Up => -1,
        Direction::Down => 1,
    }
}

/// The boundary check of a tick: a step from `head` in direction `d` is
/// blocked when the head already sits on the wall of the axis it moves
/// along (at 0 on the low side, at the bound on the high side).
pub open spec fn blocked(head: (i32, i32), d: Direction, w: Window) -> bool {
    match d {
        Direction::Left => head.0 <= 0,
        Direction::Right => head.0 as int >= w.width as int,
        Direction::Up => head.1 <= 0,
        Direction::Down => head.1 as int >= w.height as int,
    }
}

/// The cell the head would move to: one step from `head` along `d`.
pub open spec fn candidate_head(head: (i32, i32), d: Direction) -> (i32, i32) {
    (((head.0 + step_x(d)) as i32), ((head.1 + step_y(d)) as i32))
}

/// The body after a successful advance of `s`: the candidate head in front,
/// then the whole previous body if the snake grew, else all of it but the
/// tail cell.
pub open spec fn body_after(s: Snake, grow: bool) -> Seq<(i32, i32)> {
    seq![candidate_head(s.body@[0], s.dir)] + if grow {
        s.body@
    } else {
        s.body@.drop_last()
    }
}

/// The outcome a successful advance reports: `Eat` when it grew, else `Move`.
pub open spec fn outcome_of(grow: bool) -> SnakeBehaviour {
    if grow {
        SnakeBehaviour::Eat
    } else {
        SnakeBehaviour::Move
    }
}

/// `(x, y)` lies in the closed coordinate box that the boundary check
/// keeps the head inside: `[0, width] x [0, height]`.
pub open spec fn in_box(x: int, y: int, w: Window) -> bool {
    0 <= x <= w.width as int && 0 <= y <= w.height as int
}

/// The snake: its body as an ordered sequence of cells, head first, and the
/// direction it currently faces.
#[derive(Clone)]
pub struct Snake {
    pub body: Vec<(i32, i32)>,
    pub dir: Direction,
}

impl Snake {
    /// A snake in play is never empty.
    pub open spec fn wf(&self) -> bool {
        self.body@.len() > 0
    }

    /// The head cell.
    pub open spec fn head(&self) -> (i32, i32) {
        self.body@[0]
    }

    /// One simulation step of the snake itself. The candidate head is one
    /// cell from the current head along the current direction; if the
    /// current head already sits on the wall of that axis, nothing changes
    /// and the tick fails terminally. Otherwise the candidate becomes the
    /// new head; on `grow` the tail is kept (length + 1), else it is
    /// dropped (length constant).
    pub fn advance(&mut self, window: &Window, grow: bool) -> (r: Result<
        SnakeBehaviour,
        CollisionFailure,
    >)
        requires
            old(self).wf(),
            window.fits(),
        ensures
            final(self).wf(),
            final(self).dir == old(self).dir,
            r is Err <==> blocked(old(self).head(), old(self).dir, *window),
            r is Err ==> final(self).body@ == old(self).body@,
            r is Ok ==> final(self).body@ == body_after(*old(self), grow) && r == Ok::<
                SnakeBehaviour,
                CollisionFailure,
            >(outcome_of(grow)),
    {
        let head = self.body[0];
        let new_head: (i32, i32);

        match self.dir {
            Direction::Left => {
                if head.0 <= 0 {
                    return Err(CollisionFailure);
                }
                new_head = (head.0 - 1, head.1);
            },
            Direction::Right => {
                if head.0 >= window.width as i32 {
                    return Err(CollisionFailure);
                }
                new_head = (head.0 + 1, head.1);
            },
            Direction::Up => {
                if head.1 <= 0 {
                    return Err(CollisionFailure);
                }
                new_head = (head.0, head.1 - 1);
            },
            Direction::Down => {
                if head.1 >= window.height as i32 {
                    return Err(CollisionFailure);
                }
                new_head = (head.0, head.1 + 1);
            },
        }

        self.body.insert(0, new_head);

        if grow {
            proof {
                assert(self.body@ =~= body_after(*old(self), true));
            }
            return Ok(SnakeBehaviour::Eat);
        }

        self.body.pop();
        proof {
            assert(self.body@ =~= body_after(*old(self), false));
        }
        Ok(SnakeBehaviour::Move)
    }

    /// Apply a requested direction under the anti-reversal rule: the exact
    /// opposite of the current direction is silently rejected, anything
    /// else is adopted. The body is untouched.
    pub fn set_direction(&mut self, requested: Direction)
        ensures
            final(self).body@ == old(self).body@,
            final(self).dir == dir_after(old(self).dir, requested),
    {
        let opp = match self.dir {
            Direction::Right => Direction::Left,
            Direction::Left => Direction::Right,
            Direction::Up => Direction::Down,
            Direction::Down => Direction::Up,
        };

        if requested != opp {
            self.dir = requested;
        }
    }
}

/// The food: a single cell on the grid.
pub struct Food {
    pub position: (i32, i32),
}

/// Relies on `rand::Rng::gen_range` on the thread-local generator of
/// `rand::thread_rng`: for a non-empty range `0..n` it returns a uniformly
/// distributed value of the range and never panics.
#[verifier::external_body]
fn random_below(n: i32) -> (r: i32)
    requires
        n >= 1,
    ensures
        0 <= r < n,
{
    rand::thread_rng().gen_range(0..n)
}

impl Food {
    /// The food is eaten exactly when it sits on the snake's head.
    pub fn is_eaten(&self, snake: &Snake) -> (r: bool)
        requires
            snake.wf(),
        ensures
            r == (self.position == snake.head()),
    {
        let head = snake.body[0];
        self.position.0 == head.0 && self.position.1 == head.1
    }

    /// Move the food to a random cell of the grid: each coordinate is drawn
    /// uniformly from `[0, bound)` in cells. Cells occupied by the snake are
    /// not excluded.
    pub fn relocate(&mut self, window: &Window)
        requires
            window.fits(),
            window.width >= 1,
            window.height >= 1,
        ensures
            0 <= final(self).position.0 < window.width as int,
            0 <= final(self).position.1 < window.height as int,
    {
        let x = random_below(window.width as i32);
        let y = random_below(window.height as i32);
        self.position = (x, y);
    }
}

/// The simulation core of a session: the snake, the food and the immutable
/// window bounds, driven one tick at a time by an external event loop.
pub struct Game {
    pub snake: Snake,
    pub food: Food,
    pub window: Window,
}

impl Game {
    /// A game in play: the snake is non-empty and the bounds allow both the
    /// boundary check (they fit in `i32`) and food placement (at least one
    /// cell on each axis).
    pub open spec fn wf(&self) -> bool {
        &&& self.snake.wf()
        &&& self.window.fits()
        &&& self.window.width >= 1
        &&& self.window.height >= 1
    }

    /// One simulation tick. If the food sits on the snake's head it is
    /// relocated at random and the snake advances growing; otherwise the
    /// snake advances keeping its length. A failed advance is terminal: the
    /// snake is unchanged and the driver must stop issuing ticks. On
    /// `Ok(Eat)` the driver is expected to raise the tick rate.
    pub fn update(&mut self) -> (r: Result<SnakeBehaviour, CollisionFailure>)
        requires
            old(self).wf(),
        ensures
            final(self).wf(),
            final(self).window == old(self).window,
            final(self).snake.dir == old(self).snake.dir,
            ({
                let eaten = old(self).food.position == old(self).snake.head();
                let blk = blocked(old(self).snake.head(), old(self).snake.dir, old(self).window);
                &&& (r is Err <==> blk)
                &&& (blk ==> final(self).snake.body@ == old(self).snake.body@)
                &&& (!blk ==> final(self).snake.body@ == body_after(old(self).snake, eaten) && r
                    == Ok::<SnakeBehaviour, CollisionFailure>(outcome_of(eaten)))
                &&& (eaten ==> 0 <= final(self).food.position.0 < old(self).window.width as int && 0
                    <= final(self).food.position.1 < old(self).window.height as int)
                &&& (!eaten ==> final(self).food.position == old(self).food.position)
            }),
    {
        if self.food.is_eaten(&self.snake) {
            self.food.relocate(&self.window);
            self.snake.advance(&self.window, true)
        } else {
            self.snake.advance(&self.window, false)
        }
    }

    /// Apply one directional input to the snake, under the anti-reversal
    /// rule. Inputs that do not name a direction never reach the core: the
    /// driver drops them.
    pub fn pressed(&mut self, requested: Direction)
        ensures
            final(self).snake.body@ == old(self).snake.body@,
            final(self).snake.dir == dir_after(old(self).snake.dir, requested),
            final(self).food.position == old(self).food.position,
            final(self).window == old(self).window,
    {
        self.snake.set_direction(requested);
    }
}

/// A non-growing advance from an unblocked head keeps the body length and
/// moves the head exactly one cell along the axis of the direction.
pub proof fn law_plain_advance(s: Snake, w: Window)
    requires
        s.wf(),
        w.fits(),
        !blocked(s.head(), s.dir, w),
    ensures
        body_after(s, false).len() == s.body@.len(),
        body_after(s, false)[0].0 == s.head().0 + step_x(s.dir),
        body_after(s, false)[0].1 == s.head().1 + step_y(s.dir),
{
}

/// A growing advance from an unblocked head lengthens the body by exactly
/// one cell: the candidate head stands in front and the whole previous body
/// follows unchanged.
pub proof fn law_growing_advance(s: Snake, w: Window)
    requires
        s.wf(),
        w.fits(),
        !blocked(s.head(), s.dir, w),
    ensures
        body_after(s, true).len() == s.body@.len() + 1,
        body_after(s, true)[0] == candidate_head(s.head(), s.dir),
        body_after(s, true).skip(1) == s.body@,
{
    assert(body_after(s, true).skip(1) =~= s.body@);
}

/// For a head inside the closed box `[0, width] x [0, height]`, a step is
/// blocked exactly when the candidate head would leave that box.
pub proof fn law_collision_iff_outside(head: (i32, i32), d: Direction, w: Window)
    requires
        in_box(head.0 as int, head.1 as int, w),
    ensures
        blocked(head, d, w) <==> !in_box(head.0 + step_x(d), head.1 + step_y(d), w),
{
}

/// Applying the same requested direction twice leaves the same direction as
/// applying it once.
pub proof fn law_set_direction_idempotent(cur: Direction, requested: Direction)
    ensures
        dir_after(dir_after(cur, requested), requested) == dir_after(cur, requested),
{
}

/// A requested direction is rejected exactly when it is the 180-degree
/// reverse of the current one.
pub proof fn law_reversal_rejected(cur: Direction, requested: Direction)
    ensures
        dir_after(cur, requested) != requested <==> requested == opposite(cur),
{
}

} // verus!
