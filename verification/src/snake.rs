//! The snake: an ordered chain of body cells with a heading and growth debt.

use std::collections::VecDeque;

use vstd::prelude::*;

use crate::grid::{delta_x, delta_y, is_opposite, moved, Direction, GridPosition};

verus! {

/// Mathematical model of a snake: the body cells head-first, the current
/// heading, and how many future ticks keep the tail (growth still owed).
pub ghost struct SnakeModel {
    pub body: Seq<GridPosition>,
    pub facing: Direction,
    pub pending: int,
}

/// One tick of the movement rule: the cell one unit from the head in the
/// current heading becomes the new head; a snake with no growth owed drops
/// its tail, any other keeps the tail and pays one unit of the debt. A
/// negative debt therefore also keeps the tail, growing more negative.
pub open spec fn snake_step(m: SnakeModel) -> SnakeModel {
    let h = moved(m.body[0], m.facing);
    if m.pending == 0 {
        SnakeModel { body: seq![h] + m.body.drop_last(), facing: m.facing, pending: m.pending }
    } else {
        SnakeModel { body: seq![h] + m.body, facing: m.facing, pending: m.pending - 1 }
    }
}

/// The movement rule iterated `n` ticks.
pub open spec fn snake_steps(m: SnakeModel, n: nat) -> SnakeModel
    decreases n,
{
    if n == 0 {
        m
    } else {
        snake_step(snake_steps(m, (n - 1) as nat))
    }
}

/// The machine-level room needed to advance `n` ticks: the head coordinate
/// on the moving axis stays an `i32`, and paying the growth debt never
/// underflows one.
pub open spec fn can_advance(m: SnakeModel, n: int) -> bool {
    &&& (match m.facing {
        Direction::Up => m.body[0].y - n >= i32::MIN,
        Direction::Down => m.body[0].y + n <= i32::MAX,
        Direction::Left => m.body[0].x - n >= i32::MIN,
        Direction::Right => m.body[0].x + n <= i32::MAX,
    })
    &&& (m.pending >= 0 || m.pending - n >= i32::MIN)
}

/// How iterating the movement rule moves the head, pays the debt, and keeps
/// the body non-empty, after any number of ticks the machine has room for.
pub proof fn lemma_snake_steps(m: SnakeModel, k: nat)
    requires
        m.body.len() >= 1,
        can_advance(m, k as int),
    ensures
        snake_steps(m, k).facing == m.facing,
        snake_steps(m, k).body.len() >= 1,
        m.facing is Up ==> snake_steps(m, k).body[0] == (GridPosition {
            x: m.body[0].x,
            y: (m.body[0].y - k) as i32,
        }),
        m.facing is Down ==> snake_steps(m, k).body[0] == (GridPosition {
            x: m.body[0].x,
            y: (m.body[0].y + k) as i32,
        }),
        m.facing is Left ==> snake_steps(m, k).body[0] == (GridPosition {
            x: (m.body[0].x - k) as i32,
            y: m.body[0].y,
        }),
        m.facing is Right ==> snake_steps(m, k).body[0] == (GridPosition {
            x: (m.body[0].x + k) as i32,
            y: m.body[0].y,
        }),
        m.pending >= 0 ==> 0 <= snake_steps(m, k).pending <= m.pending,
        m.pending < 0 ==> snake_steps(m, k).pending == m.pending - k,
    decreases k,
{
    if k > 0 {
        lemma_snake_steps(m, (k - 1) as nat);
    }
}

/// A player-controlled snake on the grid.
pub struct Snake {
    pub pos: VecDeque<GridPosition>,
    pub facing: Direction,
    pub remaining_extensions: i32,
}

impl View for Snake {
    type V = SnakeModel;

    open spec fn view(&self) -> SnakeModel {
        SnakeModel {
            body: self.pos@,
            facing: self.facing,
            pending: self.remaining_extensions as int,
        }
    }
}

impl Snake {
    /// The lifecycle invariant: the body always holds at least one cell.
    pub open spec fn wf(&self) -> bool {
        self@.body.len() >= 1
    }

    /// Builds a snake from its body cells (head first) and a heading, with
    /// no growth owed yet.
    pub fn new(pos: VecDeque<GridPosition>, facing: Direction) -> (s: Snake)
        requires
            pos@.len() >= 1,
        ensures
            s@.body == pos@,
            s@.facing == facing,
            s@.pending == 0,
            s.wf(),
    {
        Snake { pos, facing, remaining_extensions: 0 }
    }

    /// Requests a heading change. Rejected exactly when the snake has more
    /// than one body cell and the request is the exact reverse of the
    /// current heading; a rejected request leaves the snake untouched, an
    /// accepted one changes only the heading.
    pub fn point(&mut self, dir: Direction) -> (r: bool)
        requires
            old(self).wf(),
        ensures
            final(self).wf(),
            r == !(is_opposite(old(self).facing, dir) && old(self)@.body.len() > 1),
            final(self)@.body == old(self)@.body,
            final(self)@.pending == old(self)@.pending,
            final(self)@.facing == if r {
                dir
            } else {
                old(self)@.facing
            },
            !r ==> *final(self) == *old(self),
    {
        if !Direction::opposite(self.facing, dir) || self.pos.len() == 1 {
            self.facing = dir;
            return true;
        }
        false
    }

    /// Advances `dist` ticks of the movement rule. No wraparound, no bounds
    /// clamping, no self-collision check: the snake may leave the nominal
    /// grid or cross itself freely.
    #[verifier::loop_isolation(false)]
    pub fn forward(&mut self, dist: u32)
        requires
            old(self).wf(),
            can_advance(old(self)@, dist as int),
        ensures
            final(self)@ == snake_steps(old(self)@, dist as nat),
            final(self).wf(),
    {
        let ghost m0 = self@;
        let mut k: u32 = 0;
        while k < dist
            invariant
                k <= dist,
                self@ == snake_steps(m0, k as nat),
                self.wf(),
            decreases dist - k,
        {
            proof {
                lemma_snake_steps(m0, k as nat);
            }
            let ghost prev = self@;
            let front: GridPosition = self.pos[0];
            let next: GridPosition = match self.facing {
                Direction::Up => GridPosition { x: front.x, y: front.y - 1 },
                Direction::Down => GridPosition { x: front.x, y: front.y + 1 },
                Direction::Left => GridPosition { x: front.x - 1, y: front.y },
                Direction::Right => GridPosition { x: front.x + 1, y: front.y },
            };
            self.pos.push_front(next);
            if self.remaining_extensions == 0 {
                self.pos.pop_back();
                proof {
                    assert(self@.body =~= seq![moved(prev.body[0], prev.facing)]
                        + prev.body.drop_last());
                }
            } else {
                self.remaining_extensions = self.remaining_extensions - 1;
            }
            k = k + 1;
            proof {
                assert(self@ == snake_step(snake_steps(m0, (k - 1) as nat)));
            }
        }
    }

    /// Adds `i` ticks' worth of growth debt: the next that many ticks keep
    /// the tail instead of dropping it.
    pub fn extend(&mut self, i: i32)
        requires
            i32::MIN <= old(self)@.pending + i <= i32::MAX,
        ensures
            final(self)@.body == old(self)@.body,
            final(self)@.facing == old(self)@.facing,
            final(self)@.pending == old(self)@.pending + i,
    {
        self.remaining_extensions = self.remaining_extensions + i;
    }

    /// The front cell. The lifecycle invariant keeps the body non-empty, so
    /// the head always exists.
    pub fn head(&self) -> (h: GridPosition)
        requires
            self.wf(),
        ensures
            h == self@.body[0],
    {
        self.pos[0]
    }

    /// One tick: advance by a single cell.
    pub fn step(&mut self)
        requires
            old(self).wf(),
            can_advance(old(self)@, 1),
        ensures
            final(self)@ == snake_step(old(self)@),
            final(self).wf(),
    {
        self.forward(1);
        proof {
            assert(snake_steps(old(self)@, 0nat) == old(self)@);
            assert(snake_steps(old(self)@, 1nat) == snake_step(old(self)@));
        }
    }
}

/// Law: one tick with no growth owed preserves the body length and the debt;
/// one tick with growth owed lengthens the body by one cell and pays one
/// unit of the debt.
pub proof fn lemma_step_length(m: SnakeModel)
    requires
        m.body.len() >= 1,
    ensures
        m.pending == 0 ==> snake_step(m).body.len() == m.body.len() && snake_step(m).pending
            == 0,
        m.pending > 0 ==> snake_step(m).body.len() == m.body.len() + 1 && snake_step(m).pending
            == m.pending - 1,
{
}

/// Law: after one tick the head sits exactly one unit from the prior head
/// along the axis of the heading, and every other cell takes its
/// predecessor's prior place, a rigid shift of the chain.
pub proof fn lemma_step_shift(m: SnakeModel)
    requires
        m.body.len() >= 1,
        can_advance(m, 1),
    ensures
        snake_step(m).body[0] == moved(m.body[0], m.facing),
        snake_step(m).body[0].x - m.body[0].x == delta_x(m.facing),
        snake_step(m).body[0].y - m.body[0].y == delta_y(m.facing),
        forall|i: int|
            1 <= i < snake_step(m).body.len() ==> snake_step(m).body[i] == m.body[i - 1],
{
}

} // verus!
