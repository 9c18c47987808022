//! Food items and their random placement on the nominal grid.

use rand::Rng;
use rand::SeedableRng;
use vstd::prelude::*;

use crate::grid::{in_grid, GridPosition, GRID_SIZE_X, GRID_SIZE_Y};
use crate::snake::Snake;

verus! {

/// Relies on rand's `StdRng::from_entropy` and `Rng::gen_range`: a freshly
/// entropy-seeded generator draws one value uniformly from `[0, n)`.
/// `gen_range` panics only on an empty range, which `n > 0` rules out.
#[verifier::external_body]
fn random_below(n: u16) -> (r: u16)
    requires
        n > 0,
    ensures
        r < n,
{
    rand::rngs::StdRng::from_entropy().gen_range(0..n)
}

/// A food item: a cell and the growth granted when the snake eats it.
#[derive(Copy, Clone, Debug, PartialEq, Eq, Structural)]
pub struct Food {
    pub pos: GridPosition,
    pub power: i32,
}

impl Food {
    /// Places a food item at an explicit cell.
    pub fn new(pos: GridPosition, power: i32) -> (f: Food)
        ensures
            f.pos == pos,
            f.power == power,
    {
        Food { pos, power }
    }

    /// Places a food item at a fresh uniformly random cell of the nominal
    /// grid. Each call reseeds from entropy, so two draws are independent
    /// and may coincide with each other or with the snake's body.
    pub fn randomize(power: i32) -> (f: Food)
        ensures
            f.power == power,
            in_grid(f.pos),
    {
        let x: u16 = random_below(GRID_SIZE_X);
        let y: u16 = random_below(GRID_SIZE_Y);
        Food { pos: GridPosition { x: x as i32, y: y as i32 }, power }
    }

    /// Grants this food's power to the snake's growth debt. Removing or
    /// replacing the eaten item is the caller's business.
    pub fn eaten(&self, snake: &mut Snake)
        requires
            i32::MIN <= old(snake)@.pending + self.power <= i32::MAX,
        ensures
            final(snake)@.body == old(snake)@.body,
            final(snake)@.facing == old(snake)@.facing,
            final(snake)@.pending == old(snake)@.pending + self.power,
    {
        snake.extend(self.power);
    }
}

} // verus!
