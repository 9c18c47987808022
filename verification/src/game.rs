//! The world: one snake, a list of food, and the single-tick step rule.

use vstd::prelude::*;

use crate::food::Food;
use crate::grid::{in_grid, GridPosition};
use crate::snake::{can_advance, snake_step, Snake, SnakeModel};

verus! {

/// The growth debt after the foods among the first `j` that sit on cell `h`
/// have granted their power, starting from debt `base`.
pub open spec fn pending_after(foods: Seq<Food>, h: GridPosition, base: int, j: int) -> int
    decreases j,
{
    if j <= 0 {
        base
    } else {
        let p = pending_after(foods, h, base, j - 1);
        if foods[j - 1].pos == h {
            p + foods[j - 1].power
        } else {
            p
        }
    }
}

/// Machine-level room for one tick: the snake can advance one cell, and its
/// growth debt stays an `i32` while each food on the new head cell grants
/// its power in turn.
pub open spec fn step_fits(player: SnakeModel, foods: Seq<Food>) -> bool {
    &&& can_advance(player, 1)
    &&& (forall|j: int|
        0 <= j <= foods.len() ==> i32::MIN <= #[trigger] pending_after(
            foods,
            snake_step(player).body[0],
            snake_step(player).pending,
            j,
        ) <= i32::MAX)
}

/// Law: when exactly one of the foods sits on cell `h`, scanning all of them
/// grants exactly that food's power.
pub proof fn lemma_single_food_power(foods: Seq<Food>, h: GridPosition, base: int, t: int, j: int)
    requires
        0 <= t < foods.len(),
        foods[t].pos == h,
        forall|i: int| 0 <= i < foods.len() && i != t ==> foods[i].pos != h,
        0 <= j <= foods.len(),
    ensures
        pending_after(foods, h, base, j) == if t < j {
            base + foods[t].power
        } else {
            base
        },
    decreases j,
{
    if j > 0 {
        lemma_single_food_power(foods, h, base, t, j - 1);
    }
}

/// Law: a tick in which exactly one food sits on the cell the head moves
/// onto raises the growth debt by exactly that food's power. The debt a
/// tick leaves behind is what `GameState::step` promises: `pending_after`
/// over the whole food list, starting from the advanced snake's debt.
pub proof fn lemma_step_single_consumption(player: SnakeModel, foods: Seq<Food>, t: int)
    requires
        0 <= t < foods.len(),
        foods[t].pos == snake_step(player).body[0],
        forall|i: int|
            0 <= i < foods.len() && i != t ==> foods[i].pos != snake_step(player).body[0],
    ensures
        pending_after(
            foods,
            snake_step(player).body[0],
            snake_step(player).pending,
            foods.len() as int,
        ) == snake_step(player).pending + foods[t].power,
{
    lemma_single_food_power(
        foods,
        snake_step(player).body[0],
        snake_step(player).pending,
        t,
        foods.len() as int,
    );
}

/// The whole game world: the player's snake and the food on the board.
pub struct GameState {
    pub player: Snake,
    pub food: Vec<Food>,
}

impl GameState {
    /// One discrete tick. The snake first advances one cell; then every food
    /// sitting on the new head cell grants its power to the growth debt, in
    /// list order, and is replaced in place by a fresh random food of power
    /// 1; all other food stays put.
    #[verifier::loop_isolation(false)]
    pub fn step(&mut self)
        requires
            old(self).player.wf(),
            step_fits(old(self).player@, old(self).food@),
        ensures
            final(self).player.wf(),
            final(self).player@.body == snake_step(old(self).player@).body,
            final(self).player@.facing == snake_step(old(self).player@).facing,
            final(self).player@.pending == pending_after(
                old(self).food@,
                snake_step(old(self).player@).body[0],
                snake_step(old(self).player@).pending,
                old(self).food@.len() as int,
            ),
            final(self).food@.len() == old(self).food@.len(),
            forall|i: int|
                0 <= i < old(self).food@.len() && old(self).food@[i].pos != snake_step(
                    old(self).player@,
                ).body[0] ==> final(self).food@[i] == old(self).food@[i],
            forall|i: int|
                0 <= i < old(self).food@.len() && old(self).food@[i].pos == snake_step(
                    old(self).player@,
                ).body[0] ==> final(self).food@[i].power == 1 && in_grid(final(self).food@[i].pos),
    {
        let ghost s1 = snake_step(old(self).player@);
        self.player.step();
        let head: GridPosition = self.player.head();
        let mut to_replace: Vec<usize> = Vec::new();
        let mut i: usize = 0;
        while i < self.food.len()
            invariant
                i <= self.food.len(),
                self.food@ == old(self).food@,
                self.player.wf(),
                self.player@.body == s1.body,
                self.player@.facing == s1.facing,
                self.player@.pending == pending_after(old(self).food@, head, s1.pending, i as int),
                forall|k: int|
                    0 <= k < to_replace@.len() ==> 0 <= to_replace@[k] < i && old(
                        self,
                    ).food@[to_replace@[k] as int].pos == head,
                forall|i2: int|
                    0 <= i2 < i && old(self).food@[i2].pos == head ==> (exists|k: int|
                        0 <= k < to_replace@.len() && to_replace@[k] == i2),
            decreases self.food.len() - i,
        {
            if self.food[i].pos == head {
                proof {
                    assert(i32::MIN <= pending_after(
                        old(self).food@,
                        snake_step(old(self).player@).body[0],
                        snake_step(old(self).player@).pending,
                        i as int + 1,
                    ) <= i32::MAX);
                }
                let f: Food = self.food[i];
                f.eaten(&mut self.player);
                let ghost prev_tr = to_replace@;
                to_replace.push(i);
                proof {
                    let tr = to_replace@;
                    assert forall|i2: int|
                        0 <= i2 < i + 1 && old(self).food@[i2].pos
                            == head implies exists|k: int|
                        0 <= k < tr.len() && tr[k] == i2 by {
                        if i2 == i {
                            assert(tr[tr.len() - 1] == i2);
                        } else {
                            let k0 = choose|k: int|
                                0 <= k < prev_tr.len() && prev_tr[k] == i2;
                            assert(tr[k0] == i2);
                        }
                    }
                }
            }
            i = i + 1;
        }
        let ghost consumed = self.player@;
        let mut j: usize = 0;
        while j < to_replace.len()
            invariant
                j <= to_replace@.len(),
                self.player@ == consumed,
                self.player.wf(),
                self.food@.len() == old(self).food@.len(),
                forall|k: int|
                    0 <= k < to_replace@.len() ==> 0 <= to_replace@[k]
                        < old(self).food@.len() && old(self).food@[to_replace@[k] as int].pos
                        == head,
                forall|i2: int|
                    0 <= i2 < old(self).food@.len() && old(self).food@[i2].pos == head ==> (
                    exists|k: int| 0 <= k < to_replace@.len() && to_replace@[k] == i2),
                forall|i2: int|
                    0 <= i2 < old(self).food@.len() && (exists|k: int|
                        0 <= k < j && to_replace@[k] == i2) ==> self.food@[i2].power == 1
                        && in_grid(self.food@[i2].pos),
                forall|i2: int|
                    0 <= i2 < old(self).food@.len() && !(exists|k: int|
                        0 <= k < j && to_replace@[k] == i2) ==> self.food@[i2] == old(
                        self,
                    ).food@[i2],
            decreases to_replace@.len() - j,
        {
            let idx: usize = to_replace[j];
            self.food[idx] = Food::randomize(1);
            j = j + 1;
        }
    }
}

} // verus!

