//! Pixel geometry for the rendering layer: where the snake's polyline and
//! each food's rectangle sit on a grid of `TILE_SIZE`-pixel cells. The
//! drawing itself happens outside the library; these functions only compute
//! the coordinates it needs.

use vstd::prelude::*;

use crate::food::Food;
use crate::grid::{GridPosition, TILE_SIZE};
use crate::snake::Snake;

verus! {

/// The pixel coordinate of the center of the cell at grid coordinate `c`.
pub open spec fn cell_center(c: int) -> int {
    c * (TILE_SIZE as int) + (TILE_SIZE as int) / 2
}

/// Machine-level room to map grid coordinate `c` to pixels: the scaled
/// coordinate and every offset within the cell stay an `i32`.
pub open spec fn fits_px(c: int) -> bool {
    &&& i32::MIN <= c * (TILE_SIZE as int)
    &&& c * (TILE_SIZE as int) + (TILE_SIZE as int) <= i32::MAX
}

/// True iff every coordinate of `p` can be mapped to pixels.
pub open spec fn fits_px_pos(p: GridPosition) -> bool {
    fits_px(p.x as int) && fits_px(p.y as int)
}

/// One polyline segment in pixel coordinates, joining two cell centers.
#[derive(Copy, Clone, Debug, PartialEq, Eq, Structural)]
pub struct Segment {
    pub x1: i32,
    pub y1: i32,
    pub x2: i32,
    pub y2: i32,
}

impl Snake {
    /// The polyline joining the centers of adjacent body cells, in pixel
    /// coordinates: one segment per adjacent pair, in body order, so a
    /// single-cell snake yields no segments.
    #[verifier::loop_isolation(false)]
    pub fn segments(&self) -> (v: Vec<Segment>)
        requires
            self.wf(),
            forall|i: int| 0 <= i < self@.body.len() ==> fits_px_pos(#[trigger] self@.body[i]),
        ensures
            v@.len() == self@.body.len() - 1,
            forall|i: int|
                0 <= i < v@.len() ==> #[trigger] v@[i] == (Segment {
                    x1: cell_center(self@.body[i].x as int) as i32,
                    y1: cell_center(self@.body[i].y as int) as i32,
                    x2: cell_center(self@.body[i + 1].x as int) as i32,
                    y2: cell_center(self@.body[i + 1].y as int) as i32,
                }),
    {
        let tile: i32 = TILE_SIZE as i32;
        let mut v: Vec<Segment> = Vec::new();
        let mut i: usize = 0;
        while i < self.pos.len() - 1
            invariant
                i <= self.pos.len() - 1,
                v@.len() == i,
                forall|k: int|
                    0 <= k < v@.len() ==> #[trigger] v@[k] == (Segment {
                        x1: cell_center(self@.body[k].x as int) as i32,
                        y1: cell_center(self@.body[k].y as int) as i32,
                        x2: cell_center(self@.body[k + 1].x as int) as i32,
                        y2: cell_center(self@.body[k + 1].y as int) as i32,
                    }),
            decreases self.pos.len() - 1 - i,
        {
            let a: GridPosition = self.pos[i];
            let b: GridPosition = self.pos[i + 1];
            let s = Segment {
                x1: a.x * tile + tile / 2,
                y1: a.y * tile + tile / 2,
                x2: b.x * tile + tile / 2,
                y2: b.y * tile + tile / 2,
            };
            v.push(s);
            i = i + 1;
        }
        v
    }
}

impl Food {
    /// The filled rectangle for this food in pixel coordinates: its cell,
    /// inset two pixels on each side; origin first, then width and height.
    pub fn rect(&self) -> (r: (i32, i32, u32, u32))
        requires
            fits_px_pos(self.pos),
        ensures
            r.0 == self.pos.x * (TILE_SIZE as int) + 2,
            r.1 == self.pos.y * (TILE_SIZE as int) + 2,
            r.2 == TILE_SIZE - 4,
            r.3 == TILE_SIZE - 4,
    {
        let tile: i32 = TILE_SIZE as i32;
        (
            self.pos.x * tile + 2,
            self.pos.y * tile + 2,
            (TILE_SIZE - 4) as u32,
            (TILE_SIZE - 4) as u32,
        )
    }
}

} // verus!
