//! The background grid: a square array of cells, each with a mass and a velocity.
use vstd::prelude::*;

use crate::fixed::{fixed_add, fixed_div, fixed_mul, fx_add, fx_div, fx_mul};
use crate::kernel::MAX_WIDTH;
use crate::linalg::{vec2, Vec2};

verus! {

/// A grid cell. Between the scatter and the grid update `velocity` holds the
/// accumulated momentum.
#[derive(Clone, Copy, Debug, PartialEq, Eq, Structural)]
pub struct Cell {
    pub velocity: Vec2,
    pub mass: i64,
}

pub open spec fn empty_cell() -> Cell {
    Cell { velocity: Vec2 { x: 0, y: 0 }, mass: 0 }
}

/// Why a grid could not be made.
#[derive(Clone, Copy, Debug, PartialEq, Eq, Structural)]
pub enum GridError {
    /// Under three cells across: no particle would fit between the walls.
    TooNarrow,
    /// Over `MAX_WIDTH` cells across: the cells could not be counted in a
    /// 32-bit `usize`.
    TooWide,
}

/// A `width` by `width` grid; cell `(x, y)` is at index `x * width + y`.
pub struct Grid {
    pub cells: Vec<Cell>,
    pub width: usize,
}

/// Every cell emptied.
pub open spec fn reset_cells(cells: Seq<Cell>) -> Seq<Cell> {
    Seq::new(cells.len(), |i: int| empty_cell())
}

/// The wall rule: in the two rows or columns next to each wall, a velocity
/// component pointing into that wall becomes zero.
pub open spec fn wall_clamped(v: Vec2, x: int, y: int, width: int) -> Vec2 {
    let vx1 = if x < 2 && v.x < 0 { 0 } else { v.x as int };
    let vx = if x > width - 3 && vx1 > 0 { 0 } else { vx1 };
    let vy1 = if y < 2 && v.y < 0 { 0 } else { v.y as int };
    let vy = if y > width - 3 && vy1 > 0 { 0 } else { vy1 };
    vec2(vx, vy)
}

/// Cell `i` after the grid update: momentum divided by mass, gravity added to
/// the vertical component, then the wall rule. A cell without mass is kept.
pub open spec fn updated_cell(c: Cell, i: int, width: int, dt: int, gravity: int) -> Cell {
    if c.mass > 0 {
        let v = vec2(
            fx_div(c.velocity.x as int, c.mass as int),
            fx_add(fx_div(c.velocity.y as int, c.mass as int), fx_mul(dt, gravity)),
        );
        Cell { velocity: wall_clamped(v, i / width, i % width, width), mass: c.mass }
    } else {
        c
    }
}

impl Grid {
    pub open spec fn wf(&self) -> bool {
        3 <= self.width <= MAX_WIDTH && self.cells@.len() == self.width * self.width
    }

    /// An empty grid `width` cells across.
    pub fn new(width: usize) -> (r: Result<Grid, GridError>)
        ensures
            3 <= width <= MAX_WIDTH <==> r is Ok,
            width < 3 <==> r == Err::<Grid, GridError>(GridError::TooNarrow),
            width > MAX_WIDTH <==> r == Err::<Grid, GridError>(GridError::TooWide),
            r matches Ok(g) ==> g.wf() && g.width == width && g.cells@ == Seq::new(
                (width * width) as nat,
                |i: int| empty_cell(),
            ),
    {
        if width < 3 {
            return Err(GridError::TooNarrow);
        }
        if width > MAX_WIDTH {
            return Err(GridError::TooWide);
        }
        proof {
            assert(width * width <= 65535 * 65535) by (nonlinear_arith)
                requires
                    width <= 65535,
            ;
        }
        let n: usize = width * width;
        let mut cells: Vec<Cell> = Vec::new();
        let mut i: usize = 0;
        while i < n
            invariant
                i <= n,
                cells@ == Seq::new(i as nat, |j: int| empty_cell()),
            decreases n - i,
        {
            cells.push(Cell { velocity: Vec2 { x: 0, y: 0 }, mass: 0 });
            i = i + 1;
            assert(cells@ =~= Seq::new(i as nat, |j: int| empty_cell()));
        }
        Ok(Grid { cells, width })
    }

    /// Index of cell `(x, y)`.
    pub fn index_at(&self, x: usize, y: usize) -> (r: usize)
        requires
            self.wf(),
            x < self.width,
            y < self.width,
        ensures
            r == x * self.width + y,
            r < self.cells@.len(),
    {
        proof {
            let w = self.width as int;
            assert(x * w + y < w * w <= 65535 * 65535) by (nonlinear_arith)
                requires
                    x < w,
                    y < w,
                    w <= 65535,
            ;
        }
        x * self.width + y
    }

    /// Empties every cell.
    pub fn reset(&mut self)
        ensures
            final(self).width == old(self).width,
            final(self).cells@.len() == old(self).cells@.len(),
            final(self).cells@ == reset_cells(old(self).cells@),
    {
        let n = self.cells.len();
        let mut i: usize = 0;
        while i < n
            invariant
                i <= n,
                n == old(self).cells@.len(),
                self.width == old(self).width,
                self.cells@.len() == n,
                forall|j: int| 0 <= j < i ==> self.cells@[j] == empty_cell(),
            decreases n - i,
        {
            self.cells.set(i, Cell { velocity: Vec2 { x: 0, y: 0 }, mass: 0 });
            i = i + 1;
        }
        assert(self.cells@ =~= reset_cells(old(self).cells@));
    }

    /// Turns accumulated momentum into velocity, adds `dt * gravity` to the
    /// vertical component and applies the wall rule, in every cell with mass.
    pub fn update(&mut self, dt: i64, gravity: i64)
        requires
            old(self).wf(),
        ensures
            final(self).width == old(self).width,
            final(self).cells@.len() == old(self).cells@.len(),
            forall|i: int|
                0 <= i < old(self).cells@.len() ==> #[trigger] final(self).cells@[i] == updated_cell(
                    old(self).cells@[i],
                    i,
                    old(self).width as int,
                    dt as int,
                    gravity as int,
                ),
    {
        let n = self.cells.len();
        let width = self.width;
        let fall = fixed_mul(dt, gravity);
        let mut i: usize = 0;
        while i < n
            invariant
                i <= n,
                n == old(self).cells@.len(),
                width == old(self).width,
                self.width == width,
                width >= 3,
                self.cells@.len() == n,
                fall == fx_mul(dt as int, gravity as int),
                forall|j: int|
                    0 <= j < i ==> #[trigger] self.cells@[j] == updated_cell(
                        old(self).cells@[j],
                        j,
                        width as int,
                        dt as int,
                        gravity as int,
                    ),
                forall|j: int| i <= j < n ==> #[trigger] self.cells@[j] == old(self).cells@[j],
            decreases n - i,
        {
            let c = self.cells[i];
            if c.mass > 0 {
                let vx = fixed_div(c.velocity.x, c.mass);
                let vy = fixed_add(fixed_div(c.velocity.y, c.mass), fall);
                let x = i / width;
                let y = i % width;
                let vx1 = if x < 2 && vx < 0 {
                    0
                } else {
                    vx
                };
                let vx2 = if x > width - 3 && vx1 > 0 {
                    0
                } else {
                    vx1
                };
                let vy1 = if y < 2 && vy < 0 {
                    0
                } else {
                    vy
                };
                let vy2 = if y > width - 3 && vy1 > 0 {
                    0
                } else {
                    vy1
                };
                self.cells.set(i, Cell { velocity: Vec2 { x: vx2, y: vy2 }, mass: c.mass });
            }
            i = i + 1;
        }
    }
}

/// Resetting twice is resetting once: the empty grid is a fixed point.
pub proof fn lemma_reset_idempotent(cells: Seq<Cell>)
    ensures
        reset_cells(reset_cells(cells)) == reset_cells(cells),
{
    assert(reset_cells(reset_cells(cells)) =~= reset_cells(cells));
}

/// At the left wall (`x == 0`) a cell with mass keeps a velocity that points
/// right or is zero, and loses one that points left.
pub proof fn lemma_left_wall(c: Cell, y: int, width: int, dt: int, gravity: int)
    requires
        3 <= width,
        0 <= y < width,
        c.mass > 0,
    ensures
        ({
            let vx = fx_div(c.velocity.x as int, c.mass as int);
            updated_cell(c, y, width, dt, gravity).velocity.x == if vx < 0 {
                0
            } else {
                vx
            }
        }),
{
    vstd::arithmetic::div_mod::lemma_basic_div(y, width);
    vstd::arithmetic::div_mod::lemma_small_mod(y as nat, width as nat);
}

} // verus!
