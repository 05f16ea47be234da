//! The level: a grid of cells with a floor height for each, and the queries
//! that movement and combat put to it.
use crate::fixed::{clamp_int, lemma_mul_bound, sq, trunc_div};
use vstd::prelude::*;

verus! {

/// Side of a grid cell.
pub const CELL_SIZE: i64 = 4_000_000;

/// Half the side of a grid cell.
pub const HALF_CELL: i64 = 2_000_000;

/// Largest width or height of a level, in cells.
pub const MAX_DIM: usize = 0x10000;

/// Largest magnitude of a floor height: 2^39 millionths.
pub const HEIGHT_LIMIT: i64 = 0x80_0000_0000;

/// The cell symbol of a wall.
pub const WALL: char = '#';

pub struct Level {
    pub width: usize,
    pub height: usize,
    pub grid: Vec<Vec<char>>,
    /// Height of each cell's floor.
    pub floor_heights: Vec<Vec<i64>>,
    pub name: String,
}

/// The mathematical content of a `Level`.
pub struct LevelView {
    pub width: nat,
    pub height: nat,
    pub grid: Seq<Seq<char>>,
    pub floor_heights: Seq<Seq<i64>>,
    pub name: Seq<char>,
}

/// The grid index of the cell that holds the coordinate `c`.
pub open spec fn cell_index(c: int) -> int {
    trunc_div(c, CELL_SIZE as int)
}

/// The coordinate of the middle of the cell with grid index `g`.
pub open spec fn cell_center(g: int) -> int {
    g * CELL_SIZE + HALF_CELL
}

/// A circle of the given radius around (x, z) reaches into the square
/// footprint of the cell (gx, gz): the point of the square closest to the
/// centre is nearer than the radius.
pub open spec fn touches_cell(x: int, z: int, radius: int, gx: int, gz: int) -> bool {
    let cx = clamp_int(x, gx * CELL_SIZE, (gx + 1) * CELL_SIZE);
    let cz = clamp_int(z, gz * CELL_SIZE, (gz + 1) * CELL_SIZE);
    sq(x - cx) + sq(z - cz) < sq(radius)
}

/// Cell (x1, y1) comes before cell (x2, y2) when the grid is read row by row.
pub open spec fn cell_before(x1: int, y1: int, x2: int, y2: int) -> bool {
    y1 < y2 || (y1 == y2 && x1 < x2)
}

impl LevelView {
    /// Grid and floor heights are rectangles of the stated size, and the
    /// sizes and heights are within the limits of the arithmetic.
    pub open spec fn wf(self) -> bool {
        &&& self.width <= MAX_DIM
        &&& self.height <= MAX_DIM
        &&& self.grid.len() == self.height
        &&& self.floor_heights.len() == self.height
        &&& forall|y: int| 0 <= y < self.height ==> (#[trigger] self.grid[y]).len() == self.width
        &&& forall|y: int|
            0 <= y < self.height ==> (#[trigger] self.floor_heights[y]).len() == self.width
        &&& forall|x: int, y: int|
            0 <= y < self.height && 0 <= x < self.width ==> -HEIGHT_LIMIT
                <= #[trigger] self.floor_heights[y][x] <= HEIGHT_LIMIT
    }

    /// The cell (x, y) lies inside the grid.
    pub open spec fn in_grid(self, x: int, y: int) -> bool {
        0 <= x < self.width && 0 <= y < self.height
    }

    /// A cell is solid when it is a wall or lies outside the grid.
    pub open spec fn is_wall(self, x: int, y: int) -> bool {
        !self.in_grid(x, y) || self.grid[y][x] == WALL
    }

    /// The floor height under the point (x, z); 0 outside the grid.
    pub open spec fn floor_height(self, x: int, z: int) -> int {
        if self.in_grid(cell_index(x), cell_index(z)) {
            self.floor_heights[cell_index(z)][cell_index(x)] as int
        } else {
            0
        }
    }

    /// A circle around (x, z) reaches into a solid cell among the nine cells
    /// around its own.
    pub open spec fn check_collision(self, x: int, z: int, radius: int) -> bool {
        exists|dx: int, dy: int|
            -1 <= dx <= 1 && -1 <= dy <= 1 && #[trigger] self.is_wall(
                cell_index(x) + dx,
                cell_index(z) + dy,
            ) && touches_cell(x, z, radius, cell_index(x) + dx, cell_index(z) + dy)
    }

    /// The cell (x, y) holds the symbol `c`.
    pub open spec fn holds(self, c: char, x: int, y: int) -> bool {
        self.in_grid(x, y) && self.grid[y][x] == c
    }

    /// Some cell holds the symbol `c`.
    pub open spec fn has_symbol(self, c: char) -> bool {
        exists|x: int, y: int| self.holds(c, x, y)
    }

    /// (x, y) is the first cell, reading row by row, that holds `c`.
    pub open spec fn is_first(self, c: char, x: int, y: int) -> bool {
        &&& self.holds(c, x, y)
        &&& forall|x2: int, y2: int| #[trigger] self.holds(c, x2, y2) ==> !cell_before(x2, y2, x, y)
    }
}

impl View for Level {
    type V = LevelView;

    open spec fn view(&self) -> LevelView {
        LevelView {
            width: self.width as nat,
            height: self.height as nat,
            grid: Seq::new(self.grid@.len(), |y: int| self.grid@[y]@),
            floor_heights: Seq::new(self.floor_heights@.len(), |y: int| self.floor_heights@[y]@),
            name: self.name@,
        }
    }
}

impl Level {
    pub open spec fn wf(&self) -> bool {
        self@.wf()
    }

    /// Whether grid and floor heights are rectangles of the stated size, and
    /// sizes and heights within their limits.
    pub fn is_valid(&self) -> (b: bool)
        ensures
            b == self.wf(),
    {
        if self.width > MAX_DIM || self.height > MAX_DIM || self.grid.len() != self.height
            || self.floor_heights.len() != self.height {
            return false;
        }
        let mut y: usize = 0;
        while y < self.height
            invariant
                y <= self.height,
                self.width <= MAX_DIM,
                self.height <= MAX_DIM,
                self.grid@.len() == self.height,
                self.floor_heights@.len() == self.height,
                forall|k: int| 0 <= k < y ==> (#[trigger] self@.grid[k]).len() == self.width,
                forall|k: int| 0 <= k < y ==> (#[trigger] self@.floor_heights[k]).len() == self.width,
                forall|x: int, k: int|
                    0 <= k < y && 0 <= x < self.width ==> -HEIGHT_LIMIT
                        <= #[trigger] self@.floor_heights[k][x] <= HEIGHT_LIMIT,
            decreases self.height - y,
        {
            assert(self@.grid[y as int] == self.grid@[y as int]@);
            assert(self@.floor_heights[y as int] == self.floor_heights@[y as int]@);
            if self.grid[y].len() != self.width || self.floor_heights[y].len() != self.width {
                return false;
            }
            let mut x: usize = 0;
            while x < self.width
                invariant
                    x <= self.width,
                    y < self.height,
                    self.floor_heights@.len() == self.height,
                    self.floor_heights@[y as int]@.len() == self.width,
                    self@.floor_heights[y as int] == self.floor_heights@[y as int]@,
                    forall|c: int|
                        0 <= c < x ==> -HEIGHT_LIMIT <= #[trigger] self@.floor_heights[y as int][c]
                            <= HEIGHT_LIMIT,
                decreases self.width - x,
            {
                let h = self.floor_heights[y][x];
                if h < -HEIGHT_LIMIT || h > HEIGHT_LIMIT {
                    assert(self@.floor_heights[y as int][x as int] == h);
                    return false;
                }
                x += 1;
            }
            y += 1;
        }
        true
    }

    /// A table of `height` rows of `width` cells, every cell at height `h`.
    pub fn uniform_heights(width: usize, height: usize, h: i64) -> (t: Vec<Vec<i64>>)
        ensures
            t@.len() == height,
            forall|y: int| 0 <= y < height ==> (#[trigger] t@[y])@ == Seq::new(width as nat, |x: int| h),
    {
        let mut t: Vec<Vec<i64>> = Vec::new();
        let mut y: usize = 0;
        while y < height
            invariant
                y <= height,
                t@.len() == y,
                forall|k: int| 0 <= k < y ==> (#[trigger] t@[k])@ == Seq::new(width as nat, |x: int| h),
            decreases height - y,
        {
            let mut row: Vec<i64> = Vec::new();
            let mut x: usize = 0;
            while x < width
                invariant
                    x <= width,
                    row@ == Seq::new(x as nat, |k: int| h),
                decreases width - x,
            {
                row.push(h);
                assert(row@ =~= Seq::new((x + 1) as nat, |k: int| h));
                x += 1;
            }
            t.push(row);
            y += 1;
        }
        t
    }

    /// Whether the cell (x, y) is solid. What lies outside the grid is solid.
    pub fn is_wall(&self, x: i64, y: i64) -> (b: bool)
        requires
            self.wf(),
        ensures
            b == self@.is_wall(x as int, y as int),
    {
        if x < 0 || y < 0 || x >= self.width as i64 || y >= self.height as i64 {
            return true;
        }
        assert(self@.grid[y as int] == self.grid@[y as int]@);
        self.grid[y as usize][x as usize] == WALL
    }

    /// The floor height under the point (x, z), or 0 outside the grid.
    pub fn get_floor_height(&self, x: i64, z: i64) -> (h: i64)
        requires
            self.wf(),
        ensures
            h == self@.floor_height(x as int, z as int),
            -HEIGHT_LIMIT <= h <= HEIGHT_LIMIT,
    {
        let gx = x / CELL_SIZE;
        let gz = z / CELL_SIZE;
        if 0 <= gx && 0 <= gz && gz < self.height as i64 && gx < self.width as i64 {
            assert(self@.floor_heights[gz as int] == self.floor_heights@[gz as int]@);
            assert(self@.floor_heights[gz as int][gx as int] == self.floor_heights@[gz as int]@[gx as int]);
            self.floor_heights[gz as usize][gx as usize]
        } else {
            0
        }
    }

    /// Whether a circle of the given radius around (x, z) overlaps a solid
    /// cell. Only the nine cells around the circle's centre are looked at.
    pub fn check_collision(&self, x: i64, z: i64, radius: i64) -> (hit: bool)
        requires
            self.wf(),
        ensures
            hit == self@.check_collision(x as int, z as int, radius as int),
    {
        let gx = x / CELL_SIZE;
        let gz = z / CELL_SIZE;
        proof {
            lemma_mul_bound(radius as int, radius as int, 0x8000_0000_0000_0000, 0x8000_0000_0000_0000);
        }
        let r2: i128 = (radius as i128) * (radius as i128);
        let mut dy: i64 = -1;
        while dy <= 1
            invariant
                self.wf(),
                gx == cell_index(x as int),
                gz == cell_index(z as int),
                r2 == sq(radius as int),
                -1 <= dy <= 2,
                forall|ex: int, ey: int|
                    -1 <= ex <= 1 && -1 <= ey < dy ==> !(#[trigger] self@.is_wall(gx + ex, gz + ey)
                        && touches_cell(x as int, z as int, radius as int, gx + ex, gz + ey)),
            decreases 2 - dy,
        {
            let mut dx: i64 = -1;
            while dx <= 1
                invariant
                    self.wf(),
                    gx == cell_index(x as int),
                    gz == cell_index(z as int),
                    r2 == sq(radius as int),
                    -1 <= dy <= 1,
                    -1 <= dx <= 2,
                    forall|ex: int, ey: int|
                        -1 <= ex <= 1 && -1 <= ey < dy ==> !(#[trigger] self@.is_wall(
                            gx + ex,
                            gz + ey,
                        ) && touches_cell(x as int, z as int, radius as int, gx + ex, gz + ey)),
                    forall|ex: int|
                        -1 <= ex < dx ==> !(#[trigger] self@.is_wall(gx + ex, gz + dy)
                            && touches_cell(x as int, z as int, radius as int, gx + ex, gz + dy)),
                decreases 2 - dx,
            {
                if self.is_wall(gx + dx, gz + dy) && circle_touches_cell(x, z, r2, gx + dx, gz + dy) {
                    return true;
                }
                dx += 1;
            }
            dy += 1;
        }
        false
    }
}

/// Whether the circle around (x, z) whose squared radius is `r2` reaches
/// into the cell (gx, gz), one of the nine cells around the circle's centre.
fn circle_touches_cell(x: i64, z: i64, r2: i128, gx: i64, gz: i64) -> (b: bool)
    requires
        cell_index(x as int) - 1 <= gx <= cell_index(x as int) + 1,
        cell_index(z as int) - 1 <= gz <= cell_index(z as int) + 1,
    ensures
        b == (sq(x - clamp_int(x as int, gx * CELL_SIZE, (gx + 1) * CELL_SIZE)) + sq(
            z - clamp_int(z as int, gz * CELL_SIZE, (gz + 1) * CELL_SIZE),
        ) < r2),
{
    let ox = offset_to_cell(x, gx);
    let oz = offset_to_cell(z, gz);
    assert(0 <= ox * ox <= 64_000_000_000_000) by (nonlinear_arith)
        requires
            -8_000_000 <= ox <= 8_000_000,
    ;
    assert(0 <= oz * oz <= 64_000_000_000_000) by (nonlinear_arith)
        requires
            -8_000_000 <= oz <= 8_000_000,
    ;
    (ox as i128) * (ox as i128) + (oz as i128) * (oz as i128) < r2
}

/// The distance along one axis from the coordinate `c` to the nearest point
/// of the cell column (or row) `g`, which is next to the one that holds `c`.
fn offset_to_cell(c: i64, g: i64) -> (d: i64)
    requires
        cell_index(c as int) - 1 <= g <= cell_index(c as int) + 1,
    ensures
        d == c - clamp_int(c as int, g * CELL_SIZE, (g + 1) * CELL_SIZE),
        -2 * CELL_SIZE <= d <= 2 * CELL_SIZE,
{
    proof {
        lemma_mul_bound(g as int, CELL_SIZE as int, 0x8000_0000_0000_0000, CELL_SIZE as int);
        assert((g + 1) * CELL_SIZE == g * CELL_SIZE + CELL_SIZE) by (nonlinear_arith);
        assert(g * CELL_SIZE == g * 4_000_000);
    }
    let lo: i128 = (g as i128) * (CELL_SIZE as i128);
    let hi: i128 = lo + CELL_SIZE as i128;
    let wide: i128 = c as i128;
    let nearest: i128 = if wide < lo {
        lo
    } else if wide > hi {
        hi
    } else {
        wide
    };
    (wide - nearest) as i64
}

} // verus!
