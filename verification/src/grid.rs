//! The index space of the grid: its dimensions, the decomposition of a
//! linear index into cell coordinates, and the way back.

use vstd::prelude::*;
use vstd::arithmetic::div_mod::lemma_fundamental_div_mod;
use vstd::arithmetic::div_mod::lemma_fundamental_div_mod_converse;
use vstd::arithmetic::div_mod::lemma_multiply_divide_lt;
use vstd::arithmetic::div_mod::lemma_small_mod;
use crate::error::PointCloudError;

verus! {

/// Number of cells of a grid.
pub open spec fn cell_count(width: int, depth: int, height: int) -> int {
    width * depth * height
}

/// First coordinate of the cell at `idx`: the position along the width.
pub open spec fn coord_x(idx: int, width: int) -> int {
    idx % width
}

/// Second coordinate of the cell at `idx`: the position along the height.
/// The index is divided by the width and then by the depth, in that order.
pub open spec fn coord_y(idx: int, width: int, depth: int, height: int) -> int {
    (idx / width / depth) % height
}

/// Third coordinate of the cell at `idx`: the position along the depth.
pub open spec fn coord_z(idx: int, width: int, depth: int) -> int {
    (idx / width) % depth
}

/// Linear index of the cell at `(x, y, z)`: `x` runs fastest, then `z`, then `y`.
pub open spec fn linear_index(x: int, y: int, z: int, width: int, depth: int) -> int {
    x + width * z + width * depth * y
}

/// Whether `(x, y, z)` names a cell of the grid.
pub open spec fn in_grid(x: int, y: int, z: int, width: int, depth: int, height: int) -> bool {
    0 <= x < width && 0 <= y < height && 0 <= z < depth
}

/// The coordinates of every index lie inside the grid.
pub proof fn lemma_coords_in_grid(idx: int, width: int, depth: int, height: int)
    requires
        0 < width,
        0 < depth,
        0 < height,
        0 <= idx,
    ensures
        in_grid(
            coord_x(idx, width),
            coord_y(idx, width, depth, height),
            coord_z(idx, width, depth),
            width,
            depth,
            height,
        ),
{
    assert(0 <= idx / width) by (nonlinear_arith)
        requires
            0 <= idx,
            0 < width,
    ;
    assert(0 <= idx / width / depth) by (nonlinear_arith)
        requires
            0 <= idx / width,
            0 < depth,
    ;
}

/// Below the cell count the quotient `idx / width / depth` is already less than
/// the height, so the final reduction modulo the height leaves it unchanged.
pub proof fn lemma_coord_y_is_quotient(idx: int, width: int, depth: int, height: int)
    requires
        0 < width,
        0 < depth,
        0 < height,
        0 <= idx < cell_count(width, depth, height),
    ensures
        coord_y(idx, width, depth, height) == idx / width / depth,
{
    let q1 = idx / width;
    let q2 = q1 / depth;
    assert(width * depth * height == width * (depth * height)) by (nonlinear_arith);
    lemma_multiply_divide_lt(idx, width, depth * height);
    lemma_multiply_divide_lt(q1, depth, height);
    assert(0 <= q1) by (nonlinear_arith)
        requires
            0 <= idx,
            0 < width,
            q1 == idx / width,
    ;
    assert(0 <= q2) by (nonlinear_arith)
        requires
            0 <= q1,
            0 < depth,
            q2 == q1 / depth,
    ;
    lemma_small_mod(q2 as nat, height as nat);
}

/// Decomposing an index below the cell count into coordinates and recomputing
/// the linear index from them gives the index back.
pub proof fn lemma_index_round_trip(idx: int, width: int, depth: int, height: int)
    requires
        0 < width,
        0 < depth,
        0 < height,
        0 <= idx < cell_count(width, depth, height),
    ensures
        linear_index(
            coord_x(idx, width),
            coord_y(idx, width, depth, height),
            coord_z(idx, width, depth),
            width,
            depth,
        ) == idx,
{
    let q1 = idx / width;
    let q2 = q1 / depth;
    let x = idx % width;
    let z = q1 % depth;
    lemma_coord_y_is_quotient(idx, width, depth, height);
    lemma_fundamental_div_mod(idx, width);
    lemma_fundamental_div_mod(q1, depth);
    assert(x + width * z + width * depth * q2 == idx) by (nonlinear_arith)
        requires
            idx == width * q1 + x,
            q1 == depth * q2 + z,
    ;
}

/// Computing the linear index of a cell and decomposing it again gives the
/// cell's coordinates back, and the index lies below the cell count.
pub proof fn lemma_coord_round_trip(x: int, y: int, z: int, width: int, depth: int, height: int)
    requires
        in_grid(x, y, z, width, depth, height),
    ensures
        0 <= linear_index(x, y, z, width, depth) < cell_count(width, depth, height),
        coord_x(linear_index(x, y, z, width, depth), width) == x,
        coord_y(linear_index(x, y, z, width, depth), width, depth, height) == y,
        coord_z(linear_index(x, y, z, width, depth), width, depth) == z,
{
    let idx = linear_index(x, y, z, width, depth);
    let q1 = z + depth * y;
    assert(idx == q1 * width + x) by (nonlinear_arith)
        requires
            idx == x + width * z + width * depth * y,
            q1 == z + depth * y,
    ;
    assert(q1 == y * depth + z) by (nonlinear_arith)
        requires
            q1 == z + depth * y,
    ;
    assert(0 <= q1 < depth * height) by (nonlinear_arith)
        requires
            q1 == z + depth * y,
            0 <= z < depth,
            0 <= y < height,
    ;
    assert(0 <= idx < width * depth * height) by (nonlinear_arith)
        requires
            idx == q1 * width + x,
            0 <= x < width,
            0 <= q1 < depth * height,
    ;
    lemma_fundamental_div_mod_converse(idx, width, q1, x);
    lemma_fundamental_div_mod_converse(q1, depth, y, z);
    lemma_small_mod(y as nat, height as nat);
}

/// Number of cells of a grid, or `None` where that number does not fit in
/// `usize`.
pub fn checked_cell_count(width: usize, depth: usize, height: usize) -> (res: Option<usize>)
    ensures
        res is Some <==> cell_count(width as int, depth as int, height as int) <= usize::MAX,
        res matches Some(n) ==> n == cell_count(width as int, depth as int, height as int),
{
    if width == 0 || depth == 0 || height == 0 {
        assert(cell_count(width as int, depth as int, height as int) == 0) by (nonlinear_arith)
            requires
                width == 0 || depth == 0 || height == 0,
        ;
        return Some(0);
    }
    proof {
        let (w, d, h) = (width as int, depth as int, height as int);
        assert(w * d <= w * d * h) by (nonlinear_arith)
            requires
                0 < w,
                0 < d,
                0 < h,
        ;
    }
    match width.checked_mul(depth) {
        Some(area) => area.checked_mul(height),
        None => None,
    }
}

/// The cell at coordinates `x` along the width, `y` along the height and `z`
/// along the depth.
#[derive(Debug, Clone, Copy, PartialEq, Eq, Structural)]
pub struct GridCoord {
    pub x: usize,
    pub y: usize,
    pub z: usize,
}

/// The three dimensions of a grid. Every value of this type has positive
/// width, depth and height, and a cell count that fits in `usize`.
#[derive(Debug, Clone, Copy)]
pub struct GridDimensions {
    width: usize,
    depth: usize,
    height: usize,
}

impl GridDimensions {
    #[verifier::type_invariant]
    spec fn inv(&self) -> bool {
        &&& 0 < self.width
        &&& 0 < self.depth
        &&& 0 < self.height
        &&& cell_count(self.width as int, self.depth as int, self.height as int) <= usize::MAX
    }

    /// Extent along the first axis.
    pub closed spec fn spec_width(&self) -> usize {
        self.width
    }

    /// Extent along the third axis.
    pub closed spec fn spec_depth(&self) -> usize {
        self.depth
    }

    /// Extent along the second axis.
    pub closed spec fn spec_height(&self) -> usize {
        self.height
    }

    /// Number of cells.
    pub open spec fn spec_len(&self) -> int {
        cell_count(self.spec_width() as int, self.spec_depth() as int, self.spec_height() as int)
    }

    /// Checks the three dimensions. A grid with a zero dimension is refused.
    pub fn new(width: usize, depth: usize, height: usize) -> (res: Result<
        GridDimensions,
        PointCloudError,
    >)
        requires
            cell_count(width as int, depth as int, height as int) <= usize::MAX,
        ensures
            res is Err <==> (width == 0 || depth == 0 || height == 0),
            res matches Err(e) ==> e == PointCloudError::InvalidDimensions,
            res matches Ok(g) ==> g.spec_width() == width && g.spec_depth() == depth
                && g.spec_height() == height,
    {
        if width == 0 || depth == 0 || height == 0 {
            Err(PointCloudError::InvalidDimensions)
        } else {
            Ok(GridDimensions { width, depth, height })
        }
    }

    #[verifier::when_used_as_spec(spec_width)]
    pub fn width(&self) -> (w: usize)
        ensures
            w == self.spec_width(),
            w > 0,
    {
        proof {
            use_type_invariant(self);
        }
        self.width
    }

    #[verifier::when_used_as_spec(spec_depth)]
    pub fn depth(&self) -> (d: usize)
        ensures
            d == self.spec_depth(),
            d > 0,
    {
        proof {
            use_type_invariant(self);
        }
        self.depth
    }

    #[verifier::when_used_as_spec(spec_height)]
    pub fn height(&self) -> (h: usize)
        ensures
            h == self.spec_height(),
            h > 0,
    {
        proof {
            use_type_invariant(self);
        }
        self.height
    }

    /// Number of cells: `width * depth * height`.
    pub fn len(&self) -> (n: usize)
        ensures
            n == self.spec_len(),
            n > 0,
    {
        proof {
            use_type_invariant(self);
            let (w, d, h) = (self.width as int, self.depth as int, self.height as int);
            assert(0 < w * d <= w * d * h) by (nonlinear_arith)
                requires
                    0 < w,
                    0 < d,
                    0 < h,
            ;
        }
        self.width * self.depth * self.height
    }

    /// Coordinates of the cell at linear index `idx`.
    pub fn index_to_coord(&self, idx: usize) -> (c: GridCoord)
        ensures
            c.x == coord_x(idx as int, self.width() as int),
            c.y == coord_y(idx as int, self.width() as int, self.depth() as int, self.height() as int),
            c.z == coord_z(idx as int, self.width() as int, self.depth() as int),
            c.x < self.width(),
            c.y < self.height(),
            c.z < self.depth(),
    {
        proof {
            use_type_invariant(self);
            lemma_coords_in_grid(
                idx as int,
                self.width as int,
                self.depth as int,
                self.height as int,
            );
        }
        GridCoord {
            x: idx % self.width,
            y: (idx / self.width / self.depth) % self.height,
            z: (idx / self.width) % self.depth,
        }
    }

    /// Linear index of the cell `c`, or `None` where `c` lies outside the grid.
    pub fn coord_to_index(&self, c: GridCoord) -> (res: Option<usize>)
        ensures
            res is Some <==> in_grid(
                c.x as int,
                c.y as int,
                c.z as int,
                self.width() as int,
                self.depth() as int,
                self.height() as int,
            ),
            res matches Some(idx) ==> idx == linear_index(
                c.x as int,
                c.y as int,
                c.z as int,
                self.width() as int,
                self.depth() as int,
            ) && idx < self.spec_len(),
    {
        proof {
            use_type_invariant(self);
        }
        if c.x < self.width && c.y < self.height && c.z < self.depth {
            proof {
                let (w, d, h) = (self.width as int, self.depth as int, self.height as int);
                let (x, y, z) = (c.x as int, c.y as int, c.z as int);
                lemma_coord_round_trip(x, y, z, w, d, h);
                assert(0 <= d * y && 0 <= w * z && 0 <= w * d && 0 <= w * d * y) by (nonlinear_arith)
                    requires
                        0 < w,
                        0 < d,
                        0 <= y,
                        0 <= z,
                ;
                assert(w * (z + d * y) == w * z + w * d * y) by (nonlinear_arith);
                assert(z + d * y <= w * (z + d * y)) by (nonlinear_arith)
                    requires
                        0 < w,
                        0 <= z + d * y,
                ;
            }
            Some(c.x + self.width * (c.z + self.depth * c.y))
        } else {
            None
        }
    }
}

} // verus!
