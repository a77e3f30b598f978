//! The point cloud: a scalar field with one value per cell of a grid,
//! together with the origin and the dimensions of that grid.

use vstd::prelude::*;
use crate::error::PointCloudError;
use crate::grid::cell_count;
use crate::grid::checked_cell_count;
use crate::grid::GridDimensions;
use crate::origin::Origin;
use crate::random::draw_i32;
use crate::random::draws;
use crate::random::generator_state;
use crate::random::seeded_generator;
use crate::random::state_after;

verus! {

/// Least value of the scalar field.
pub const FIELD_MIN: i32 = -16;

/// Greatest value of the scalar field.
pub const FIELD_MAX: i32 = 16;

/// Seed from which [`PointCloud::new`] draws the field.
pub const FIELD_SEED: u64 = 1;

/// The scalar field of `len` cells that is drawn from `seed`.
pub open spec fn scalar_field(seed: u64, len: nat) -> Seq<i32> {
    draws(seed, len, FIELD_MIN, FIELD_MAX)
}

/// Whether every value of `points` lies in the range of the scalar field.
pub open spec fn all_in_range(points: Seq<i32>) -> bool {
    forall|i: int| 0 <= i < points.len() ==> FIELD_MIN <= #[trigger] points[i] <= FIELD_MAX
}

/// The dimensions of a cloud as a vector: `x` is the width, `y` the height
/// and `z` the depth.
#[derive(Debug, Clone, Copy, PartialEq, Eq, Structural)]
pub struct Dimensions {
    pub x: usize,
    pub y: usize,
    pub z: usize,
}

/// The dimension vector of a grid of the given width, depth and height.
pub open spec fn dimension_vector(width: usize, depth: usize, height: usize) -> Dimensions {
    Dimensions { x: width, y: height, z: depth }
}

/// What a point cloud holds.
pub struct PointCloudView {
    pub points: Seq<i32>,
    pub origin: Origin,
    pub dimensions: Dimensions,
}

impl PointCloudView {
    /// The dimensions are positive, the field has one value per cell, and
    /// every value lies in the range of the field.
    pub open spec fn wf(self) -> bool {
        &&& 0 < self.dimensions.x
        &&& 0 < self.dimensions.y
        &&& 0 < self.dimensions.z
        &&& self.points.len() == self.dimensions.x * self.dimensions.y * self.dimensions.z
        &&& all_in_range(self.points)
    }

    /// Whether this is the cloud that is drawn from `seed` over a grid of the
    /// given dimensions, anchored at `origin`.
    pub open spec fn is_drawn_from(
        self,
        seed: u64,
        origin: Origin,
        width: usize,
        depth: usize,
        height: usize,
    ) -> bool {
        &&& self.origin == origin
        &&& self.dimensions == dimension_vector(width, depth, height)
        &&& self.points == scalar_field(
            seed,
            cell_count(width as int, depth as int, height as int) as nat,
        )
    }
}

/// Drawing twice from the same seed over grids of the same dimensions gives
/// the same cloud, value for value.
pub proof fn lemma_same_seed_same_cloud(
    a: PointCloudView,
    b: PointCloudView,
    seed: u64,
    origin: Origin,
    width: usize,
    depth: usize,
    height: usize,
)
    requires
        a.is_drawn_from(seed, origin, width, depth, height),
        b.is_drawn_from(seed, origin, width, depth, height),
    ensures
        a == b,
{
}

/// A scalar field over a grid. Every value of this type is well formed in
/// the sense of [`PointCloudView::wf`].
#[derive(Debug)]
pub struct PointCloud {
    points: Vec<i32>,
    origin: Origin,
    dimensions: Dimensions,
}

impl View for PointCloud {
    type V = PointCloudView;

    closed spec fn view(&self) -> PointCloudView {
        PointCloudView { points: self.points@, origin: self.origin, dimensions: self.dimensions }
    }
}

impl PointCloud {
    #[verifier::type_invariant]
    spec fn inv(&self) -> bool {
        self@.wf()
    }

    /// Draws the scalar field of a `width * depth * height` grid from the
    /// fixed seed [`FIELD_SEED`]. A grid with a zero dimension is refused.
    pub fn new(origin: Origin, width: usize, depth: usize, height: usize) -> (res: Result<
        PointCloud,
        PointCloudError,
    >)
        requires
            cell_count(width as int, depth as int, height as int) <= usize::MAX,
        ensures
            res is Err <==> (width == 0 || depth == 0 || height == 0),
            res matches Err(e) ==> e == PointCloudError::InvalidDimensions,
            res matches Ok(cloud) ==> cloud@.is_drawn_from(FIELD_SEED, origin, width, depth, height)
                && cloud@.wf(),
    {
        PointCloud::with_seed(origin, width, depth, height, FIELD_SEED)
    }

    /// Draws the scalar field of a `width * depth * height` grid from `seed`,
    /// one value per cell in the order of the linear index. A grid with a zero
    /// dimension is refused.
    pub fn with_seed(origin: Origin, width: usize, depth: usize, height: usize, seed: u64) -> (res:
        Result<PointCloud, PointCloudError>)
        requires
            cell_count(width as int, depth as int, height as int) <= usize::MAX,
        ensures
            res is Err <==> (width == 0 || depth == 0 || height == 0),
            res matches Err(e) ==> e == PointCloudError::InvalidDimensions,
            res matches Ok(cloud) ==> cloud@.is_drawn_from(seed, origin, width, depth, height)
                && cloud@.wf(),
    {
        let grid = match GridDimensions::new(width, depth, height) {
            Ok(grid) => grid,
            Err(e) => {
                return Err(e);
            },
        };
        let len = grid.len();
        let mut points: Vec<i32> = Vec::with_capacity(len);
        let mut rng = seeded_generator(seed);
        let mut i: usize = 0;
        while i < len
            invariant
                i <= len,
                points@ == scalar_field(seed, i as nat),
                generator_state(rng) == state_after(seed, i as nat, FIELD_MIN, FIELD_MAX),
                all_in_range(points@),
            decreases len - i,
        {
            let value = draw_i32(&mut rng, FIELD_MIN, FIELD_MAX);
            points.push(value);
            i += 1;
            assert(points@ =~= scalar_field(seed, i as nat));
        }
        PointCloud::from_points(origin, width, depth, height, points)
    }

    /// The cloud that holds `points` as its scalar field. The dimensions are
    /// checked first, then the number of values, then their range.
    pub fn from_points(
        origin: Origin,
        width: usize,
        depth: usize,
        height: usize,
        points: Vec<i32>,
    ) -> (res: Result<PointCloud, PointCloudError>)
        ensures
            res == Err::<PointCloud, PointCloudError>(PointCloudError::InvalidDimensions) <==> (width
                == 0 || depth == 0 || height == 0),
            res == Err::<PointCloud, PointCloudError>(PointCloudError::LengthMismatch) <==> (width
                > 0 && depth > 0 && height > 0 && points@.len() != cell_count(
                width as int,
                depth as int,
                height as int,
            )),
            res == Err::<PointCloud, PointCloudError>(PointCloudError::ValueOutOfRange) <==> (width
                > 0 && depth > 0 && height > 0 && points@.len() == cell_count(
                width as int,
                depth as int,
                height as int,
            ) && !all_in_range(points@)),
            res is Ok <==> (width > 0 && depth > 0 && height > 0 && points@.len() == cell_count(
                width as int,
                depth as int,
                height as int,
            ) && all_in_range(points@)),
            res matches Ok(cloud) ==> cloud@ == (PointCloudView {
                points: points@,
                origin,
                dimensions: dimension_vector(width, depth, height),
            }) && cloud@.wf(),
    {
        if width == 0 || depth == 0 || height == 0 {
            return Err(PointCloudError::InvalidDimensions);
        }
        let count = checked_cell_count(width, depth, height);
        if count != Some(points.len()) {
            return Err(PointCloudError::LengthMismatch);
        }
        let mut i: usize = 0;
        while i < points.len()
            invariant
                i <= points.len(),
                width > 0 && depth > 0 && height > 0,
                points@.len() == cell_count(width as int, depth as int, height as int),
                forall|k: int| 0 <= k < i ==> FIELD_MIN <= #[trigger] points@[k] <= FIELD_MAX,
            decreases points.len() - i,
        {
            if points[i] < FIELD_MIN || points[i] > FIELD_MAX {
                return Err(PointCloudError::ValueOutOfRange);
            }
            i += 1;
        }
        proof {
            let (w, d, h) = (width as int, depth as int, height as int);
            assert(w * d * h == w * h * d) by (nonlinear_arith);
        }
        Ok(PointCloud { points, origin, dimensions: Dimensions { x: width, y: height, z: depth } })
    }

    /// Number of cells of the cloud: the product of its dimensions, which is
    /// also the number of values of its scalar field.
    pub fn len(&self) -> (n: usize)
        ensures
            n == self@.dimensions.x * self@.dimensions.y * self@.dimensions.z,
            n == self@.points.len(),
            self@.wf(),
    {
        proof {
            use_type_invariant(self);
            let (x, y, z) = (
                self.dimensions.x as int,
                self.dimensions.y as int,
                self.dimensions.z as int,
            );
            assert(0 < x * y <= x * y * z) by (nonlinear_arith)
                requires
                    0 < x,
                    0 < y,
                    0 < z,
            ;
            assert(x * y * z == self.points.len());
        }
        self.dimensions.x * self.dimensions.y * self.dimensions.z
    }

    /// The scalar field, one value per cell in the order of the linear index.
    pub fn points(&self) -> (points: &Vec<i32>)
        ensures
            points@ == self@.points,
            all_in_range(points@),
            self@.wf(),
    {
        proof {
            use_type_invariant(self);
        }
        &self.points
    }

    /// The point at which the cloud is anchored.
    pub fn origin(&self) -> (origin: Origin)
        ensures
            origin == self@.origin,
    {
        self.origin
    }

    /// The dimension vector, in the order width, height, depth.
    pub fn dimensions(&self) -> (dimensions: Dimensions)
        ensures
            dimensions == self@.dimensions,
            dimensions.x > 0 && dimensions.y > 0 && dimensions.z > 0,
    {
        proof {
            use_type_invariant(self);
        }
        self.dimensions
    }
}

} // verus!
