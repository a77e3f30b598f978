//! The instance attributes of a point cloud: for every cell of the grid a
//! position, a scale and a colour, each derived from the cell's coordinates.

use vstd::prelude::*;
use crate::error::PointCloudError;
use crate::grid::cell_count;
use crate::grid::coord_x;
use crate::grid::coord_y;
use crate::grid::coord_z;
use crate::grid::lemma_coords_in_grid;
use crate::grid::lemma_index_round_trip;
use crate::grid::GridDimensions;
use crate::origin::Origin;
use crate::ratio::whole;
use crate::ratio::Ratio;
use crate::ratio::Rational;

verus! {

/// Distance between neighbouring cells is `SPACING_NUM / SPACING_DEN`.
pub const SPACING_NUM: u128 = 3;

pub const SPACING_DEN: u128 = 10;

/// Every instance is drawn at the size `SCALE_NUM / SCALE_DEN`.
pub const SCALE_NUM: u128 = 1;

pub const SCALE_DEN: u128 = 10;

/// Degrees of a full turn of the hue circle.
pub const HUE_TURN: u128 = 360;

/// Saturation runs from `SATURATION_BASE_NUM / SATURATION_DEN` upwards, over
/// a span of `SATURATION_SPAN_NUM / SATURATION_DEN`.
pub const SATURATION_BASE_NUM: u128 = 3;

pub const SATURATION_SPAN_NUM: u128 = 7;

pub const SATURATION_DEN: u128 = 10;

/// Lightness of every instance is `LIGHTNESS_NUM / LIGHTNESS_DEN`.
pub const LIGHTNESS_NUM: u128 = 1;

pub const LIGHTNESS_DEN: u128 = 2;

/// Every instance is opaque.
pub const ALPHA_NUM: u128 = 1;

pub const ALPHA_DEN: u128 = 1;

/// Offset of a cell from the origin along one axis, for the coordinate `c`
/// of the cell on that axis.
pub open spec fn offset_of(c: int) -> Rational {
    Rational { num: SPACING_NUM as int * c, den: SPACING_DEN as int }
}

/// Size of every instance.
pub open spec fn uniform_scale() -> Rational {
    Rational { num: SCALE_NUM as int, den: SCALE_DEN as int }
}

/// Hue in degrees of the cell at `idx`: the fraction `x / width` of a full turn.
pub open spec fn hue_at(idx: int, width: int) -> Rational {
    Rational { num: HUE_TURN as int * coord_x(idx, width), den: width }
}

/// Saturation of the cell at `idx`: the fraction `z / depth` of the span,
/// above the base.
pub open spec fn saturation_at(idx: int, width: int, depth: int) -> Rational {
    Rational {
        num: SATURATION_SPAN_NUM as int * coord_z(idx, width, depth) + SATURATION_BASE_NUM as int
            * depth,
        den: SATURATION_DEN as int * depth,
    }
}

/// The least saturation that a cell can have.
pub open spec fn saturation_base() -> Rational {
    Rational { num: SATURATION_BASE_NUM as int, den: SATURATION_DEN as int }
}

/// Lightness of every instance.
pub open spec fn uniform_lightness() -> Rational {
    Rational { num: LIGHTNESS_NUM as int, den: LIGHTNESS_DEN as int }
}

/// Opacity of every instance.
pub open spec fn uniform_alpha() -> Rational {
    Rational { num: ALPHA_NUM as int, den: ALPHA_DEN as int }
}

/// Offset of an instance from the origin of its cloud.
#[derive(Debug, Clone, Copy, PartialEq, Eq, Structural)]
pub struct Position {
    pub x: Ratio,
    pub y: Ratio,
    pub z: Ratio,
}

/// A colour by hue in degrees, saturation, lightness and opacity.
#[derive(Debug, Clone, Copy, PartialEq, Eq, Structural)]
pub struct Hsla {
    pub hue: Ratio,
    pub saturation: Ratio,
    pub lightness: Ratio,
    pub alpha: Ratio,
}

impl Hsla {
    /// The hue lies in `[0, 360)`, the other three components in `[0, 1]`.
    pub open spec fn in_gamut(&self) -> bool {
        &&& self.hue@.wf() && self.hue@.lt(whole(HUE_TURN as int))
        &&& self.saturation@.wf() && self.saturation@.le(whole(1))
        &&& self.lightness@.wf() && self.lightness@.le(whole(1))
        &&& self.alpha@.wf() && self.alpha@.le(whole(1))
    }
}

/// The attributes of one instance.
#[derive(Debug, Clone, Copy, PartialEq, Eq, Structural)]
pub struct InstanceData {
    pub position: Position,
    pub scale: Ratio,
    pub color: Hsla,
}

impl InstanceData {
    /// Whether `self` holds the attributes of the cell at linear index `idx`.
    /// Every field is fixed by this, so at most one record belongs to a cell.
    pub open spec fn is_cell(&self, idx: int, width: int, depth: int, height: int) -> bool {
        &&& self.position.x@ == offset_of(coord_x(idx, width))
        &&& self.position.y@ == offset_of(coord_y(idx, width, depth, height))
        &&& self.position.z@ == offset_of(coord_z(idx, width, depth))
        &&& self.scale@ == uniform_scale()
        &&& self.color.hue@ == hue_at(idx, width)
        &&& self.color.saturation@ == saturation_at(idx, width, depth)
        &&& self.color.lightness@ == uniform_lightness()
        &&& self.color.alpha@ == uniform_alpha()
    }

    /// The attributes of the cell at linear index `idx` of `grid`.
    pub fn for_cell(grid: &GridDimensions, idx: usize) -> (rec: InstanceData)
        ensures
            rec.is_cell(
                idx as int,
                grid.width() as int,
                grid.depth() as int,
                grid.height() as int,
            ),
            rec.color.in_gamut(),
    {
        let c = grid.index_to_coord(idx);
        let width = grid.width();
        let depth = grid.depth();
        let x: u128 = c.x as u128;
        let y: u128 = c.y as u128;
        let z: u128 = c.z as u128;
        let rec = InstanceData {
            position: Position {
                x: Ratio { num: SPACING_NUM * x, den: SPACING_DEN },
                y: Ratio { num: SPACING_NUM * y, den: SPACING_DEN },
                z: Ratio { num: SPACING_NUM * z, den: SPACING_DEN },
            },
            scale: Ratio { num: SCALE_NUM, den: SCALE_DEN },
            color: Hsla {
                hue: Ratio { num: HUE_TURN * x, den: width as u128 },
                saturation: Ratio {
                    num: SATURATION_SPAN_NUM * z + SATURATION_BASE_NUM * (depth as u128),
                    den: SATURATION_DEN * (depth as u128),
                },
                lightness: Ratio { num: LIGHTNESS_NUM, den: LIGHTNESS_DEN },
                alpha: Ratio { num: ALPHA_NUM, den: ALPHA_DEN },
            },
        };
        proof {
            lemma_color_in_gamut(idx as int, width as int, depth as int);
        }
        rec
    }
}

/// For every cell the hue lies in `[0, 360)` and the saturation in
/// `[3/10, 1]`; lightness and opacity are constants in `[0, 1]`.
pub proof fn lemma_color_in_gamut(idx: int, width: int, depth: int)
    requires
        0 < width,
        0 < depth,
        0 <= idx,
    ensures
        hue_at(idx, width).wf(),
        hue_at(idx, width).lt(whole(HUE_TURN as int)),
        saturation_at(idx, width, depth).wf(),
        saturation_base().le(saturation_at(idx, width, depth)),
        saturation_at(idx, width, depth).le(whole(1)),
        uniform_lightness().wf() && uniform_lightness().le(whole(1)),
        uniform_alpha().wf() && uniform_alpha().le(whole(1)),
{
    lemma_coords_in_grid(idx, width, depth, 1);
    let x = coord_x(idx, width);
    let z = coord_z(idx, width, depth);
    let turn = HUE_TURN as int;
    let (base, span, tenth) = (
        SATURATION_BASE_NUM as int,
        SATURATION_SPAN_NUM as int,
        SATURATION_DEN as int,
    );
    assert(0 <= turn * x && (turn * x) * 1 < turn * width) by (nonlinear_arith)
        requires
            turn == 360,
            0 <= x < width,
    ;
    assert({
        &&& 0 <= span * z + base * depth
        &&& 0 < tenth * depth
        &&& base * (tenth * depth) <= (span * z + base * depth) * tenth
        &&& (span * z + base * depth) * 1 <= 1 * (tenth * depth)
    }) by (nonlinear_arith)
        requires
            base == 3,
            span == 7,
            tenth == 10,
            0 <= z < depth,
    ;
}

/// Along a row of the grid the hue rises strictly: of two cells with the same
/// `y` and `z`, the one with the larger index has the larger hue, and both
/// hues stay below a full turn.
pub proof fn lemma_hue_rises_along_row(i: int, j: int, width: int, depth: int, height: int)
    requires
        0 < width,
        0 < depth,
        0 < height,
        0 <= i < j < cell_count(width, depth, height),
        coord_y(i, width, depth, height) == coord_y(j, width, depth, height),
        coord_z(i, width, depth) == coord_z(j, width, depth),
    ensures
        coord_x(i, width) < coord_x(j, width),
        hue_at(i, width).lt(hue_at(j, width)),
        hue_at(j, width).lt(whole(HUE_TURN as int)),
{
    lemma_index_round_trip(i, width, depth, height);
    lemma_index_round_trip(j, width, depth, height);
    lemma_color_in_gamut(j, width, depth);
    let xi = coord_x(i, width);
    let xj = coord_x(j, width);
    let turn = HUE_TURN as int;
    assert((turn * xi) * width < (turn * xj) * width) by (nonlinear_arith)
        requires
            turn == 360,
            xi < xj,
            0 < width,
    ;
}

/// What the renderer needs of a point cloud: where it is anchored, the
/// attributes of its instances, and how it is to be shown.
#[derive(Debug)]
pub struct PointCloudRender {
    /// Where the cloud's local transform places it.
    pub origin: Origin,
    /// One record per cell, in the order of the linear index.
    pub instance_material_data: Vec<InstanceData>,
    /// The cloud is shown.
    pub visible: bool,
    /// View-frustum culling is switched off for the cloud: the bounds of the
    /// shared mesh say nothing of where the instances are.
    pub frustum_culling: bool,
}

impl PointCloudRender {
    /// Whether `self` is the render data of a `width * depth * height` grid
    /// anchored at `origin`.
    pub open spec fn is_render_of(&self, origin: Origin, width: int, depth: int, height: int) -> bool {
        &&& self.origin == origin
        &&& self.visible
        &&& !self.frustum_culling
        &&& self.instance_material_data@.len() == cell_count(width, depth, height)
        &&& forall|idx: int|
            0 <= idx < self.instance_material_data@.len()
                ==> (#[trigger] self.instance_material_data@[idx]).is_cell(idx, width, depth, height)
    }

    /// Derives the instance attributes of every cell of the grid. A grid with
    /// a zero dimension is refused.
    pub fn new(origin: Origin, width: usize, depth: usize, height: usize) -> (res: Result<
        PointCloudRender,
        PointCloudError,
    >)
        requires
            cell_count(width as int, depth as int, height as int) <= usize::MAX,
        ensures
            res is Err <==> (width == 0 || depth == 0 || height == 0),
            res matches Err(e) ==> e == PointCloudError::InvalidDimensions,
            res matches Ok(r) ==> r.is_render_of(origin, width as int, depth as int, height as int),
            res matches Ok(r) ==> forall|idx: int|
                0 <= idx < r.instance_material_data@.len()
                    ==> (#[trigger] r.instance_material_data@[idx]).color.in_gamut(),
    {
        let grid = match GridDimensions::new(width, depth, height) {
            Ok(grid) => grid,
            Err(e) => {
                return Err(e);
            },
        };
        let len = grid.len();
        let mut instance_data: Vec<InstanceData> = Vec::with_capacity(len);
        let mut idx: usize = 0;
        while idx < len
            invariant
                idx <= len,
                len == cell_count(width as int, depth as int, height as int),
                grid.width() == width,
                grid.depth() == depth,
                grid.height() == height,
                instance_data@.len() == idx,
                forall|k: int|
                    0 <= k < idx ==> (#[trigger] instance_data@[k]).is_cell(
                        k,
                        width as int,
                        depth as int,
                        height as int,
                    ),
                forall|k: int| 0 <= k < idx ==> (#[trigger] instance_data@[k]).color.in_gamut(),
            decreases len - idx,
        {
            instance_data.push(InstanceData::for_cell(&grid, idx));
            idx += 1;
        }
        Ok(
            PointCloudRender {
                origin,
                instance_material_data: instance_data,
                visible: true,
                frustum_culling: false,
            },
        )
    }
}

} // verus!
