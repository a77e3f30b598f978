//! The two generators side by side: what their results share, and the one
//! cloud that is set up when the host starts.

use vstd::prelude::*;
use crate::cloud::PointCloud;
use crate::cloud::PointCloudView;
use crate::cloud::FIELD_SEED;
use crate::grid::cell_count;
use crate::origin::Origin;
use crate::render::PointCloudRender;

verus! {

/// Width of the cloud that is set up at startup.
pub const SETUP_WIDTH: usize = 3;

/// Depth of the cloud that is set up at startup.
pub const SETUP_DEPTH: usize = 2;

/// Height of the cloud that is set up at startup.
pub const SETUP_HEIGHT: usize = 1;

/// The point `(0, 0, 0)`: all three bit patterns are zero.
pub open spec fn zero_origin() -> Origin {
    Origin { x_bits: 0, y_bits: 0, z_bits: 0 }
}

/// A scalar field and the render data of a grid of the same dimensions have
/// the same number of entries: `width * depth * height` values and as many
/// records.
pub proof fn lemma_one_record_per_value(
    cloud: PointCloudView,
    render: PointCloudRender,
    seed: u64,
    origin: Origin,
    width: usize,
    depth: usize,
    height: usize,
)
    requires
        cloud.is_drawn_from(seed, origin, width, depth, height),
        render.is_render_of(origin, width as int, depth as int, height as int),
    ensures
        cloud.points.len() == cell_count(width as int, depth as int, height as int),
        render.instance_material_data@.len() == cloud.points.len(),
{
}

/// The scalar field and the render data of one cloud. The host attaches the
/// render data as a child of the entity that carries the field.
#[derive(Debug)]
pub struct PointCloudSetup {
    pub point_cloud: PointCloud,
    pub point_cloud_render: PointCloudRender,
}

/// Builds the cloud that is shown at startup: a grid of three by two by one
/// cells at the point `(0, 0, 0)`.
pub fn setup_point_cloud() -> (setup: PointCloudSetup)
    ensures
        setup.point_cloud@.is_drawn_from(
            FIELD_SEED,
            zero_origin(),
            SETUP_WIDTH,
            SETUP_DEPTH,
            SETUP_HEIGHT,
        ),
        setup.point_cloud@.wf(),
        setup.point_cloud_render.is_render_of(
            zero_origin(),
            SETUP_WIDTH as int,
            SETUP_DEPTH as int,
            SETUP_HEIGHT as int,
        ),
{
    let origin = Origin::from_bits(0, 0, 0);
    let point_cloud = PointCloud::new(origin, SETUP_WIDTH, SETUP_DEPTH, SETUP_HEIGHT);
    let point_cloud_render = PointCloudRender::new(origin, SETUP_WIDTH, SETUP_DEPTH, SETUP_HEIGHT);
    PointCloudSetup {
        point_cloud: point_cloud.unwrap(),
        point_cloud_render: point_cloud_render.unwrap(),
    }
}

} // verus!
