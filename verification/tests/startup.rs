use point_cloud::cloud::Dimensions;
use point_cloud::origin::Origin;
use point_cloud::render::PointCloudRender;
use point_cloud::setup::setup_point_cloud;
use point_cloud::setup::PointCloudSetup;
use point_cloud::setup::SETUP_DEPTH;
use point_cloud::setup::SETUP_HEIGHT;
use point_cloud::setup::SETUP_WIDTH;

#[test]
fn startup_cloud_is_three_by_two_by_one_at_zero() {
    assert_eq!((SETUP_WIDTH, SETUP_DEPTH, SETUP_HEIGHT), (3, 2, 1));
    let setup: PointCloudSetup = setup_point_cloud();
    let zero: Origin = Origin::from_bits(0, 0, 0);
    assert_eq!(f32::from_bits(zero.x_bits), 0.0);
    assert_eq!(setup.point_cloud.origin(), zero);
    assert_eq!(setup.point_cloud.len(), 6);
    assert_eq!(setup.point_cloud.dimensions(), Dimensions { x: 3, y: 1, z: 2 });
    assert_eq!(setup.point_cloud_render.origin, zero);
    assert_eq!(setup.point_cloud_render.instance_material_data.len(), 6);
    assert!(setup.point_cloud_render.visible);
    assert!(!setup.point_cloud_render.frustum_culling);
}

#[test]
fn startup_field_and_attributes_cover_the_same_cells() {
    let setup: PointCloudSetup = setup_point_cloud();
    assert_eq!(
        setup.point_cloud.points().len(),
        setup.point_cloud_render.instance_material_data.len()
    );
    let again: PointCloudRender = PointCloudRender::new(Origin::from_bits(0, 0, 0), 3, 2, 1).unwrap();
    assert_eq!(setup.point_cloud_render.instance_material_data, again.instance_material_data);
}
