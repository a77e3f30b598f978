use point_cloud::cloud::Dimensions;
use point_cloud::cloud::PointCloud;
use point_cloud::cloud::FIELD_MAX;
use point_cloud::cloud::FIELD_MIN;
use point_cloud::cloud::FIELD_SEED;
use point_cloud::error::PointCloudError;
use point_cloud::origin::Origin;

fn origin_of(x: f32, y: f32, z: f32) -> Origin {
    Origin::from_bits(x.to_bits(), y.to_bits(), z.to_bits())
}

fn reference_draws(seed: u64, len: usize) -> Vec<i32> {
    let rng = fastrand::Rng::with_seed(seed);
    let mut values: Vec<i32> = Vec::with_capacity(len);
    for _ in 0..len {
        values.push(rng.i32(-16..=16));
    }
    values
}

#[test]
fn field_constants_are_as_documented() {
    assert_eq!(FIELD_MIN, -16);
    assert_eq!(FIELD_MAX, 16);
    assert_eq!(FIELD_SEED, 1);
}

#[test]
fn cloud_has_one_value_per_cell() {
    let cloud: PointCloud = PointCloud::new(origin_of(0.0, 0.0, 0.0), 3, 2, 1).unwrap();
    assert_eq!(cloud.len(), 6);
    assert_eq!(cloud.points().len(), 6);
    let bigger: PointCloud = PointCloud::new(origin_of(0.0, 0.0, 0.0), 5, 4, 3).unwrap();
    assert_eq!(bigger.len(), 60);
    assert_eq!(bigger.points().len(), 60);
}

#[test]
fn cloud_stores_dimensions_as_width_height_depth() {
    let cloud: PointCloud = PointCloud::new(origin_of(0.0, 0.0, 0.0), 3, 2, 1).unwrap();
    assert_eq!(cloud.dimensions(), Dimensions { x: 3, y: 1, z: 2 });
    let other: PointCloud = PointCloud::new(origin_of(0.0, 0.0, 0.0), 5, 7, 11).unwrap();
    assert_eq!(other.dimensions(), Dimensions { x: 5, y: 11, z: 7 });
}

#[test]
fn cloud_keeps_its_origin_bit_for_bit() {
    let origin: Origin = origin_of(1.5, -2.25, 1.0e-3);
    let cloud: PointCloud = PointCloud::new(origin, 2, 2, 2).unwrap();
    assert_eq!(cloud.origin(), origin);
    assert_eq!(f32::from_bits(cloud.origin().x_bits), 1.5);
    assert_eq!(f32::from_bits(cloud.origin().y_bits), -2.25);
    assert_eq!(f32::from_bits(cloud.origin().z_bits), 1.0e-3);
}

#[test]
fn every_field_value_lies_in_range() {
    let cloud: PointCloud = PointCloud::new(origin_of(0.0, 0.0, 0.0), 16, 16, 16).unwrap();
    assert_eq!(cloud.len(), 4096);
    assert!(cloud.points().iter().all(|v| -16 <= *v && *v <= 16));
    assert!(cloud.points().iter().any(|v| *v != cloud.points()[0]));
}

#[test]
fn field_is_the_same_on_every_run() {
    let first: PointCloud = PointCloud::new(origin_of(0.0, 0.0, 0.0), 4, 3, 2).unwrap();
    let second: PointCloud = PointCloud::new(origin_of(0.0, 0.0, 0.0), 4, 3, 2).unwrap();
    assert_eq!(first.points(), second.points());
    assert_eq!(first.dimensions(), second.dimensions());
    assert_eq!(first.origin(), second.origin());
}

#[test]
fn field_is_what_the_seeded_generator_draws() {
    let cloud: PointCloud = PointCloud::new(origin_of(0.0, 0.0, 0.0), 3, 2, 1).unwrap();
    assert_eq!(*cloud.points(), reference_draws(1, 6));
    let bigger: PointCloud = PointCloud::new(origin_of(0.0, 0.0, 0.0), 7, 5, 3).unwrap();
    assert_eq!(*bigger.points(), reference_draws(1, 105));
}

#[test]
fn field_of_the_fixed_seed_has_these_values() {
    let cloud: PointCloud = PointCloud::new(origin_of(0.0, 0.0, 0.0), 3, 2, 1).unwrap();
    assert_eq!(*cloud.points(), vec![13, -13, -10, 16, -15, 15]);
}

#[test]
fn field_of_a_smaller_grid_is_a_prefix_of_a_larger_one() {
    let small: PointCloud = PointCloud::new(origin_of(0.0, 0.0, 0.0), 3, 2, 1).unwrap();
    let large: PointCloud = PointCloud::new(origin_of(0.0, 0.0, 0.0), 3, 2, 4).unwrap();
    assert_eq!(small.points()[..], large.points()[..6]);
}

#[test]
fn new_draws_from_the_fixed_seed() {
    let by_default: PointCloud = PointCloud::new(origin_of(0.0, 0.0, 0.0), 4, 4, 4).unwrap();
    let by_seed: PointCloud =
        PointCloud::with_seed(origin_of(0.0, 0.0, 0.0), 4, 4, 4, FIELD_SEED).unwrap();
    assert_eq!(by_default.points(), by_seed.points());
}

#[test]
fn seed_selects_the_field() {
    for seed in [0u64, 1, 2, 7, 0x4d595df4d0f33173, u64::MAX] {
        let cloud: PointCloud =
            PointCloud::with_seed(origin_of(0.0, 0.0, 0.0), 4, 4, 4, seed).unwrap();
        assert_eq!(*cloud.points(), reference_draws(seed, 64));
        assert!(cloud.points().iter().all(|v| -16 <= *v && *v <= 16));
    }
    let one: PointCloud = PointCloud::with_seed(origin_of(0.0, 0.0, 0.0), 4, 4, 4, 1).unwrap();
    let two: PointCloud = PointCloud::with_seed(origin_of(0.0, 0.0, 0.0), 4, 4, 4, 2).unwrap();
    assert_ne!(one.points(), two.points());
}

#[test]
fn cloud_with_zero_width_is_refused() {
    let res = PointCloud::new(origin_of(0.0, 0.0, 0.0), 0, 2, 1);
    assert!(matches!(res, Err(PointCloudError::InvalidDimensions)));
}

#[test]
fn cloud_with_zero_depth_or_height_is_refused() {
    let res = PointCloud::new(origin_of(0.0, 0.0, 0.0), 3, 0, 1);
    assert!(matches!(res, Err(PointCloudError::InvalidDimensions)));
    let res = PointCloud::new(origin_of(0.0, 0.0, 0.0), 3, 2, 0);
    assert!(matches!(res, Err(PointCloudError::InvalidDimensions)));
    let res = PointCloud::with_seed(origin_of(0.0, 0.0, 0.0), 0, 0, 0, 9);
    assert!(matches!(res, Err(PointCloudError::InvalidDimensions)));
}

#[test]
fn cloud_from_given_values_holds_them() {
    let values: Vec<i32> = vec![-16, 0, 16, 3, -7, 1];
    let cloud: PointCloud =
        PointCloud::from_points(origin_of(1.0, 2.0, 3.0), 3, 2, 1, values.clone()).unwrap();
    assert_eq!(*cloud.points(), values);
    assert_eq!(cloud.len(), 6);
    assert_eq!(cloud.dimensions(), Dimensions { x: 3, y: 1, z: 2 });
    assert_eq!(cloud.origin(), origin_of(1.0, 2.0, 3.0));
}

#[test]
fn cloud_from_given_values_checks_dimensions_first() {
    let res = PointCloud::from_points(origin_of(0.0, 0.0, 0.0), 0, 2, 1, vec![99]);
    assert!(matches!(res, Err(PointCloudError::InvalidDimensions)));
    let res = PointCloud::from_points(origin_of(0.0, 0.0, 0.0), 1, 0, 1, vec![]);
    assert!(matches!(res, Err(PointCloudError::InvalidDimensions)));
    let res = PointCloud::from_points(origin_of(0.0, 0.0, 0.0), 1, 1, 0, vec![]);
    assert!(matches!(res, Err(PointCloudError::InvalidDimensions)));
}

#[test]
fn cloud_from_given_values_checks_their_number() {
    let res = PointCloud::from_points(origin_of(0.0, 0.0, 0.0), 3, 2, 1, vec![0; 5]);
    assert!(matches!(res, Err(PointCloudError::LengthMismatch)));
    let res = PointCloud::from_points(origin_of(0.0, 0.0, 0.0), 3, 2, 1, vec![0; 7]);
    assert!(matches!(res, Err(PointCloudError::LengthMismatch)));
    let res = PointCloud::from_points(origin_of(0.0, 0.0, 0.0), 3, 2, 1, vec![99; 5]);
    assert!(matches!(res, Err(PointCloudError::LengthMismatch)));
    let res = PointCloud::from_points(origin_of(0.0, 0.0, 0.0), usize::MAX, 2, 1, vec![0; 2]);
    assert!(matches!(res, Err(PointCloudError::LengthMismatch)));
}

#[test]
fn cloud_from_given_values_checks_their_range() {
    let res = PointCloud::from_points(origin_of(0.0, 0.0, 0.0), 3, 1, 1, vec![0, 17, 0]);
    assert!(matches!(res, Err(PointCloudError::ValueOutOfRange)));
    let res = PointCloud::from_points(origin_of(0.0, 0.0, 0.0), 3, 1, 1, vec![0, 0, -17]);
    assert!(matches!(res, Err(PointCloudError::ValueOutOfRange)));
    let res = PointCloud::from_points(origin_of(0.0, 0.0, 0.0), 1, 1, 1, vec![i32::MIN]);
    assert!(matches!(res, Err(PointCloudError::ValueOutOfRange)));
    let res = PointCloud::from_points(origin_of(0.0, 0.0, 0.0), 2, 1, 1, vec![16, -16]);
    assert!(res.is_ok());
}
