use bevy_compute_noise::image::ComputeNoiseSize;
use bevy_compute_noise::image::Extent3d;
use bevy_compute_noise::image::ImageHandle;
use bevy_compute_noise::image::TextureDimension;

#[test]
fn size_accessors_of_a_flat_image() {
    let size = ComputeNoiseSize::D2(128, 64);
    assert_eq!(size.width(), 128);
    assert_eq!(size.height(), 64);
    assert_eq!(size.depth(), 1);
    assert_eq!(size.data_len(), 128 * 64);
    assert_eq!(size.dimension(), TextureDimension::D2);
}

#[test]
fn size_accessors_of_a_volume() {
    let size = ComputeNoiseSize::D3(32, 16, 8);
    assert_eq!(size.width(), 32);
    assert_eq!(size.height(), 16);
    assert_eq!(size.depth(), 8);
    assert_eq!(size.data_len(), 32 * 16 * 8);
    assert_eq!(size.dimension(), TextureDimension::D3);
}

#[test]
fn workgroup_count_divides_each_axis_by_eight() {
    assert_eq!(ComputeNoiseSize::D2(128, 128).workgroup_count(), (16, 16, 1));
    assert_eq!(ComputeNoiseSize::D3(32, 32, 32).workgroup_count(), (4, 4, 4));
    assert_eq!(ComputeNoiseSize::D3(64, 16, 8).workgroup_count(), (8, 2, 1));
}

#[test]
fn workgroup_count_rounds_down() {
    assert_eq!(ComputeNoiseSize::D2(7, 9).workgroup_count(), (0, 1, 1));
    assert_eq!(ComputeNoiseSize::D3(15, 16, 17).workgroup_count(), (1, 2, 2));
    assert_eq!(ComputeNoiseSize::D3(8, 8, 1).workgroup_count(), (1, 1, 0));
}

#[test]
fn data_len_of_an_empty_image_is_zero() {
    assert_eq!(ComputeNoiseSize::D2(0, 10).data_len(), 0);
    assert_eq!(ComputeNoiseSize::D3(4, 4, 0).data_len(), 0);
}

#[test]
fn size_to_extent() {
    assert_eq!(
        Extent3d::from(ComputeNoiseSize::D2(128, 64)),
        Extent3d { width: 128, height: 64, depth_or_array_layers: 1 }
    );
    assert_eq!(
        Extent3d::from(ComputeNoiseSize::D3(32, 16, 8)),
        Extent3d { width: 32, height: 16, depth_or_array_layers: 8 }
    );
}

#[test]
fn extent_to_size_takes_one_layer_for_flat() {
    assert_eq!(
        ComputeNoiseSize::from(Extent3d { width: 128, height: 64, depth_or_array_layers: 1 }),
        ComputeNoiseSize::D2(128, 64)
    );
    assert_eq!(
        ComputeNoiseSize::from(Extent3d { width: 32, height: 16, depth_or_array_layers: 8 }),
        ComputeNoiseSize::D3(32, 16, 8)
    );
    assert_eq!(
        ComputeNoiseSize::from(Extent3d { width: 32, height: 16, depth_or_array_layers: 0 }),
        ComputeNoiseSize::D3(32, 16, 0)
    );
}

#[test]
fn a_volume_of_depth_one_comes_back_flat() {
    let extent = Extent3d::from(ComputeNoiseSize::D3(32, 16, 1));
    assert_eq!(ComputeNoiseSize::from(extent), ComputeNoiseSize::D2(32, 16));
}

#[test]
fn size_to_dimension() {
    assert_eq!(TextureDimension::from(ComputeNoiseSize::D2(1, 1)), TextureDimension::D2);
    assert_eq!(TextureDimension::from(ComputeNoiseSize::D3(1, 1, 1)), TextureDimension::D3);
}

#[test]
fn the_default_handle_is_the_placeholder() {
    assert_eq!(ImageHandle::default(), ImageHandle::new(0));
    assert_ne!(ImageHandle::default(), ImageHandle::new(1));
}
