use bevy_compute_noise::readback::util::align_byte_size;
use bevy_compute_noise::readback::util::get_aligned_size;
use bevy_compute_noise::readback::util::layout_data;
use bevy_compute_noise::readback::util::ImageDataLayout;
use bevy_compute_noise::readback::util::COPY_BYTES_PER_ROW_ALIGNMENT;

#[test]
fn align_byte_size_pads_to_the_next_block() {
    assert_eq!(align_byte_size(4), 256);
    assert_eq!(align_byte_size(300), 512);
    assert_eq!(align_byte_size(0), 256);
    assert_eq!(align_byte_size(255), 256);
    assert_eq!(align_byte_size(257), 512);
}

#[test]
fn align_byte_size_of_a_full_block_adds_one_more() {
    assert_eq!(align_byte_size(256), 512);
    assert_eq!(align_byte_size(512), 768);
}

#[test]
fn align_byte_size_is_a_multiple_above_the_value() {
    for value in [0u32, 1, 4, 255, 256, 300, 1000, 65_535, 1_000_000] {
        let aligned = align_byte_size(value);
        assert_eq!(aligned % COPY_BYTES_PER_ROW_ALIGNMENT, 0);
        assert!(value < aligned);
        assert!(aligned <= value + COPY_BYTES_PER_ROW_ALIGNMENT);
    }
}

#[test]
fn get_aligned_size_counts_padded_rows() {
    assert_eq!(get_aligned_size(4, 4, 1), 1024);
    assert_eq!(get_aligned_size(300, 2, 1), 1024);
    assert_eq!(get_aligned_size(128, 128, 4), 128 * 768);
    assert_eq!(get_aligned_size(10, 0, 4), 0);
    assert_eq!(get_aligned_size(0, 3, 4), 768);
}

#[test]
fn layout_data_of_one_row_needs_no_pitch() {
    assert_eq!(
        layout_data(64, 1, 1, 4),
        ImageDataLayout { offset: 0, bytes_per_row: None, rows_per_image: None }
    );
}

#[test]
fn layout_data_pads_rows_and_counts_layers() {
    assert_eq!(
        layout_data(4, 4, 1, 1),
        ImageDataLayout { offset: 0, bytes_per_row: Some(256), rows_per_image: None }
    );
    assert_eq!(
        layout_data(300, 2, 1, 1),
        ImageDataLayout { offset: 0, bytes_per_row: Some(512), rows_per_image: None }
    );
    assert_eq!(
        layout_data(32, 32, 32, 4),
        ImageDataLayout { offset: 0, bytes_per_row: Some(256), rows_per_image: Some(32) }
    );
    assert_eq!(
        layout_data(64, 1, 2, 4),
        ImageDataLayout { offset: 0, bytes_per_row: None, rows_per_image: Some(2) }
    );
}
