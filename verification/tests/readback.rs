use bevy_compute_noise::image::ComputeNoiseSize;
use bevy_compute_noise::image::Extent3d;
use bevy_compute_noise::image::ImageHandle;
use bevy_compute_noise::image::ImageSizes;
use bevy_compute_noise::readback::extract::extract_readback_sender;
use bevy_compute_noise::readback::prepare::prepare_readback_buffers;
use bevy_compute_noise::readback::prepare::staging_buffer;
use bevy_compute_noise::readback::read::map_read_texture;
use bevy_compute_noise::readback::read::plan_deliveries;
use bevy_compute_noise::readback::read::readback_payload;
use bevy_compute_noise::readback::read::strip_row_padding;
use bevy_compute_noise::readback::read::MappedImage;
use bevy_compute_noise::readback::read::PlannedDelivery;
use bevy_compute_noise::readback::render::readback_texture;
use bevy_compute_noise::readback::render::ReadbackCopy;
use bevy_compute_noise::readback::render::RenderImage;
use bevy_compute_noise::readback::supports_readback;
use bevy_compute_noise::readback::util::get_aligned_size;
use bevy_compute_noise::readback::util::layout_data;
use bevy_compute_noise::readback::util::ImageDataLayout;
use bevy_compute_noise::readback::ComputeNoiseReadback;
use bevy_compute_noise::readback::ComputeNoiseReadbackSender;
use bevy_compute_noise::readback::ReadbackDelivery;
use bevy_compute_noise::readback::StagingBuffer;
use bevy_compute_noise::render::node::ComputeNoiseNodeState;
use bevy_compute_noise::table::Table;

fn store(entries: &[(u64, ComputeNoiseSize)]) -> ImageSizes {
    let mut images: ImageSizes = Table::new();
    for (id, size) in entries {
        images.insert(ImageHandle::new(*id), *size);
    }
    images
}

fn image(handle: u64, width: u32, height: u32, pixel_size: u32) -> RenderImage {
    RenderImage { handle: ImageHandle::new(handle), width, height, pixel_size }
}

/// A staging buffer of the image: every byte of the image is `row * 16 + column`,
/// every byte of padding is 255.
fn padded(image: RenderImage) -> Vec<u8> {
    let stride = get_aligned_size(image.width, 1, image.pixel_size) as usize;
    let row_bytes = (image.width * image.pixel_size) as usize;
    let mut data = vec![255u8; stride * image.height as usize];
    for row in 0..image.height as usize {
        for column in 0..row_bytes {
            data[row * stride + column] = (row * 16 + column) as u8;
        }
    }
    data
}

fn tight(image: RenderImage) -> Vec<u8> {
    let row_bytes = (image.width * image.pixel_size) as usize;
    let mut data = Vec::new();
    for row in 0..image.height as usize {
        for column in 0..row_bytes {
            data.push((row * 16 + column) as u8);
        }
    }
    data
}

#[test]
fn payload_has_the_tight_length_whatever_the_padding() {
    for (width, height, pixel_size) in
        [(4u32, 3u32, 1u32), (300, 2, 1), (4, 5, 4), (300, 3, 4), (64, 4, 4), (256, 2, 1), (1, 1, 1)]
    {
        let staged = vec![7u8; get_aligned_size(width, height, pixel_size) as usize];
        let payload = readback_payload(staged, width, height, pixel_size);
        assert_eq!(payload.len(), (width * height * pixel_size) as usize);
    }
}

#[test]
fn payload_keeps_the_bytes_of_the_image() {
    for picture in [image(1, 4, 3, 1), image(1, 300, 2, 1), image(1, 5, 4, 4), image(1, 256, 2, 1)] {
        let payload = readback_payload(padded(picture), picture.width, picture.height, picture.pixel_size);
        assert_eq!(payload, tight(picture));
    }
}

#[test]
fn a_tight_buffer_goes_through_as_it_is() {
    let data: Vec<u8> = (0..24).collect();
    assert_eq!(readback_payload(data.clone(), 4, 3, 2), data);
    assert_eq!(readback_payload(Vec::new(), 0, 7, 4), Vec::<u8>::new());
}

#[test]
fn an_image_without_width_has_no_bytes() {
    let staged = vec![1u8; get_aligned_size(0, 3, 4) as usize];
    assert_eq!(staged.len(), 768);
    assert_eq!(readback_payload(staged, 0, 3, 4), Vec::<u8>::new());
}

#[test]
fn strip_row_padding_drops_what_follows_the_last_whole_row() {
    let data: Vec<u8> = (0..11).collect();
    assert_eq!(strip_row_padding(&data, 2, 4), vec![0, 1, 4, 5]);
    assert_eq!(strip_row_padding(&data, 4, 4), vec![0, 1, 2, 3, 4, 5, 6, 7]);
    assert_eq!(strip_row_padding(&data, 0, 4), Vec::<u8>::new());
    assert_eq!(strip_row_padding(&data, 3, 12), Vec::<u8>::new());
    assert_eq!(strip_row_padding(&Vec::new(), 1, 2), Vec::<u8>::new());
}

#[test]
fn sizes_that_can_be_read_back() {
    assert!(supports_readback(ComputeNoiseSize::D2(128, 128), 1));
    assert!(supports_readback(ComputeNoiseSize::D2(128, 128), 16));
    assert!(supports_readback(ComputeNoiseSize::D3(512, 512, 512), 4));
    assert!(supports_readback(ComputeNoiseSize::D2(0, 0), 1));
    assert!(supports_readback(ComputeNoiseSize::D2(65_280, 65_535), 1));
    assert!(!supports_readback(ComputeNoiseSize::D2(65_280, 65_536), 1));
    assert!(!supports_readback(ComputeNoiseSize::D2(65_536, 65_535), 1));
    assert!(!supports_readback(ComputeNoiseSize::D2(65_280, 65_535), 4));
    assert!(supports_readback(ComputeNoiseSize::D2(16_320, 65_535), 4));
    assert!(!supports_readback(ComputeNoiseSize::D2(u32::MAX, 1), 1));
    assert!(!supports_readback(ComputeNoiseSize::D2(u32::MAX, 1), u32::MAX));
    assert!(!supports_readback(ComputeNoiseSize::D2(u32::MAX - 255, 0), 1));
    assert!(supports_readback(ComputeNoiseSize::D2(u32::MAX - 256, 0), 1));
    assert!(supports_readback(ComputeNoiseSize::D2(u32::MAX, 7), 0));
}

#[test]
fn the_staging_buffer_holds_padded_rows() {
    assert_eq!(staging_buffer(ComputeNoiseSize::D2(4, 4), 1), StagingBuffer { size: 1024 });
    assert_eq!(staging_buffer(ComputeNoiseSize::D2(300, 2), 1), StagingBuffer { size: 1024 });
    assert_eq!(staging_buffer(ComputeNoiseSize::D3(128, 64, 8), 1), StagingBuffer { size: 64 * 256 });
    assert_eq!(staging_buffer(ComputeNoiseSize::D2(100, 1), 4), StagingBuffer { size: 512 });
    assert_eq!(staging_buffer(ComputeNoiseSize::D2(128, 128), 4), StagingBuffer { size: 128 * 768 });
    assert_eq!(staging_buffer(ComputeNoiseSize::D2(64, 3), 4), StagingBuffer { size: 3 * 512 });
    assert_eq!(
        staging_buffer(ComputeNoiseSize::D2(100, 7), 4).size,
        get_aligned_size(100, 7, 4) as u64
    );
}

#[test]
fn the_staging_buffer_takes_the_copy_and_the_image() {
    for (width, height, pixel_size) in [(100u32, 1u32, 4u32), (4, 4, 1), (300, 2, 4), (64, 64, 16), (256, 3, 1)] {
        let buffer = staging_buffer(ComputeNoiseSize::D2(width, height), pixel_size);
        assert!(buffer.size >= (width * height * pixel_size) as u64);
        let layout = layout_data(width, height, 1, pixel_size);
        if let Some(bytes_per_row) = layout.bytes_per_row {
            assert_eq!(buffer.size, bytes_per_row as u64 * height as u64);
        }
        let staged = vec![0u8; buffer.size as usize];
        assert_eq!(
            readback_payload(staged, width, height, pixel_size).len(),
            (width * height * pixel_size) as usize
        );
    }
}

#[test]
fn a_registration_carries_the_pixel_size() {
    let images = store(&[(1, ComputeNoiseSize::D2(100, 1)), (2, ComputeNoiseSize::D2(4, 4))]);
    let mut readback = ComputeNoiseReadback::new();
    let mut senders = ComputeNoiseReadbackSender::new();
    readback.queue(&images, ImageHandle::new(1), 4);
    readback.queue(&images, ImageHandle::new(2), 1);
    readback.queue(&images, ImageHandle::new(1), 16);
    extract_readback_sender(&mut senders, &mut readback);
    prepare_readback_buffers(&mut senders);
    let wide = senders.0.get(&ImageHandle::new(1)).unwrap();
    assert_eq!(wide.pixel_size(), 4);
    assert_eq!(wide.size(), ComputeNoiseSize::D2(100, 1));
    assert_eq!(wide.buffer(), Some(StagingBuffer { size: 512 }));
    let small = senders.0.get(&ImageHandle::new(2)).unwrap();
    assert_eq!(small.pixel_size(), 1);
    assert_eq!(small.buffer(), Some(StagingBuffer { size: 1024 }));
}

#[test]
fn deliveries_are_planned_before_they_are_sent() {
    let images = store(&[(1, ComputeNoiseSize::D2(4, 2)), (2, ComputeNoiseSize::D2(300, 2))]);
    let mut readback = ComputeNoiseReadback::new();
    let mut senders = ComputeNoiseReadbackSender::new();
    readback.queue(&images, ImageHandle::new(1), 1);
    readback.queue(&images, ImageHandle::new(2), 4);
    extract_readback_sender(&mut senders, &mut readback);
    let first = image(1, 4, 2, 1);
    let second = image(2, 300, 2, 4);
    let other = image(3, 4, 2, 1);
    let mapped = || {
        vec![
            MappedImage { image: other, data: padded(other) },
            MappedImage { image: second, data: padded(second) },
            MappedImage { image: first, data: padded(first) },
            MappedImage { image: second, data: vec![1, 2, 3] },
            MappedImage { image: first, data: tight(first) },
        ]
    };
    let expected = vec![
        PlannedDelivery { image: ImageHandle::new(3), payload: None },
        PlannedDelivery { image: ImageHandle::new(2), payload: Some(tight(second)) },
        PlannedDelivery { image: ImageHandle::new(1), payload: Some(tight(first)) },
        PlannedDelivery { image: ImageHandle::new(2), payload: None },
        PlannedDelivery { image: ImageHandle::new(1), payload: None },
    ];
    assert_eq!(plan_deliveries(&senders, ComputeNoiseNodeState::Ready(0), mapped()), expected);
    assert_eq!(plan_deliveries(&senders, ComputeNoiseNodeState::Ready(1), mapped()), expected);
    assert_eq!(plan_deliveries(&senders, ComputeNoiseNodeState::Loading, mapped()), Vec::new());
    assert_eq!(senders.len(), 2);
    assert_eq!(readback.receive(ImageHandle::new(1)), None);

    let deliveries = map_read_texture(&mut senders, ComputeNoiseNodeState::Ready(0), mapped());
    assert_eq!(
        deliveries,
        vec![
            ReadbackDelivery::NotQueued,
            ReadbackDelivery::Sent,
            ReadbackDelivery::Sent,
            ReadbackDelivery::NotQueued,
            ReadbackDelivery::NotQueued,
        ]
    );
    assert_eq!(readback.receive(ImageHandle::new(2)), Some(tight(second)));
    assert_eq!(readback.receive(ImageHandle::new(1)), Some(tight(first)));
    assert_eq!(readback.receive(ImageHandle::new(2)), None);
    assert_eq!(senders.len(), 0);
}

#[test]
fn a_capture_arrives_once() {
    let images = store(&[(1, ComputeNoiseSize::D2(4, 4))]);
    let target = ImageHandle::new(1);
    let picture = image(1, 4, 4, 1);
    let mut readback = ComputeNoiseReadback::new();
    let mut senders = ComputeNoiseReadbackSender::new();

    assert_eq!(readback.receive(target), None);
    readback.queue(&images, target, 1);
    assert!(readback.is_registered(target));
    assert!(readback.is_queued(target));
    assert_eq!(readback.receive(target), None);

    extract_readback_sender(&mut senders, &mut readback);
    assert!(!readback.is_queued(target));
    assert!(senders.contains_key(target));
    prepare_readback_buffers(&mut senders);
    assert_eq!(senders.0.get(&target).unwrap().buffer(), Some(StagingBuffer { size: 1024 }));
    assert_eq!(senders.0.get(&target).unwrap().size(), ComputeNoiseSize::D2(4, 4));

    let state = ComputeNoiseNodeState::Ready(0);
    let copies = readback_texture(&senders, state, &vec![picture]);
    assert_eq!(
        copies,
        vec![ReadbackCopy {
            image: target,
            layout: ImageDataLayout { offset: 0, bytes_per_row: Some(256), rows_per_image: None },
            extent: Extent3d { width: 4, height: 4, depth_or_array_layers: 1 },
        }]
    );
    assert_eq!(readback.receive(target), None);

    let deliveries =
        map_read_texture(&mut senders, state, vec![MappedImage { image: picture, data: padded(picture) }]);
    assert_eq!(deliveries, vec![ReadbackDelivery::Sent]);
    assert!(!senders.contains_key(target));

    let received = readback.receive(target).unwrap();
    assert_eq!(received.len(), 4 * 4 * 1);
    assert_eq!(received, tight(picture));
    assert_eq!(readback.receive(target), None);
}

#[test]
fn nothing_more_is_sent_until_a_capture_is_asked_for_again() {
    let images = store(&[(1, ComputeNoiseSize::D2(4, 2))]);
    let target = ImageHandle::new(1);
    let picture = image(1, 4, 2, 1);
    let state = ComputeNoiseNodeState::Ready(1);
    let mut readback = ComputeNoiseReadback::new();
    let mut senders = ComputeNoiseReadbackSender::new();
    let mapped = || vec![MappedImage { image: picture, data: padded(picture) }];

    readback.queue(&images, target, 1);
    extract_readback_sender(&mut senders, &mut readback);
    assert_eq!(map_read_texture(&mut senders, state, mapped()), vec![ReadbackDelivery::Sent]);
    assert!(readback.receive(target).is_some());

    for _ in 0..3 {
        extract_readback_sender(&mut senders, &mut readback);
        prepare_readback_buffers(&mut senders);
        assert_eq!(readback_texture(&senders, state, &vec![picture]), Vec::<ReadbackCopy>::new());
        assert_eq!(map_read_texture(&mut senders, state, mapped()), vec![ReadbackDelivery::NotQueued]);
        assert_eq!(readback.receive(target), None);
    }

    readback.queue(&images, target, 1);
    extract_readback_sender(&mut senders, &mut readback);
    assert_eq!(map_read_texture(&mut senders, state, mapped()), vec![ReadbackDelivery::Sent]);
    assert_eq!(readback.receive(target), Some(tight(picture)));
    assert_eq!(readback.receive(target), None);
}

#[test]
fn asking_twice_before_the_hand_over_is_asking_once() {
    let images = store(&[(1, ComputeNoiseSize::D2(4, 2)), (2, ComputeNoiseSize::D2(8, 8))]);
    let mut readback = ComputeNoiseReadback::new();
    let mut senders = ComputeNoiseReadbackSender::new();
    readback.queue(&images, ImageHandle::new(1), 1);
    readback.queue(&images, ImageHandle::new(2), 1);
    readback.queue(&images, ImageHandle::new(1), 1);
    extract_readback_sender(&mut senders, &mut readback);
    assert_eq!(senders.len(), 2);
    let state = ComputeNoiseNodeState::Ready(0);
    let first = image(1, 4, 2, 1);
    let deliveries = map_read_texture(
        &mut senders,
        state,
        vec![
            MappedImage { image: first, data: padded(first) },
            MappedImage { image: first, data: padded(first) },
        ],
    );
    assert_eq!(deliveries, vec![ReadbackDelivery::Sent, ReadbackDelivery::NotQueued]);
    assert_eq!(readback.receive(ImageHandle::new(1)), Some(tight(first)));
    assert_eq!(readback.receive(ImageHandle::new(1)), None);
    assert!(senders.contains_key(ImageHandle::new(2)));
    assert_eq!(senders.len(), 1);
}

#[test]
fn copies_are_planned_for_registered_images_once_each() {
    let images = store(&[(1, ComputeNoiseSize::D2(300, 2)), (3, ComputeNoiseSize::D2(64, 1))]);
    let mut readback = ComputeNoiseReadback::new();
    let mut senders = ComputeNoiseReadbackSender::new();
    readback.queue(&images, ImageHandle::new(1), 1);
    readback.queue(&images, ImageHandle::new(3), 1);
    extract_readback_sender(&mut senders, &mut readback);
    let run = vec![image(3, 64, 1, 4), image(2, 8, 8, 4), image(1, 300, 2, 1), image(3, 64, 1, 4)];
    let copies = readback_texture(&senders, ComputeNoiseNodeState::Ready(0), &run);
    assert_eq!(
        copies,
        vec![
            ReadbackCopy {
                image: ImageHandle::new(3),
                layout: ImageDataLayout { offset: 0, bytes_per_row: None, rows_per_image: None },
                extent: Extent3d { width: 64, height: 1, depth_or_array_layers: 1 },
            },
            ReadbackCopy {
                image: ImageHandle::new(1),
                layout: ImageDataLayout { offset: 0, bytes_per_row: Some(512), rows_per_image: None },
                extent: Extent3d { width: 300, height: 2, depth_or_array_layers: 1 },
            },
        ]
    );
    assert!(image(1, 300, 2, 1).fits());
    assert!(!image(1, u32::MAX, 2, 1).fits());
    assert!(!image(1, 1 << 30, 2, 4).fits());
}

#[test]
fn nothing_is_read_back_while_the_pipeline_compiles() {
    let images = store(&[(1, ComputeNoiseSize::D2(4, 2))]);
    let picture = image(1, 4, 2, 1);
    let mut readback = ComputeNoiseReadback::new();
    let mut senders = ComputeNoiseReadbackSender::new();
    readback.queue(&images, ImageHandle::new(1), 1);
    extract_readback_sender(&mut senders, &mut readback);
    assert!(readback_texture(&senders, ComputeNoiseNodeState::Loading, &vec![picture]).is_empty());
    let deliveries = map_read_texture(
        &mut senders,
        ComputeNoiseNodeState::Loading,
        vec![MappedImage { image: picture, data: padded(picture) }],
    );
    assert!(deliveries.is_empty());
    assert!(senders.contains_key(ImageHandle::new(1)));
    assert_eq!(readback.receive(ImageHandle::new(1)), None);
}

#[test]
fn a_producer_that_is_gone_gets_nothing() {
    let images = store(&[(1, ComputeNoiseSize::D2(4, 2))]);
    let target = ImageHandle::new(1);
    let picture = image(1, 4, 2, 1);
    let mut readback = ComputeNoiseReadback::new();
    let mut senders = ComputeNoiseReadbackSender::new();
    readback.queue(&images, target, 1);
    extract_readback_sender(&mut senders, &mut readback);
    readback.remove(&target);
    assert!(!readback.is_registered(target));
    assert_eq!(readback.receive(target), None);
    let deliveries = map_read_texture(
        &mut senders,
        ComputeNoiseNodeState::Ready(0),
        vec![MappedImage { image: picture, data: padded(picture) }],
    );
    assert_eq!(deliveries, vec![ReadbackDelivery::ReceiverGone]);
    assert!(!senders.contains_key(target));
}

#[test]
fn a_delivery_for_another_image_leaves_a_registration_alone() {
    let images = store(&[(1, ComputeNoiseSize::D2(4, 2))]);
    let mut readback = ComputeNoiseReadback::new();
    let mut senders = ComputeNoiseReadbackSender::new();
    readback.queue(&images, ImageHandle::new(1), 1);
    extract_readback_sender(&mut senders, &mut readback);
    assert_eq!(senders.deliver(ImageHandle::new(2), vec![1, 2, 3]), ReadbackDelivery::NotQueued);
    assert!(senders.contains_key(ImageHandle::new(1)));
    assert_eq!(readback.receive(ImageHandle::new(1)), None);
    assert_eq!(senders.deliver(ImageHandle::new(1), vec![1, 2, 3]), ReadbackDelivery::Sent);
    assert_eq!(readback.receive(ImageHandle::new(1)), Some(vec![1, 2, 3]));
}

#[test]
fn only_what_was_asked_for_is_handed_over() {
    let images = store(&[(1, ComputeNoiseSize::D2(4, 2)), (2, ComputeNoiseSize::D2(4, 2))]);
    let mut readback = ComputeNoiseReadback::new();
    let mut senders = ComputeNoiseReadbackSender::new();
    readback.queue(&images, ImageHandle::new(1), 1);
    extract_readback_sender(&mut senders, &mut readback);
    assert_eq!(senders.deliver(ImageHandle::new(1), Vec::new()), ReadbackDelivery::Sent);
    readback.queue(&images, ImageHandle::new(2), 1);
    extract_readback_sender(&mut senders, &mut readback);
    assert!(senders.contains_key(ImageHandle::new(2)));
    assert!(!senders.contains_key(ImageHandle::new(1)));
    assert!(readback.is_registered(ImageHandle::new(1)));
}

#[test]
fn a_hand_over_makes_a_registration_anew() {
    let images = store(&[(1, ComputeNoiseSize::D2(4, 2))]);
    let target = ImageHandle::new(1);
    let mut readback = ComputeNoiseReadback::new();
    let mut senders = ComputeNoiseReadbackSender::new();
    readback.queue(&images, target, 1);
    extract_readback_sender(&mut senders, &mut readback);
    prepare_readback_buffers(&mut senders);
    assert!(senders.0.get(&target).unwrap().buffer().is_some());
    extract_readback_sender(&mut senders, &mut readback);
    assert!(senders.0.get(&target).unwrap().buffer().is_some());
    readback.queue(&images, target, 1);
    extract_readback_sender(&mut senders, &mut readback);
    assert_eq!(senders.0.get(&target).unwrap().buffer(), None);
    assert_eq!(senders.len(), 1);
}
