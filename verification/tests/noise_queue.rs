use bevy_compute_noise::image::ComputeNoiseSize;
use bevy_compute_noise::image::ImageHandle;
use bevy_compute_noise::image::ImageSizes;
use bevy_compute_noise::image::TextureDimension;
use bevy_compute_noise::noise::generators::Fbm;
use bevy_compute_noise::noise::generators::FbmFlags;
use bevy_compute_noise::noise::generators::Perlin;
use bevy_compute_noise::noise::generators::PerlinFlags;
use bevy_compute_noise::noise::generators::Worley;
use bevy_compute_noise::noise::generators::WorleyFlags;
use bevy_compute_noise::noise::modifiers::Invert;
use bevy_compute_noise::noise::ComputeNoise;
use bevy_compute_noise::noise::ComputeNoiseInput;
use bevy_compute_noise::noise::ErasedComputeNoise;
use bevy_compute_noise::noise::NoiseTypeId;
use bevy_compute_noise::noise::Perlin2d;
use bevy_compute_noise::noise::Perlin2dFlags;
use bevy_compute_noise::noise_queue::check_sequence;
use bevy_compute_noise::noise_queue::prepare_compute_noise_buffers;
use bevy_compute_noise::noise_queue::ComputeNoiseBufferQueue;
use bevy_compute_noise::noise_queue::ComputeNoiseError;
use bevy_compute_noise::noise_queue::ComputeNoiseInstruction;
use bevy_compute_noise::noise_queue::ComputeNoiseQueue;
use bevy_compute_noise::noise_queue::ComputeNoiseRejection;
use bevy_compute_noise::noise_queue::ComputeNoiseSequence;
use bevy_compute_noise::noise_queue::IntoNoiseSequence;
use bevy_compute_noise::noise_queue::QueueNoiseOp;
use bevy_compute_noise::render::pipeline::ComputeNoisePipelineKey;
use bevy_compute_noise::render::pipeline::NoiseOp;
use bevy_compute_noise::table::Table;

fn store(entries: &[(u64, ComputeNoiseSize)]) -> ImageSizes {
    let mut images: ImageSizes = Table::new();
    for (id, size) in entries {
        images.insert(ImageHandle::new(*id), *size);
    }
    images
}

fn flat_only_kernel() -> ErasedComputeNoise {
    ErasedComputeNoise {
        buffers: vec![vec![9, 8]],
        type_id: NoiseTypeId { base: 40, fbm: false },
        dimension: Some(TextureDimension::D2),
        struct_name: Some("Flat"),
        function_name: "flat",
        import_path: "tests::flat",
    }
}

#[test]
fn default_kernels() {
    assert_eq!(Perlin::default(), Perlin { seed: 0, frequency_bits: 5.0f32.to_bits(), flags: 2 });
    assert_eq!(Worley::default(), Worley { seed: 0, frequency_bits: 5.0f32.to_bits(), flags: 0 });
    assert_eq!(PerlinFlags::default().bits(), PerlinFlags::REMAP);
    assert_eq!(WorleyFlags::default().bits(), 0);
    let fbm: Fbm<Perlin> = Fbm::default();
    assert_eq!(fbm.noise, Perlin::default());
    assert_eq!(fbm.octaves, 4);
    assert_eq!(fbm.lacunarity_bits, 2.0f32.to_bits());
    assert_eq!(fbm.persistence_bits, 0.5f32.to_bits());
    assert_eq!(fbm.flags, 0);
}

#[test]
fn flags_are_bits() {
    assert_eq!(PerlinFlags::TILEABLE, 1);
    assert_eq!(PerlinFlags::REMAP, 2);
    assert_eq!(PerlinFlags::INTERPOLATE_CUBIC, 4);
    assert_eq!(WorleyFlags::TILEABLE, 1);
    assert_eq!(FbmFlags::INVERT, 1);
    assert_eq!(FbmFlags::BILLOWY, 2);
    let both = PerlinFlags::from_bits_retain(PerlinFlags::TILEABLE)
        .union(PerlinFlags::from_bits_retain(PerlinFlags::INTERPOLATE_CUBIC));
    assert_eq!(both.bits(), 5);
    assert!(both.contains(PerlinFlags::from_bits_retain(PerlinFlags::TILEABLE)));
    assert!(!both.contains(PerlinFlags::from_bits_retain(PerlinFlags::REMAP)));
    assert!(both.contains(PerlinFlags::empty()));
    assert_eq!(FbmFlags::from_bits_retain(64).bits(), 64);
}

#[test]
fn kernels_declare_themselves() {
    assert_eq!(Perlin::noise_op(), NoiseOp::Generator);
    assert_eq!(Worley::noise_op(), NoiseOp::Generator);
    assert_eq!(Invert::noise_op(), NoiseOp::Modifier);
    assert_eq!(Fbm::<Worley>::noise_op(), NoiseOp::Generator);
    assert_eq!(Perlin::type_id(), NoiseTypeId { base: 1, fbm: false });
    assert_eq!(Worley::type_id(), NoiseTypeId { base: 2, fbm: false });
    assert_eq!(Invert::type_id(), NoiseTypeId { base: 3, fbm: false });
    assert_eq!(Fbm::<Perlin>::type_id(), NoiseTypeId { base: 1, fbm: true });
    assert_eq!(Fbm::<Worley>::type_id(), NoiseTypeId { base: 2, fbm: true });
    assert_eq!(Perlin::texture_dimension(), None);
    assert_eq!(Invert::texture_dimension(), None);
}

#[test]
fn kernel_parameters_as_words() {
    let perlin = Perlin { seed: 11, frequency_bits: 2.5f32.to_bits(), flags: 3 };
    assert_eq!(perlin.buffers(), vec![vec![11, 2.5f32.to_bits(), 3]]);
    assert_eq!(Invert.buffers(), Vec::<Vec<u32>>::new());
    let fbm = Fbm {
        noise: perlin,
        octaves: 6,
        lacunarity_bits: 2.0f32.to_bits(),
        persistence_bits: 0.25f32.to_bits(),
        flags: FbmFlags::BILLOWY,
    };
    assert_eq!(
        fbm.buffers(),
        vec![vec![6, 2.0f32.to_bits(), 0.25f32.to_bits(), 2, 11, 2.5f32.to_bits(), 3]]
    );
}

#[test]
fn erased_kernel_keeps_tag_names_and_parameters() {
    let erased = ErasedComputeNoise::new(Worley { seed: 5, frequency_bits: 6, flags: 1 });
    assert_eq!(erased.type_id, NoiseTypeId { base: 2, fbm: false });
    assert_eq!(erased.dimension, None);
    assert_eq!(erased.struct_name, Some("Worley"));
    assert_eq!(erased.function_name, "worley_2d");
    assert_eq!(erased.import_path, "bevy_compute_noise::worley");
    assert_eq!(erased.words(), &vec![vec![5, 6, 1]]);
    assert!(erased.needs_uniform());
    assert!(!ErasedComputeNoise::new(Invert).needs_uniform());
}

#[test]
fn erased_kernel_buffers_are_the_words_in_memory() {
    let erased = ErasedComputeNoise::new(Perlin { seed: 1, frequency_bits: 0x0102_0304, flags: 0xffff_0000 });
    let mut expected: Vec<u8> = Vec::new();
    expected.extend_from_slice(&1u32.to_ne_bytes());
    expected.extend_from_slice(&0x0102_0304u32.to_ne_bytes());
    expected.extend_from_slice(&0xffff_0000u32.to_ne_bytes());
    assert_eq!(erased.buffers(), vec![expected]);
    assert_eq!(ErasedComputeNoise::new(Invert).buffers(), Vec::<Vec<u8>>::new());
}

#[test]
fn a_generator_writes_its_output() {
    let sequence = Perlin::default().into_sequence(ImageHandle::new(4));
    assert_eq!(sequence.0.len(), 1);
    assert_eq!(sequence.0[0].images, vec![ImageHandle::new(4)]);
    assert_eq!(sequence.0[0].op, NoiseOp::Generator);
    assert_eq!(sequence.0[0].noise, ErasedComputeNoise::new(Perlin::default()));
}

#[test]
fn a_modifier_without_input_reads_its_output() {
    let sequence = Invert.into_sequence(ImageHandle::new(4));
    assert_eq!(sequence.0.len(), 1);
    assert_eq!(sequence.0[0].images, vec![ImageHandle::new(4), ImageHandle::new(4)]);
    assert_eq!(sequence.0[0].op, NoiseOp::Modifier);
}

#[test]
fn a_modifier_with_input_reads_it() {
    let sequence = Invert.input_image(ImageHandle::new(9)).into_sequence(ImageHandle::new(4));
    assert_eq!(sequence.0[0].images, vec![ImageHandle::new(9), ImageHandle::new(4)]);
}

#[test]
fn a_combiner_resolves_both_inputs_or_none() {
    let kernel = || ErasedComputeNoise::new(Invert);
    let open = QueueNoiseOp::Combine(ImageHandle::default(), ImageHandle::default(), kernel());
    assert_eq!(
        open.into_sequence(ImageHandle::new(3)).0[0].images,
        vec![ImageHandle::new(3), ImageHandle::new(3), ImageHandle::new(3)]
    );
    let half = QueueNoiseOp::Combine(ImageHandle::new(8), ImageHandle::default(), kernel());
    assert_eq!(
        half.into_sequence(ImageHandle::new(3)).0[0].images,
        vec![ImageHandle::new(8), ImageHandle::default(), ImageHandle::new(3)]
    );
    let full = QueueNoiseOp::Combine(ImageHandle::new(8), ImageHandle::new(9), kernel());
    let sequence = full.into_sequence(ImageHandle::new(3));
    assert_eq!(sequence.0[0].images, vec![ImageHandle::new(8), ImageHandle::new(9), ImageHandle::new(3)]);
    assert_eq!(sequence.0[0].op, NoiseOp::Combiner);
}

#[test]
fn kernels_convert_into_what_the_queue_holds() {
    let perlin = Perlin { seed: 7, frequency_bits: 8, flags: 9 };
    assert_eq!(ErasedComputeNoise::from(perlin), ErasedComputeNoise::new(perlin));
    assert_eq!(QueueNoiseOp::from(perlin), QueueNoiseOp::Generate(ErasedComputeNoise::new(perlin)));
    assert_eq!(QueueNoiseOp::from(Invert), QueueNoiseOp::new(Invert));
    let erased: ErasedComputeNoise = Fbm::new(perlin).into();
    assert_eq!(erased.type_id, NoiseTypeId { base: 1, fbm: true });
    assert_eq!(erased.struct_name, Some("Config"));
    assert_eq!(erased.function_name, "fbm");
    assert_eq!(erased.import_path, "bevy_compute_noise::fbm");
}

#[test]
fn queue_noise_op_of_a_kernel_leaves_inputs_open() {
    assert_eq!(
        QueueNoiseOp::new(Invert),
        QueueNoiseOp::Modify(ImageHandle::default(), ErasedComputeNoise::new(Invert))
    );
    assert_eq!(
        QueueNoiseOp::new(Worley::default()),
        QueueNoiseOp::Generate(ErasedComputeNoise::new(Worley::default()))
    );
}

#[test]
fn a_tuple_is_its_members_in_order() {
    let sequence = (Perlin::default(), Invert, Worley::default()).into_sequence(ImageHandle::new(2));
    let ops: Vec<NoiseOp> = sequence.0.iter().map(|instruction| instruction.op).collect();
    assert_eq!(ops, vec![NoiseOp::Generator, NoiseOp::Modifier, NoiseOp::Generator]);
    let types: Vec<u32> = sequence.0.iter().map(|instruction| instruction.noise.type_id.base).collect();
    assert_eq!(types, vec![1, 3, 2]);
    let single = (Perlin::default(),).into_sequence(ImageHandle::new(2));
    assert_eq!(single, Perlin::default().into_sequence(ImageHandle::new(2)));
}

#[test]
fn tuples_nest_and_go_up_to_twelve() {
    let nested = ((Perlin::default(), Invert), (Worley::default(),)).into_sequence(ImageHandle::new(2));
    assert_eq!(nested, (Perlin::default(), Invert, Worley::default()).into_sequence(ImageHandle::new(2)));
    let twelve = (
        Invert, Invert, Invert, Invert, Invert, Invert, Invert, Invert, Invert, Invert, Invert,
        Perlin::default(),
    )
        .into_sequence(ImageHandle::new(2));
    assert_eq!(twelve.0.len(), 12);
    assert_eq!(twelve.0[11].op, NoiseOp::Generator);
    assert_eq!(twelve.0[10].op, NoiseOp::Modifier);
}

#[test]
fn queue_returns_the_target_and_keeps_every_request() {
    let mut queue = ComputeNoiseQueue::default();
    assert_eq!(queue.len(), 0);
    assert_eq!(queue.queue(ImageHandle::new(1), Perlin::default()), ImageHandle::new(1));
    assert_eq!(queue.queue(ImageHandle::new(1), Perlin::default()), ImageHandle::new(1));
    assert_eq!(queue.queue(ImageHandle::new(2), (Worley::default(), Invert)), ImageHandle::new(2));
    assert_eq!(queue.len(), 3);
    let drained = queue.drain();
    assert_eq!(drained.len(), 3);
    assert_eq!(drained[0], drained[1]);
    assert_eq!(drained[2].0.len(), 2);
    assert_eq!(queue.len(), 0);
    assert_eq!(queue.drain().len(), 0);
}

#[test]
fn binder_binds_each_instruction() {
    let images = store(&[(1, ComputeNoiseSize::D2(128, 64))]);
    let mut queue = ComputeNoiseQueue::default();
    let mut buffers = ComputeNoiseBufferQueue::default();
    let perlin = Perlin { seed: 3, frequency_bits: 4, flags: 5 };
    queue.queue(ImageHandle::new(1), (perlin, Invert));
    let rejected = prepare_compute_noise_buffers(&images, &mut queue, &mut buffers);
    assert_eq!(rejected, Vec::<ComputeNoiseRejection>::new());
    assert_eq!(queue.len(), 0);
    assert_eq!(buffers.len(), 1);
    let bound = &buffers.queue[0];
    assert_eq!(bound.len(), 2);
    assert_eq!(
        bound[0].key,
        ComputeNoisePipelineKey {
            type_id: NoiseTypeId { base: 1, fbm: false },
            dimension: TextureDimension::D2,
            op: NoiseOp::Generator,
        }
    );
    assert_eq!(bound[0].images, vec![ImageHandle::new(1)]);
    assert_eq!(bound[0].buffers, vec![vec![3, 4, 5]]);
    assert_eq!(bound[0].size, ComputeNoiseSize::D2(128, 64));
    assert_eq!(
        bound[1].key,
        ComputeNoisePipelineKey {
            type_id: NoiseTypeId { base: 3, fbm: false },
            dimension: TextureDimension::D2,
            op: NoiseOp::Modifier,
        }
    );
    assert_eq!(bound[1].images, vec![ImageHandle::new(1), ImageHandle::new(1)]);
    assert_eq!(bound[1].buffers, Vec::<Vec<u32>>::new());
    assert_eq!(bound[1].size, ComputeNoiseSize::D2(128, 64));
}

#[test]
fn binder_takes_the_size_of_the_image_at_the_instructions_place() {
    let images = store(&[(1, ComputeNoiseSize::D2(16, 16)), (2, ComputeNoiseSize::D2(32, 8))]);
    let mut queue = ComputeNoiseQueue::default();
    let mut buffers = ComputeNoiseBufferQueue::default();
    queue.queue(ImageHandle::new(1), (Invert.input_image(ImageHandle::new(2)), Invert));
    let rejected = prepare_compute_noise_buffers(&images, &mut queue, &mut buffers);
    assert!(rejected.is_empty());
    assert_eq!(buffers.queue[0][0].size, ComputeNoiseSize::D2(32, 8));
    assert_eq!(buffers.queue[0][1].size, ComputeNoiseSize::D2(16, 16));
}

#[test]
fn binder_drops_a_kernel_on_an_image_of_another_dimensionality() {
    let images = store(&[(1, ComputeNoiseSize::D3(32, 32, 32)), (2, ComputeNoiseSize::D2(8, 8))]);
    let mut queue = ComputeNoiseQueue::default();
    let mut buffers = ComputeNoiseBufferQueue::default();
    queue.queue(ImageHandle::new(2), Perlin::default());
    queue.queue(ImageHandle::new(1), QueueNoiseOp::Generate(flat_only_kernel()));
    queue.queue(ImageHandle::new(2), QueueNoiseOp::Generate(flat_only_kernel()));
    let rejected = prepare_compute_noise_buffers(&images, &mut queue, &mut buffers);
    assert_eq!(
        rejected,
        vec![ComputeNoiseRejection { request: 1, error: ComputeNoiseError::DimensionMismatch }]
    );
    assert_eq!(buffers.len(), 2);
    assert_eq!(buffers.queue[0][0].key.type_id.base, 1);
    assert_eq!(buffers.queue[1][0].key.type_id.base, 40);
    assert_eq!(buffers.queue[1][0].images, vec![ImageHandle::new(2)]);
    assert_eq!(queue.len(), 0);
}

#[test]
fn a_flat_kernel_runs_on_flat_images_only() {
    assert_eq!(Perlin2d::texture_dimension(), Some(TextureDimension::D2));
    assert_eq!(Perlin2d::type_id(), NoiseTypeId { base: 4, fbm: false });
    assert_eq!(Fbm::<Perlin2d>::texture_dimension(), Some(TextureDimension::D2));
    assert_eq!(Perlin2d::default(), Perlin2d { seed: 0, frequency_bits: 5.0f32.to_bits(), flags: 8 });
    assert_eq!(Perlin2dFlags::default().bits(), Perlin2dFlags::REMAP_SQRT);
    let images = store(&[(1, ComputeNoiseSize::D3(32, 32, 32)), (2, ComputeNoiseSize::D2(32, 32))]);
    let mut queue = ComputeNoiseQueue::default();
    let mut buffers = ComputeNoiseBufferQueue::default();
    queue.queue(ImageHandle::new(1), Perlin2d::default());
    queue.queue(ImageHandle::new(2), Perlin2d::default());
    queue.queue(ImageHandle::new(1), Fbm::new(Perlin2d::default()));
    queue.queue(ImageHandle::new(1), (Perlin::default(), Perlin2d::default()));
    let rejected = prepare_compute_noise_buffers(&images, &mut queue, &mut buffers);
    assert_eq!(
        rejected,
        vec![
            ComputeNoiseRejection { request: 0, error: ComputeNoiseError::DimensionMismatch },
            ComputeNoiseRejection { request: 2, error: ComputeNoiseError::DimensionMismatch },
            ComputeNoiseRejection { request: 3, error: ComputeNoiseError::DimensionMismatch },
        ]
    );
    assert_eq!(buffers.len(), 1);
    assert_eq!(buffers.queue[0][0].images, vec![ImageHandle::new(2)]);
    assert_eq!(buffers.queue[0][0].key.type_id.base, 4);
}

#[test]
fn binder_drops_images_of_mixed_dimensionality() {
    let images = store(&[(1, ComputeNoiseSize::D3(8, 8, 8)), (2, ComputeNoiseSize::D2(8, 8))]);
    let mut queue = ComputeNoiseQueue::default();
    let mut buffers = ComputeNoiseBufferQueue::default();
    queue.queue(ImageHandle::new(1), Invert.input_image(ImageHandle::new(2)));
    let rejected = prepare_compute_noise_buffers(&images, &mut queue, &mut buffers);
    assert_eq!(
        rejected,
        vec![ComputeNoiseRejection { request: 0, error: ComputeNoiseError::DimensionMismatch }]
    );
    assert_eq!(buffers.len(), 0);
}

#[test]
fn binder_drops_a_missing_image_and_goes_on() {
    let images = store(&[(1, ComputeNoiseSize::D2(8, 8))]);
    let mut queue = ComputeNoiseQueue::default();
    let mut buffers = ComputeNoiseBufferQueue::default();
    queue.queue(ImageHandle::new(5), Perlin::default());
    queue.queue(ImageHandle::new(1), Worley::default());
    queue.queue(ImageHandle::new(1), Invert.input_image(ImageHandle::new(6)));
    let rejected = prepare_compute_noise_buffers(&images, &mut queue, &mut buffers);
    assert_eq!(
        rejected,
        vec![
            ComputeNoiseRejection { request: 0, error: ComputeNoiseError::ImageNotFound },
            ComputeNoiseRejection { request: 2, error: ComputeNoiseError::ImageNotFound },
        ]
    );
    assert_eq!(buffers.len(), 1);
    assert_eq!(buffers.queue[0][0].key.type_id.base, 2);
}

#[test]
fn binder_appends_behind_what_waits() {
    let images = store(&[(1, ComputeNoiseSize::D2(8, 8))]);
    let mut queue = ComputeNoiseQueue::default();
    let mut buffers = ComputeNoiseBufferQueue::default();
    queue.queue(ImageHandle::new(1), Perlin::default());
    prepare_compute_noise_buffers(&images, &mut queue, &mut buffers);
    queue.queue(ImageHandle::new(1), Worley::default());
    prepare_compute_noise_buffers(&images, &mut queue, &mut buffers);
    assert_eq!(buffers.len(), 2);
    assert_eq!(buffers.queue[0][0].key.type_id.base, 1);
    assert_eq!(buffers.queue[1][0].key.type_id.base, 2);
}

#[test]
fn check_sequence_reports_the_missing_image_first() {
    let images = store(&[(1, ComputeNoiseSize::D3(8, 8, 8))]);
    let sequence = ComputeNoiseSequence(vec![ComputeNoiseInstruction {
        images: vec![ImageHandle::new(1), ImageHandle::new(2)],
        noise: flat_only_kernel(),
        op: NoiseOp::Modifier,
    }]);
    assert_eq!(check_sequence(&images, &sequence), Err(ComputeNoiseError::ImageNotFound));
    let images = store(&[(1, ComputeNoiseSize::D3(8, 8, 8)), (2, ComputeNoiseSize::D3(4, 4, 4))]);
    assert_eq!(check_sequence(&images, &sequence), Err(ComputeNoiseError::DimensionMismatch));
    let images = store(&[(1, ComputeNoiseSize::D2(8, 8)), (2, ComputeNoiseSize::D2(4, 4))]);
    assert_eq!(
        check_sequence(&images, &sequence),
        Ok(vec![ComputeNoiseSize::D2(8, 8), ComputeNoiseSize::D2(4, 4)])
    );
}

#[test]
fn an_empty_sequence_is_bound_to_nothing() {
    let images = store(&[]);
    let mut queue = ComputeNoiseQueue::default();
    queue.queue.push(ComputeNoiseSequence(Vec::new()));
    let mut buffers = ComputeNoiseBufferQueue::default();
    let rejected = prepare_compute_noise_buffers(&images, &mut queue, &mut buffers);
    assert!(rejected.is_empty());
    assert_eq!(buffers.len(), 1);
    assert!(buffers.queue[0].is_empty());
}
