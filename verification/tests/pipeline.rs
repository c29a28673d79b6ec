use bevy_compute_noise::image::TextureDimension;
use bevy_compute_noise::noise::generators::Perlin;
use bevy_compute_noise::noise::generators::Worley;
use bevy_compute_noise::noise::modifiers::Invert;
use bevy_compute_noise::noise::NoiseTypeId;
use bevy_compute_noise::render::pipeline::load_fbm_shaders;
use bevy_compute_noise::render::pipeline::load_generator_shader;
use bevy_compute_noise::render::pipeline::load_modifier_shader;
use bevy_compute_noise::render::pipeline::noise_texture_2d;
use bevy_compute_noise::render::pipeline::noise_texture_3d;
use bevy_compute_noise::render::pipeline::BindGroupLayout;
use bevy_compute_noise::render::pipeline::BindingKind;
use bevy_compute_noise::render::pipeline::CachedComputePipelineId;
use bevy_compute_noise::render::pipeline::ComputeNoisePipeline;
use bevy_compute_noise::render::pipeline::ComputeNoisePipelineKey;
use bevy_compute_noise::render::pipeline::ComputePipelineDescriptor;
use bevy_compute_noise::render::pipeline::NoiseOp;
use bevy_compute_noise::render::pipeline::PipelineCatalog;
use bevy_compute_noise::render::pipeline::PipelineState;

fn key(base: u32, fbm: bool, dimension: TextureDimension, op: NoiseOp) -> ComputeNoisePipelineKey {
    ComputeNoisePipelineKey { type_id: NoiseTypeId { base, fbm }, dimension, op }
}

fn registry() -> ComputeNoisePipeline {
    let mut pipeline = ComputeNoisePipeline::new();
    load_generator_shader::<Perlin>(&mut pipeline);
    load_fbm_shaders::<Perlin>(&mut pipeline);
    load_generator_shader::<Worley>(&mut pipeline);
    load_fbm_shaders::<Worley>(&mut pipeline);
    load_modifier_shader::<Invert>(&mut pipeline);
    pipeline
}

#[test]
fn noise_textures() {
    assert_eq!(noise_texture_2d(), BindingKind::StorageTexture2d);
    assert_eq!(noise_texture_3d(), BindingKind::StorageTexture3d);
}

#[test]
fn the_four_layouts() {
    let pipeline = ComputeNoisePipeline::new();
    assert_eq!(
        *pipeline.get_layout(key(1, false, TextureDimension::D2, NoiseOp::Generator)),
        BindGroupLayout { first: BindingKind::StorageTexture2d, second: BindingKind::UniformBuffer }
    );
    assert_eq!(
        *pipeline.get_layout(key(1, false, TextureDimension::D3, NoiseOp::Generator)),
        BindGroupLayout { first: BindingKind::StorageTexture3d, second: BindingKind::UniformBuffer }
    );
    assert_eq!(
        *pipeline.get_layout(key(3, false, TextureDimension::D2, NoiseOp::Modifier)),
        BindGroupLayout { first: BindingKind::StorageTexture2d, second: BindingKind::StorageTexture2d }
    );
    assert_eq!(
        *pipeline.get_layout(key(3, false, TextureDimension::D3, NoiseOp::Modifier)),
        BindGroupLayout { first: BindingKind::StorageTexture3d, second: BindingKind::StorageTexture3d }
    );
}

#[test]
fn only_generators_and_modifiers_of_two_or_three_dimensions_have_a_layout() {
    assert!(ComputeNoisePipeline::has_layout(key(1, false, TextureDimension::D2, NoiseOp::Generator)));
    assert!(ComputeNoisePipeline::has_layout(key(1, false, TextureDimension::D3, NoiseOp::Modifier)));
    assert!(!ComputeNoisePipeline::has_layout(key(1, false, TextureDimension::D1, NoiseOp::Generator)));
    assert!(!ComputeNoisePipeline::has_layout(key(1, false, TextureDimension::D2, NoiseOp::Combiner)));
}

#[test]
fn an_empty_registry_has_no_pipeline() {
    let pipeline = ComputeNoisePipeline::new();
    assert!(!pipeline.has_pipeline(key(1, false, TextureDimension::D2, NoiseOp::Generator)));
    assert_eq!(pipeline.util_shader(), "embedded://bevy_compute_noise/noise/shaders/util.wgsl");
}

#[test]
fn registration_covers_both_dimensionalities() {
    let pipeline = registry();
    for dimension in [TextureDimension::D2, TextureDimension::D3] {
        assert!(pipeline.has_pipeline(key(1, false, dimension, NoiseOp::Generator)));
        assert!(pipeline.has_pipeline(key(1, true, dimension, NoiseOp::Generator)));
        assert!(pipeline.has_pipeline(key(2, false, dimension, NoiseOp::Generator)));
        assert!(pipeline.has_pipeline(key(2, true, dimension, NoiseOp::Generator)));
        assert!(pipeline.has_pipeline(key(3, false, dimension, NoiseOp::Modifier)));
        assert!(!pipeline.has_pipeline(key(3, false, dimension, NoiseOp::Generator)));
        assert!(!pipeline.has_pipeline(key(1, false, dimension, NoiseOp::Modifier)));
        assert!(!pipeline.has_pipeline(key(3, true, dimension, NoiseOp::Modifier)));
    }
    assert!(!pipeline.has_pipeline(key(1, false, TextureDimension::D1, NoiseOp::Generator)));
}

#[test]
fn descriptor_of_a_generator() {
    let pipeline = registry();
    assert_eq!(
        pipeline.specialize(key(1, false, TextureDimension::D3, NoiseOp::Generator)),
        ComputePipelineDescriptor {
            label: Some("compute_noise_pipeline"),
            layout: vec![BindGroupLayout {
                first: BindingKind::StorageTexture3d,
                second: BindingKind::UniformBuffer,
            }],
            push_constant_ranges: vec![],
            shader: "embedded://bevy_compute_noise/noise/generators/shaders/perlin_3d.wgsl",
            shader_defs: vec![],
            entry_point: "main",
            zero_initialize_workgroup_memory: false,
        }
    );
    assert_eq!(
        pipeline.specialize(key(2, false, TextureDimension::D2, NoiseOp::Generator)).shader,
        "embedded://bevy_compute_noise/noise/generators/shaders/worley_2d.wgsl"
    );
}

#[test]
fn descriptor_of_a_fractal_sum_carries_the_tokens_of_its_base() {
    let pipeline = registry();
    assert_eq!(
        pipeline.specialize(key(2, true, TextureDimension::D2, NoiseOp::Generator)),
        ComputePipelineDescriptor {
            label: Some("compute_noise_pipeline"),
            layout: vec![BindGroupLayout {
                first: BindingKind::StorageTexture2d,
                second: BindingKind::UniformBuffer,
            }],
            push_constant_ranges: vec![],
            shader: "embedded://bevy_compute_noise/noise/generators/shaders/fbm.wgsl",
            shader_defs: vec!["WORLEY", "2D"],
            entry_point: "main",
            zero_initialize_workgroup_memory: false,
        }
    );
    assert_eq!(
        pipeline.specialize(key(1, true, TextureDimension::D3, NoiseOp::Generator)).shader_defs,
        vec!["PERLIN", "3D"]
    );
}

#[test]
fn descriptor_of_a_modifier() {
    let pipeline = registry();
    assert_eq!(
        pipeline.specialize(key(3, false, TextureDimension::D3, NoiseOp::Modifier)),
        ComputePipelineDescriptor {
            label: Some("compute_noise_pipeline"),
            layout: vec![BindGroupLayout {
                first: BindingKind::StorageTexture3d,
                second: BindingKind::StorageTexture3d,
            }],
            push_constant_ranges: vec![],
            shader: "embedded://bevy_compute_noise/noise/modifiers/shaders/invert.wgsl",
            shader_defs: vec!["3D"],
            entry_point: "main",
            zero_initialize_workgroup_memory: false,
        }
    );
}

#[test]
fn specialize_twice_gives_equal_descriptors() {
    let pipeline = registry();
    for dimension in [TextureDimension::D2, TextureDimension::D3] {
        for (base, fbm, op) in [
            (1, false, NoiseOp::Generator),
            (1, true, NoiseOp::Generator),
            (2, true, NoiseOp::Generator),
            (3, false, NoiseOp::Modifier),
        ] {
            let first = pipeline.specialize(key(base, fbm, dimension, op));
            let second = pipeline.specialize(key(base, fbm, dimension, op));
            assert_eq!(first, second);
        }
    }
}

#[test]
fn a_later_registration_replaces_the_shader() {
    let mut pipeline = ComputeNoisePipeline::new();
    let perlin = key(1, false, TextureDimension::D2, NoiseOp::Generator);
    pipeline.insert_shader(perlin, "first.wgsl");
    pipeline.insert_shader(perlin, "second.wgsl");
    pipeline.insert_shader_defs(perlin, vec!["A"]);
    pipeline.insert_shader_defs(perlin, vec!["B", "C"]);
    let descriptor = pipeline.specialize(perlin);
    assert_eq!(descriptor.shader, "second.wgsl");
    assert_eq!(descriptor.shader_defs, vec!["B", "C"]);
}

#[test]
fn the_catalog_queues_a_key_once() {
    let pipeline = registry();
    let mut catalog = PipelineCatalog::new();
    let perlin = key(1, false, TextureDimension::D2, NoiseOp::Generator);
    let invert = key(3, false, TextureDimension::D2, NoiseOp::Modifier);
    assert_eq!(catalog.len(), 0);
    assert_eq!(catalog.state(perlin), PipelineState::Unregistered);
    assert_eq!(catalog.lookup(perlin), None);
    assert_eq!(catalog.specialize(&pipeline, perlin), CachedComputePipelineId(0));
    assert_eq!(catalog.state(perlin), PipelineState::Compiling);
    assert_eq!(catalog.specialize(&pipeline, invert), CachedComputePipelineId(1));
    assert_eq!(catalog.specialize(&pipeline, perlin), CachedComputePipelineId(0));
    assert_eq!(catalog.specialize(&pipeline, invert), CachedComputePipelineId(1));
    assert_eq!(catalog.len(), 2);
    assert_eq!(catalog.lookup(invert), Some(CachedComputePipelineId(1)));
    assert_eq!(catalog.descriptor(CachedComputePipelineId(0)), Some(&pipeline.specialize(perlin)));
    assert_eq!(catalog.descriptor(CachedComputePipelineId(1)), Some(&pipeline.specialize(invert)));
    assert_eq!(catalog.descriptor(CachedComputePipelineId(2)), None);
}

#[test]
fn a_ready_pipeline_is_not_queued_again() {
    let pipeline = registry();
    let mut catalog = PipelineCatalog::new();
    let perlin = key(1, false, TextureDimension::D2, NoiseOp::Generator);
    let id = catalog.specialize(&pipeline, perlin);
    assert!(!catalog.is_ready(id));
    catalog.mark_ready(id);
    assert!(catalog.is_ready(id));
    assert_eq!(catalog.state(perlin), PipelineState::Ready);
    assert_eq!(catalog.specialize(&pipeline, perlin), id);
    assert_eq!(catalog.len(), 1);
    assert!(catalog.is_ready(id));
    assert_eq!(catalog.state(perlin), PipelineState::Ready);
    catalog.mark_ready(id);
    assert!(catalog.is_ready(id));
}

#[test]
fn the_catalog_serves_a_key_even_when_the_registry_has_dropped_behind() {
    let pipeline = registry();
    let empty = ComputeNoisePipeline::new();
    let mut catalog = PipelineCatalog::new();
    let perlin = key(1, false, TextureDimension::D2, NoiseOp::Generator);
    let id = catalog.specialize(&pipeline, perlin);
    assert_eq!(catalog.specialize(&empty, perlin), id);
    assert_eq!(catalog.len(), 1);
}

#[test]
fn marking_an_unknown_pipeline_changes_nothing() {
    let pipeline = registry();
    let mut catalog = PipelineCatalog::new();
    let perlin = key(1, false, TextureDimension::D2, NoiseOp::Generator);
    let id = catalog.specialize(&pipeline, perlin);
    catalog.mark_ready(CachedComputePipelineId(5));
    assert!(!catalog.is_ready(id));
    assert!(!catalog.is_ready(CachedComputePipelineId(5)));
    assert_eq!(catalog.len(), 1);
}
