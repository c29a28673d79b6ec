use bevy_compute_noise::image::ImageHandle;
use bevy_compute_noise::noise::generators::Fbm;
use bevy_compute_noise::noise::generators::Perlin;
use bevy_compute_noise::noise::generators::Worley;
use bevy_compute_noise::noise::modifiers::Invert;
use bevy_compute_noise::noise::ComputeNoiseInput;
use bevy_compute_noise::noise_queue::ComputeNoiseSequence;
use bevy_compute_noise::noise_queue::IntoNoiseSequence;
use bevy_compute_noise::shader::decimal;
use bevy_compute_noise::shader::generate_noise_shader;
use bevy_compute_noise::shader::import_line;
use bevy_compute_noise::shader::input_binding;
use bevy_compute_noise::shader::uniform_binding;

#[test]
fn test() {
    let sequence: ComputeNoiseSequence =
        (Perlin::default(), Perlin::default(), Invert).into_sequence(ImageHandle::default());
    generate_noise_shader(&sequence);
}

#[test]
fn shader_of_two_generators_and_a_modifier() {
    let sequence: ComputeNoiseSequence =
        (Perlin::default(), Perlin::default(), Invert).into_sequence(ImageHandle::default());
    let expected = "#import bevy_compute_noise::perlin::{Perlin, perlin_2d}\n\
                    #import bevy_compute_noise::invert::invert\n\
                    \n\
                    @group(0) @binding(0) var output: texture_storage_2d<rgba8unorm, read_write>;\n\
                    @group(0) @binding(1) var<uniform> perlin1: Perlin;\n\
                    @group(0) @binding(2) var<uniform> perlin2: Perlin;\n\
                    @group(0) @binding(3) var input_texture3: texture_storage_2d<rgba8unorm, read_write>;\n";
    assert_eq!(generate_noise_shader(&sequence), expected);
}

#[test]
fn shader_imports_each_kernel_type_once() {
    let sequence = (Worley::default(), Perlin::default(), Worley::default(), Fbm::new(Perlin::default()))
        .into_sequence(ImageHandle::new(7));
    let shader = generate_noise_shader(&sequence);
    assert_eq!(shader.matches("#import bevy_compute_noise::worley::{Worley, worley_2d}\n").count(), 1);
    assert_eq!(shader.matches("#import bevy_compute_noise::perlin::{Perlin, perlin_2d}\n").count(), 1);
    assert_eq!(shader.matches("#import bevy_compute_noise::fbm::{Config, fbm}\n").count(), 1);
    assert!(shader.starts_with(
        "#import bevy_compute_noise::worley::{Worley, worley_2d}\n\
         #import bevy_compute_noise::perlin::{Perlin, perlin_2d}\n\
         #import bevy_compute_noise::fbm::{Config, fbm}\n\n"
    ));
    assert!(shader.ends_with(
        "@group(0) @binding(1) var<uniform> worley1: Worley;\n\
         @group(0) @binding(2) var<uniform> perlin2: Perlin;\n\
         @group(0) @binding(3) var<uniform> worley3: Worley;\n\
         @group(0) @binding(4) var<uniform> config4: Config;\n"
    ));
}

#[test]
fn shader_of_an_empty_sequence_binds_the_output_only() {
    let sequence = ComputeNoiseSequence(Vec::new());
    assert_eq!(
        generate_noise_shader(&sequence),
        "\n@group(0) @binding(0) var output: texture_storage_2d<rgba8unorm, read_write>;\n"
    );
}

#[test]
fn shader_of_a_modifier_with_an_input() {
    let sequence = Invert.input_image(ImageHandle::new(2)).into_sequence(ImageHandle::new(1));
    assert_eq!(
        generate_noise_shader(&sequence),
        "#import bevy_compute_noise::invert::invert\n\
         \n\
         @group(0) @binding(0) var output: texture_storage_2d<rgba8unorm, read_write>;\n\
         @group(0) @binding(1) var input_texture1: texture_storage_2d<rgba8unorm, read_write>;\n"
    );
}

#[test]
fn decimal_writes_numbers_without_leading_zeros() {
    assert_eq!(decimal(0), "0");
    assert_eq!(decimal(7), "7");
    assert_eq!(decimal(10), "10");
    assert_eq!(decimal(109), "109");
    assert_eq!(decimal(4_294_967_295), "4294967295");
}

#[test]
fn binding_lines() {
    assert_eq!(
        input_binding(12),
        "@group(0) @binding(12) var input_texture12: texture_storage_2d<rgba8unorm, read_write>;\n"
    );
    assert_eq!(
        uniform_binding(3, "config", "Config"),
        "@group(0) @binding(3) var<uniform> config3: Config;\n"
    );
}

#[test]
fn import_lines() {
    assert_eq!(import_line("a::b", Some("S"), "f"), "#import a::b::{S, f}\n");
    assert_eq!(import_line("a::b", None, "f"), "#import a::b::f\n");
}
