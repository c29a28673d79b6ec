//! Gradient noise.

use vstd::prelude::*;
use crate::image::TextureDimension;
use crate::noise::ComputeNoise;
use crate::noise::NoiseTypeId;
use crate::noise::generators::ComputeNoiseGenerator;
use crate::render::pipeline::NoiseOp;
use crate::shader::ComputeNoiseShader;

verus! {

/// The number that tells this kernel type from the others.
pub const PERLIN_TYPE: u32 = 1;

/// The bit pattern of the default frequency, 5.0 as a 32-bit float.
pub const PERLIN_DEFAULT_FREQUENCY_BITS: u32 = 0x40a0_0000;

/// Parameters of the kernel, as the shader reads them. `frequency_bits` is the
/// bit pattern of a 32-bit float.
#[derive(Clone, Copy, PartialEq, Eq, Debug, Structural)]
pub struct Perlin {
    pub seed: u32,
    pub frequency_bits: u32,
    pub flags: u32,
}

/// Switches of the kernel, one bit each.
#[derive(Clone, Copy, PartialEq, Eq, Debug, Structural)]
pub struct PerlinFlags {
    bits: u32,
}

impl PerlinFlags {
    /// The noise repeats at the image's edges.
    pub const TILEABLE: u32 = 1;

    /// Values are mapped from [-1, 1] to [0, 1].
    pub const REMAP: u32 = 2;

    /// Cubic interpolation in place of quintic.
    pub const INTERPOLATE_CUBIC: u32 = 4;

    pub closed spec fn spec_bits(&self) -> u32 {
        self.bits
    }

    pub fn bits(&self) -> (bits: u32)
        ensures
            bits == self.spec_bits(),
    {
        self.bits
    }

    /// The flags with exactly these bits, known or not.
    pub fn from_bits_retain(bits: u32) -> (flags: PerlinFlags)
        ensures
            flags.spec_bits() == bits,
    {
        PerlinFlags { bits }
    }

    pub fn empty() -> (flags: PerlinFlags)
        ensures
            flags.spec_bits() == 0,
    {
        PerlinFlags { bits: 0 }
    }

    /// Whether every bit of `other` is set.
    pub fn contains(&self, other: PerlinFlags) -> (contained: bool)
        ensures
            contained == (self.spec_bits() & other.spec_bits() == other.spec_bits()),
    {
        self.bits & other.bits == other.bits
    }

    /// The bits of both.
    pub fn union(self, other: PerlinFlags) -> (flags: PerlinFlags)
        ensures
            flags.spec_bits() == self.spec_bits() | other.spec_bits(),
    {
        PerlinFlags { bits: self.bits | other.bits }
    }
}

impl Default for PerlinFlags {
    fn default() -> (flags: PerlinFlags)
        ensures
            flags.spec_bits() == 2,
    {
        PerlinFlags { bits: 2 }
    }
}

impl Default for Perlin {
    fn default() -> (noise: Perlin)
        ensures
            noise == (Perlin { seed: 0, frequency_bits: PERLIN_DEFAULT_FREQUENCY_BITS, flags: 2 }),
    {
        Perlin {
            seed: 0,
            frequency_bits: PERLIN_DEFAULT_FREQUENCY_BITS,
            flags: PerlinFlags::default().bits(),
        }
    }
}

impl ComputeNoise for Perlin {
    open spec fn spec_noise_op() -> NoiseOp {
        NoiseOp::Generator
    }

    open spec fn spec_type_id() -> NoiseTypeId {
        NoiseTypeId { base: PERLIN_TYPE, fbm: false }
    }

    open spec fn spec_texture_dimension() -> Option<TextureDimension> {
        None
    }

    open spec fn spec_buffers(&self) -> Seq<Seq<u32>> {
        seq![seq![self.seed, self.frequency_bits, self.flags]]
    }

    fn noise_op() -> (op: NoiseOp) {
        NoiseOp::Generator
    }

    fn type_id() -> (id: NoiseTypeId) {
        NoiseTypeId { base: PERLIN_TYPE, fbm: false }
    }

    fn texture_dimension() -> (dimension: Option<TextureDimension>) {
        None
    }

    fn buffers(&self) -> (buffers: Vec<Vec<u32>>) {
        let words = self.words();
        assert(words.deep_view() =~= seq![self.seed, self.frequency_bits, self.flags]);
        let buffers = vec![words];
        assert(buffers.deep_view() =~= seq![seq![self.seed, self.frequency_bits, self.flags]]);
        buffers
    }
}

impl ComputeNoiseGenerator for Perlin {
    open spec fn spec_shader_2d() -> Seq<char> {
        "embedded://bevy_compute_noise/noise/generators/shaders/perlin_2d.wgsl"@
    }

    open spec fn spec_shader_3d() -> Seq<char> {
        "embedded://bevy_compute_noise/noise/generators/shaders/perlin_3d.wgsl"@
    }

    open spec fn spec_shader_def() -> Seq<char> {
        "PERLIN"@
    }

    open spec fn spec_words(&self) -> Seq<u32> {
        seq![self.seed, self.frequency_bits, self.flags]
    }

    fn shader_2d() -> (path: &'static str) {
        "embedded://bevy_compute_noise/noise/generators/shaders/perlin_2d.wgsl"
    }

    fn shader_3d() -> (path: &'static str) {
        "embedded://bevy_compute_noise/noise/generators/shaders/perlin_3d.wgsl"
    }

    fn shader_def() -> (token: &'static str) {
        "PERLIN"
    }

    fn words(&self) -> (words: Vec<u32>) {
        let words = vec![self.seed, self.frequency_bits, self.flags];
        assert(words@ =~= seq![self.seed, self.frequency_bits, self.flags]);
        words
    }
}

impl ComputeNoiseShader for Perlin {
    open spec fn spec_import_path() -> Seq<char> {
        "bevy_compute_noise::perlin"@
    }

    open spec fn spec_struct_name() -> Option<Seq<char>> {
        Some("Perlin"@)
    }

    open spec fn spec_function_name() -> Seq<char> {
        "perlin_2d"@
    }

    fn import_path() -> (path: &'static str) {
        "bevy_compute_noise::perlin"
    }

    fn struct_name() -> (name: Option<&'static str>) {
        Some("Perlin")
    }

    fn function_name() -> (name: &'static str) {
        "perlin_2d"
    }
}

} // verus!
