//! Gradient noise for flat images only.

use vstd::prelude::*;
use crate::image::TextureDimension;
use crate::noise::ComputeNoise;
use crate::noise::NoiseTypeId;
use crate::noise::generators::ComputeNoiseGenerator;
use crate::render::pipeline::NoiseOp;
use crate::shader::ComputeNoiseShader;

verus! {

/// The number that tells this kernel type from the others.
pub const PERLIN_2D_TYPE: u32 = 4;

/// The bit pattern of the default frequency, 5.0 as a 32-bit float.
pub const PERLIN_2D_DEFAULT_FREQUENCY_BITS: u32 = 0x40a0_0000;

/// Parameters of the kernel, as the shader reads them. The kernel is declared
/// for two-dimensional images. `frequency_bits` is the
/// bit pattern of a 32-bit float.
#[derive(Clone, Copy, PartialEq, Eq, Debug, Structural)]
pub struct Perlin2d {
    pub seed: u32,
    pub frequency_bits: u32,
    pub flags: u32,
}

/// Switches of the kernel, one bit each.
#[derive(Clone, Copy, PartialEq, Eq, Debug, Structural)]
pub struct Perlin2dFlags {
    bits: u32,
}

impl Perlin2dFlags {
    /// The noise repeats at the image's edges.
    pub const TILEABLE: u32 = 1;

    /// Every value `v` becomes `1 - v`.
    pub const INVERT: u32 = 2;

    /// Values are mapped from [-1, 1] to [0, 1].
    pub const REMAP: u32 = 4;

    /// Values are mapped from the range that noise of this dimensionality
    /// has to [0, 1].
    pub const REMAP_SQRT: u32 = 8;

    /// Cubic interpolation in place of quintic.
    pub const INTERPOLATE_CUBIC: u32 = 16;

    pub closed spec fn spec_bits(&self) -> u32 {
        self.bits
    }

    pub fn bits(&self) -> (bits: u32)
        ensures
            bits == self.spec_bits(),
    {
        self.bits
    }

    /// The flags with exactly these bits, known or not.
    pub fn from_bits_retain(bits: u32) -> (flags: Perlin2dFlags)
        ensures
            flags.spec_bits() == bits,
    {
        Perlin2dFlags { bits }
    }

    pub fn empty() -> (flags: Perlin2dFlags)
        ensures
            flags.spec_bits() == 0,
    {
        Perlin2dFlags { bits: 0 }
    }

    /// Whether every bit of `other` is set.
    pub fn contains(&self, other: Perlin2dFlags) -> (contained: bool)
        ensures
            contained == (self.spec_bits() & other.spec_bits() == other.spec_bits()),
    {
        self.bits & other.bits == other.bits
    }

    /// The bits of both.
    pub fn union(self, other: Perlin2dFlags) -> (flags: Perlin2dFlags)
        ensures
            flags.spec_bits() == self.spec_bits() | other.spec_bits(),
    {
        Perlin2dFlags { bits: self.bits | other.bits }
    }
}

impl Default for Perlin2dFlags {
    fn default() -> (flags: Perlin2dFlags)
        ensures
            flags.spec_bits() == 8,
    {
        Perlin2dFlags { bits: 8 }
    }
}

impl Default for Perlin2d {
    fn default() -> (noise: Perlin2d)
        ensures
            noise == (Perlin2d {
                seed: 0,
                frequency_bits: PERLIN_2D_DEFAULT_FREQUENCY_BITS,
                flags: 8,
            }),
    {
        Perlin2d {
            seed: 0,
            frequency_bits: PERLIN_2D_DEFAULT_FREQUENCY_BITS,
            flags: Perlin2dFlags::default().bits(),
        }
    }
}

impl ComputeNoise for Perlin2d {
    open spec fn spec_noise_op() -> NoiseOp {
        NoiseOp::Generator
    }

    open spec fn spec_type_id() -> NoiseTypeId {
        NoiseTypeId { base: PERLIN_2D_TYPE, fbm: false }
    }

    open spec fn spec_texture_dimension() -> Option<TextureDimension> {
        Some(TextureDimension::D2)
    }

    open spec fn spec_buffers(&self) -> Seq<Seq<u32>> {
        seq![seq![self.seed, self.frequency_bits, self.flags]]
    }

    fn noise_op() -> (op: NoiseOp) {
        NoiseOp::Generator
    }

    fn type_id() -> (id: NoiseTypeId) {
        NoiseTypeId { base: PERLIN_2D_TYPE, fbm: false }
    }

    fn texture_dimension() -> (dimension: Option<TextureDimension>) {
        Some(TextureDimension::D2)
    }

    fn buffers(&self) -> (buffers: Vec<Vec<u32>>) {
        let words = self.words();
        assert(words.deep_view() =~= seq![self.seed, self.frequency_bits, self.flags]);
        let buffers = vec![words];
        assert(buffers.deep_view() =~= seq![seq![self.seed, self.frequency_bits, self.flags]]);
        buffers
    }
}

impl ComputeNoiseGenerator for Perlin2d {
    open spec fn spec_shader_2d() -> Seq<char> {
        "embedded://bevy_compute_noise/noise/shaders/perlin_2d.wgsl"@
    }

    open spec fn spec_shader_3d() -> Seq<char> {
        "embedded://bevy_compute_noise/noise/shaders/perlin_3d.wgsl"@
    }

    open spec fn spec_shader_def() -> Seq<char> {
        "PERLIN"@
    }

    open spec fn spec_words(&self) -> Seq<u32> {
        seq![self.seed, self.frequency_bits, self.flags]
    }

    fn shader_2d() -> (path: &'static str) {
        "embedded://bevy_compute_noise/noise/shaders/perlin_2d.wgsl"
    }

    fn shader_3d() -> (path: &'static str) {
        "embedded://bevy_compute_noise/noise/shaders/perlin_3d.wgsl"
    }

    fn shader_def() -> (token: &'static str) {
        "PERLIN"
    }

    fn words(&self) -> (words: Vec<u32>) {
        let words = vec![self.seed, self.frequency_bits, self.flags];
        assert(words@ =~= seq![self.seed, self.frequency_bits, self.flags]);
        words
    }
}

impl ComputeNoiseShader for Perlin2d {
    open spec fn spec_import_path() -> Seq<char> {
        "bevy_compute_noise::perlin_2d"@
    }

    open spec fn spec_struct_name() -> Option<Seq<char>> {
        Some("Perlin2d"@)
    }

    open spec fn spec_function_name() -> Seq<char> {
        "perlin_2d"@
    }

    fn import_path() -> (path: &'static str) {
        "bevy_compute_noise::perlin_2d"
    }

    fn struct_name() -> (name: Option<&'static str>) {
        Some("Perlin2d")
    }

    fn function_name() -> (name: &'static str) {
        "perlin_2d"
    }
}

} // verus!
