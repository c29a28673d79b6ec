//! Cellular noise.

use vstd::prelude::*;
use crate::image::TextureDimension;
use crate::noise::ComputeNoise;
use crate::noise::NoiseTypeId;
use crate::noise::generators::ComputeNoiseGenerator;
use crate::render::pipeline::NoiseOp;
use crate::shader::ComputeNoiseShader;

verus! {

/// The number that tells this kernel type from the others.
pub const WORLEY_TYPE: u32 = 2;

/// The bit pattern of the default frequency, 5.0 as a 32-bit float.
pub const WORLEY_DEFAULT_FREQUENCY_BITS: u32 = 0x40a0_0000;

/// Parameters of the kernel, as the shader reads them. `frequency_bits` is the
/// bit pattern of a 32-bit float.
#[derive(Clone, Copy, PartialEq, Eq, Debug, Structural)]
pub struct Worley {
    pub seed: u32,
    pub frequency_bits: u32,
    pub flags: u32,
}

/// Switches of the kernel, one bit each.
#[derive(Clone, Copy, PartialEq, Eq, Debug, Structural)]
pub struct WorleyFlags {
    bits: u32,
}

impl WorleyFlags {
    /// The noise repeats at the image's edges.
    pub const TILEABLE: u32 = 1;

    pub closed spec fn spec_bits(&self) -> u32 {
        self.bits
    }

    pub fn bits(&self) -> (bits: u32)
        ensures
            bits == self.spec_bits(),
    {
        self.bits
    }

    /// The flags with exactly these bits, known or not.
    pub fn from_bits_retain(bits: u32) -> (flags: WorleyFlags)
        ensures
            flags.spec_bits() == bits,
    {
        WorleyFlags { bits }
    }

    pub fn empty() -> (flags: WorleyFlags)
        ensures
            flags.spec_bits() == 0,
    {
        WorleyFlags { bits: 0 }
    }

    /// Whether every bit of `other` is set.
    pub fn contains(&self, other: WorleyFlags) -> (contained: bool)
        ensures
            contained == (self.spec_bits() & other.spec_bits() == other.spec_bits()),
    {
        self.bits & other.bits == other.bits
    }

    /// The bits of both.
    pub fn union(self, other: WorleyFlags) -> (flags: WorleyFlags)
        ensures
            flags.spec_bits() == self.spec_bits() | other.spec_bits(),
    {
        WorleyFlags { bits: self.bits | other.bits }
    }
}

impl Default for WorleyFlags {
    fn default() -> (flags: WorleyFlags)
        ensures
            flags.spec_bits() == 0,
    {
        WorleyFlags { bits: 0 }
    }
}

impl Default for Worley {
    fn default() -> (noise: Worley)
        ensures
            noise == (Worley { seed: 0, frequency_bits: WORLEY_DEFAULT_FREQUENCY_BITS, flags: 0 }),
    {
        Worley {
            seed: 0,
            frequency_bits: WORLEY_DEFAULT_FREQUENCY_BITS,
            flags: WorleyFlags::default().bits(),
        }
    }
}

impl ComputeNoise for Worley {
    open spec fn spec_noise_op() -> NoiseOp {
        NoiseOp::Generator
    }

    open spec fn spec_type_id() -> NoiseTypeId {
        NoiseTypeId { base: WORLEY_TYPE, fbm: false }
    }

    open spec fn spec_texture_dimension() -> Option<TextureDimension> {
        None
    }

    open spec fn spec_buffers(&self) -> Seq<Seq<u32>> {
        seq![seq![self.seed, self.frequency_bits, self.flags]]
    }

    fn noise_op() -> (op: NoiseOp) {
        NoiseOp::Generator
    }

    fn type_id() -> (id: NoiseTypeId) {
        NoiseTypeId { base: WORLEY_TYPE, fbm: false }
    }

    fn texture_dimension() -> (dimension: Option<TextureDimension>) {
        None
    }

    fn buffers(&self) -> (buffers: Vec<Vec<u32>>) {
        let words = self.words();
        assert(words.deep_view() =~= seq![self.seed, self.frequency_bits, self.flags]);
        let buffers = vec![words];
        assert(buffers.deep_view() =~= seq![seq![self.seed, self.frequency_bits, self.flags]]);
        buffers
    }
}

impl ComputeNoiseGenerator for Worley {
    open spec fn spec_shader_2d() -> Seq<char> {
        "embedded://bevy_compute_noise/noise/generators/shaders/worley_2d.wgsl"@
    }

    open spec fn spec_shader_3d() -> Seq<char> {
        "embedded://bevy_compute_noise/noise/generators/shaders/worley_3d.wgsl"@
    }

    open spec fn spec_shader_def() -> Seq<char> {
        "WORLEY"@
    }

    open spec fn spec_words(&self) -> Seq<u32> {
        seq![self.seed, self.frequency_bits, self.flags]
    }

    fn shader_2d() -> (path: &'static str) {
        "embedded://bevy_compute_noise/noise/generators/shaders/worley_2d.wgsl"
    }

    fn shader_3d() -> (path: &'static str) {
        "embedded://bevy_compute_noise/noise/generators/shaders/worley_3d.wgsl"
    }

    fn shader_def() -> (token: &'static str) {
        "WORLEY"
    }

    fn words(&self) -> (words: Vec<u32>) {
        let words = vec![self.seed, self.frequency_bits, self.flags];
        assert(words@ =~= seq![self.seed, self.frequency_bits, self.flags]);
        words
    }
}

impl ComputeNoiseShader for Worley {
    open spec fn spec_import_path() -> Seq<char> {
        "bevy_compute_noise::worley"@
    }

    open spec fn spec_struct_name() -> Option<Seq<char>> {
        Some("Worley"@)
    }

    open spec fn spec_function_name() -> Seq<char> {
        "worley_2d"@
    }

    fn import_path() -> (path: &'static str) {
        "bevy_compute_noise::worley"
    }

    fn struct_name() -> (name: Option<&'static str>) {
        Some("Worley")
    }

    fn function_name() -> (name: &'static str) {
        "worley_2d"
    }
}

} // verus!
