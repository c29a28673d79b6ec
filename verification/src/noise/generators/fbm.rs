//! Fractal sums: a base generator is run at rising frequencies and falling
//! weights, and the runs are added up.

use vstd::prelude::*;
use crate::image::TextureDimension;
use crate::noise::ComputeNoise;
use crate::noise::NoiseTypeId;
use crate::noise::generators::ComputeNoiseGenerator;
use crate::render::pipeline::NoiseOp;
use crate::shader::ComputeNoiseShader;

verus! {

/// The bit pattern of the default lacunarity, 2.0 as a 32-bit float.
pub const FBM_DEFAULT_LACUNARITY_BITS: u32 = 0x4000_0000;

/// The bit pattern of the default persistence, 0.5 as a 32-bit float.
pub const FBM_DEFAULT_PERSISTENCE_BITS: u32 = 0x3f00_0000;

/// The number of runs that are added up by default.
pub const FBM_DEFAULT_OCTAVES: u32 = 4;

/// A fractal sum over `noise`. `lacunarity_bits` and `persistence_bits` are bit
/// patterns of 32-bit floats.
pub struct Fbm<T: ComputeNoiseGenerator> {
    pub noise: T,
    pub octaves: u32,
    pub lacunarity_bits: u32,
    pub persistence_bits: u32,
    pub flags: u32,
}

/// Switches of the fractal sum, one bit each.
#[derive(Clone, Copy, PartialEq, Eq, Debug, Structural)]
pub struct FbmFlags {
    bits: u32,
}

impl FbmFlags {
    /// The sum is inverted.
    pub const INVERT: u32 = 1;

    /// The absolute value of each run is taken.
    pub const BILLOWY: u32 = 2;

    pub closed spec fn spec_bits(&self) -> u32 {
        self.bits
    }

    pub fn bits(&self) -> (bits: u32)
        ensures
            bits == self.spec_bits(),
    {
        self.bits
    }

    /// The flags with exactly these bits, known or not.
    pub fn from_bits_retain(bits: u32) -> (flags: FbmFlags)
        ensures
            flags.spec_bits() == bits,
    {
        FbmFlags { bits }
    }

    pub fn empty() -> (flags: FbmFlags)
        ensures
            flags.spec_bits() == 0,
    {
        FbmFlags { bits: 0 }
    }

    /// Whether every bit of `other` is set.
    pub fn contains(&self, other: FbmFlags) -> (contained: bool)
        ensures
            contained == (self.spec_bits() & other.spec_bits() == other.spec_bits()),
    {
        self.bits & other.bits == other.bits
    }

    /// The bits of both.
    pub fn union(self, other: FbmFlags) -> (flags: FbmFlags)
        ensures
            flags.spec_bits() == self.spec_bits() | other.spec_bits(),
    {
        FbmFlags { bits: self.bits | other.bits }
    }
}

impl<T: ComputeNoiseGenerator> Fbm<T> {
    /// The words of the sum's own parameters, then those of the base.
    pub open spec fn spec_words(&self) -> Seq<u32> {
        seq![self.octaves, self.lacunarity_bits, self.persistence_bits, self.flags]
            + self.noise.spec_words()
    }

    /// A fractal sum over `noise` with the default settings.
    pub fn new(noise: T) -> (fbm: Fbm<T>)
        ensures
            fbm.noise == noise,
            fbm.octaves == FBM_DEFAULT_OCTAVES,
            fbm.lacunarity_bits == FBM_DEFAULT_LACUNARITY_BITS,
            fbm.persistence_bits == FBM_DEFAULT_PERSISTENCE_BITS,
            fbm.flags == 0,
    {
        Fbm {
            noise,
            octaves: FBM_DEFAULT_OCTAVES,
            lacunarity_bits: FBM_DEFAULT_LACUNARITY_BITS,
            persistence_bits: FBM_DEFAULT_PERSISTENCE_BITS,
            flags: 0,
        }
    }
}

impl<T: ComputeNoiseGenerator> Clone for Fbm<T> {
    fn clone(&self) -> (copy: Fbm<T>)
        ensures
            cloned(self.noise, copy.noise),
            copy.octaves == self.octaves,
            copy.lacunarity_bits == self.lacunarity_bits,
            copy.persistence_bits == self.persistence_bits,
            copy.flags == self.flags,
    {
        Fbm {
            noise: self.noise.clone(),
            octaves: self.octaves,
            lacunarity_bits: self.lacunarity_bits,
            persistence_bits: self.persistence_bits,
            flags: self.flags,
        }
    }
}

impl<T: ComputeNoiseGenerator + Default> Default for Fbm<T> {
    fn default() -> (fbm: Fbm<T>)
        ensures
            call_ensures(T::default, (), fbm.noise),
            fbm.octaves == FBM_DEFAULT_OCTAVES,
            fbm.lacunarity_bits == FBM_DEFAULT_LACUNARITY_BITS,
            fbm.persistence_bits == FBM_DEFAULT_PERSISTENCE_BITS,
            fbm.flags == 0,
    {
        Fbm::new(T::default())
    }
}

impl<T: ComputeNoiseGenerator> ComputeNoise for Fbm<T> {
    open spec fn spec_noise_op() -> NoiseOp {
        NoiseOp::Generator
    }

    open spec fn spec_type_id() -> NoiseTypeId {
        NoiseTypeId { base: T::spec_type_id().base, fbm: true }
    }

    open spec fn spec_texture_dimension() -> Option<TextureDimension> {
        T::spec_texture_dimension()
    }

    open spec fn spec_buffers(&self) -> Seq<Seq<u32>> {
        seq![self.spec_words()]
    }

    fn noise_op() -> (op: NoiseOp) {
        NoiseOp::Generator
    }

    fn type_id() -> (id: NoiseTypeId) {
        NoiseTypeId { base: T::type_id().base, fbm: true }
    }

    fn texture_dimension() -> (dimension: Option<TextureDimension>) {
        T::texture_dimension()
    }

    fn buffers(&self) -> (buffers: Vec<Vec<u32>>) {
        let mut words = vec![self.octaves, self.lacunarity_bits, self.persistence_bits, self.flags];
        let mut base = self.noise.words();
        words.append(&mut base);
        assert(words@ =~= self.spec_words());
        assert(words.deep_view() =~= self.spec_words());
        let buffers = vec![words];
        assert(buffers.deep_view() =~= seq![self.spec_words()]);
        buffers
    }
}

impl<T: ComputeNoiseGenerator> ComputeNoiseShader for Fbm<T> {
    open spec fn spec_import_path() -> Seq<char> {
        "bevy_compute_noise::fbm"@
    }

    open spec fn spec_struct_name() -> Option<Seq<char>> {
        Some("Config"@)
    }

    open spec fn spec_function_name() -> Seq<char> {
        "fbm"@
    }

    fn import_path() -> (path: &'static str) {
        "bevy_compute_noise::fbm"
    }

    fn struct_name() -> (name: Option<&'static str>) {
        Some("Config")
    }

    fn function_name() -> (name: &'static str) {
        "fbm"
    }
}

} // verus!
