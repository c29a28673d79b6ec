//! Kernels that write an image from their parameters alone.

use vstd::prelude::*;
use crate::noise::ComputeNoise;

pub mod fbm;
pub mod perlin;
pub mod worley;

pub use fbm::Fbm;
pub use fbm::FbmFlags;
pub use perlin::Perlin;
pub use perlin::PerlinFlags;
pub use worley::Worley;
pub use worley::WorleyFlags;

verus! {

/// A generator: it has a shader for images of either dimensionality, a token
/// by which shared shader source selects it, and parameters that lie in
/// memory as 32-bit words.
pub trait ComputeNoiseGenerator: ComputeNoise {
    spec fn spec_shader_2d() -> Seq<char>;

    spec fn spec_shader_3d() -> Seq<char>;

    spec fn spec_shader_def() -> Seq<char>;

    spec fn spec_words(&self) -> Seq<u32>;

    fn shader_2d() -> (path: &'static str)
        ensures
            path@ == Self::spec_shader_2d(),
    ;

    fn shader_3d() -> (path: &'static str)
        ensures
            path@ == Self::spec_shader_3d(),
    ;

    fn shader_def() -> (token: &'static str)
        ensures
            token@ == Self::spec_shader_def(),
    ;

    fn words(&self) -> (words: Vec<u32>)
        ensures
            words@ == self.spec_words(),
    ;
}

} // verus!
