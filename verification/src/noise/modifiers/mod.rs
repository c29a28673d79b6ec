//! Kernels that rewrite an image from another.

use vstd::prelude::*;
use crate::noise::ComputeNoise;

pub mod invert;

pub use invert::Invert;

verus! {

/// A modifier: it has one shader, which serves both dimensionalities.
pub trait ComputeNoiseModifier: ComputeNoise {
    spec fn spec_shader() -> Seq<char>;

    fn shader() -> (path: &'static str)
        ensures
            path@ == Self::spec_shader(),
    ;
}

} // verus!
