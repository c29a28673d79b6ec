//! Inversion: every value `v` becomes `1 - v`.

use vstd::prelude::*;
use crate::image::TextureDimension;
use crate::noise::ComputeNoise;
use crate::noise::NoiseTypeId;
use crate::noise::modifiers::ComputeNoiseModifier;
use crate::render::pipeline::NoiseOp;
use crate::shader::ComputeNoiseShader;

verus! {

/// The number that tells this kernel type from the others.
pub const INVERT_TYPE: u32 = 3;

/// The inverting modifier. It has no parameters.
#[derive(Clone, Copy, PartialEq, Eq, Debug, Structural)]
pub struct Invert;

impl Default for Invert {
    fn default() -> (noise: Invert)
        ensures
            noise == Invert,
    {
        Invert
    }
}

impl ComputeNoise for Invert {
    open spec fn spec_noise_op() -> NoiseOp {
        NoiseOp::Modifier
    }

    open spec fn spec_type_id() -> NoiseTypeId {
        NoiseTypeId { base: INVERT_TYPE, fbm: false }
    }

    open spec fn spec_texture_dimension() -> Option<TextureDimension> {
        None
    }

    open spec fn spec_buffers(&self) -> Seq<Seq<u32>> {
        Seq::empty()
    }

    fn noise_op() -> (op: NoiseOp) {
        NoiseOp::Modifier
    }

    fn type_id() -> (id: NoiseTypeId) {
        NoiseTypeId { base: INVERT_TYPE, fbm: false }
    }

    fn texture_dimension() -> (dimension: Option<TextureDimension>) {
        None
    }

    fn buffers(&self) -> (buffers: Vec<Vec<u32>>) {
        let buffers: Vec<Vec<u32>> = Vec::new();
        assert(buffers.deep_view() =~= Seq::<Seq<u32>>::empty());
        buffers
    }
}

impl ComputeNoiseModifier for Invert {
    open spec fn spec_shader() -> Seq<char> {
        "embedded://bevy_compute_noise/noise/modifiers/shaders/invert.wgsl"@
    }

    fn shader() -> (path: &'static str) {
        "embedded://bevy_compute_noise/noise/modifiers/shaders/invert.wgsl"
    }
}

impl ComputeNoiseShader for Invert {
    open spec fn spec_import_path() -> Seq<char> {
        "bevy_compute_noise::invert"@
    }

    open spec fn spec_struct_name() -> Option<Seq<char>> {
        None
    }

    open spec fn spec_function_name() -> Seq<char> {
        "invert"@
    }

    fn import_path() -> (path: &'static str) {
        "bevy_compute_noise::invert"
    }

    fn struct_name() -> (name: Option<&'static str>) {
        None
    }

    fn function_name() -> (name: &'static str) {
        "invert"
    }
}

} // verus!
