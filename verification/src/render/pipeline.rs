//! Which pipeline serves which kernel, and what it is made of.
//!
//! Kernel types are registered once, with their shaders. The first request
//! for a key queues its pipeline for compilation; from then on the key is
//! served from the catalog.

use vstd::prelude::*;
use crate::image::ComputeNoiseSize;
use crate::image::ImageHandle;
use crate::image::TextureDimension;
use crate::noise::ComputeNoise;
use crate::noise::NoiseTypeId;
use crate::noise::generators::ComputeNoiseGenerator;
use crate::noise::generators::Fbm;
use crate::noise::modifiers::ComputeNoiseModifier;
use crate::table::Table;
use crate::table::TableKey;
use crate::table::copy_vec;

verus! {

/// What a kernel does with images: write one, rewrite one from another, or
/// write one from two others.
#[derive(Copy, Clone, Debug, Hash, Eq, PartialEq, Structural)]
pub enum NoiseOp {
    Generator,
    Modifier,
    Combiner,
}

/// Names one compiled pipeline: a kernel type, the dimensionality of the
/// images it runs on, and its kind of operation.
#[derive(Clone, Copy, PartialEq, Eq, Hash, Debug, Structural)]
pub struct ComputeNoisePipelineKey {
    pub type_id: NoiseTypeId,
    pub dimension: TextureDimension,
    pub op: NoiseOp,
}

impl TableKey for ComputeNoisePipelineKey {
    /// The numbers of the kernel type, the dimensionality and the operation,
    /// as digits of one number.
    open spec fn spec_code(self) -> u64 {
        ((self.type_id.spec_code() * 3 + spec_dimension_code(self.dimension)) * 3 + spec_op_code(
            self.op,
        )) as u64
    }

    fn code(&self) -> (code: u64) {
        let dimension: u64 = match self.dimension {
            TextureDimension::D1 => 0,
            TextureDimension::D2 => 1,
            TextureDimension::D3 => 2,
        };
        let op: u64 = match self.op {
            NoiseOp::Generator => 0,
            NoiseOp::Modifier => 1,
            NoiseOp::Combiner => 2,
        };
        (self.type_id.code() * 3 + dimension) * 3 + op
    }

    proof fn lemma_code_is_injective(a: Self, b: Self) {
        NoiseTypeId::lemma_code_is_injective(a.type_id, b.type_id);
    }
}

/// The number of a dimensionality.
pub open spec fn spec_dimension_code(dimension: TextureDimension) -> int {
    match dimension {
        TextureDimension::D1 => 0,
        TextureDimension::D2 => 1,
        TextureDimension::D3 => 2,
    }
}

/// The number of a kind of operation.
pub open spec fn spec_op_code(op: NoiseOp) -> int {
    match op {
        NoiseOp::Generator => 0,
        NoiseOp::Modifier => 1,
        NoiseOp::Combiner => 2,
    }
}

/// One binding of a bind group layout.
#[derive(Clone, Copy, Debug, PartialEq, Eq, Structural)]
pub enum BindingKind {
    /// A two-dimensional storage texture of four 8-bit channels, read and written.
    StorageTexture2d,
    /// A three-dimensional storage texture of four 8-bit channels, read and written.
    StorageTexture3d,
    /// A uniform buffer without dynamic offset.
    UniformBuffer,
}

/// The binding of a two-dimensional noise image.
pub fn noise_texture_2d() -> (binding: BindingKind)
    ensures
        binding == BindingKind::StorageTexture2d,
{
    BindingKind::StorageTexture2d
}

/// The binding of a three-dimensional noise image.
pub fn noise_texture_3d() -> (binding: BindingKind)
    ensures
        binding == BindingKind::StorageTexture3d,
{
    BindingKind::StorageTexture3d
}

/// The shape of a bind group: its bindings 0 and 1, visible to compute shaders.
#[derive(Clone, Copy, Debug, PartialEq, Eq, Structural)]
pub struct BindGroupLayout {
    pub first: BindingKind,
    pub second: BindingKind,
}

/// What a binding of a bind group is bound to.
#[derive(Debug, PartialEq, Eq)]
pub enum BindingResource {
    /// The view of an image.
    TextureView(ImageHandle),
    /// A buffer with these contents, as 32-bit words.
    Buffer(Vec<u32>),
    /// A buffer that holds the extent of an image of this size, one number
    /// for each of its axes.
    ImageSize(ComputeNoiseSize),
}

/// A bound resource as plain values.
pub enum BindingResourceView {
    TextureView(ImageHandle),
    Buffer(Seq<u32>),
    ImageSize(ComputeNoiseSize),
}

impl DeepView for BindingResource {
    type V = BindingResourceView;

    open spec fn deep_view(&self) -> BindingResourceView {
        match self {
            BindingResource::TextureView(image) => BindingResourceView::TextureView(*image),
            BindingResource::Buffer(words) => BindingResourceView::Buffer(words@),
            BindingResource::ImageSize(size) => BindingResourceView::ImageSize(*size),
        }
    }
}

impl BindingResource {
    /// A copy that binds the same.
    pub fn duplicate(&self) -> (copy: BindingResource)
        ensures
            copy.deep_view() == self.deep_view(),
    {
        match self {
            BindingResource::TextureView(image) => BindingResource::TextureView(*image),
            BindingResource::Buffer(words) => BindingResource::Buffer(copy_vec(words)),
            BindingResource::ImageSize(size) => BindingResource::ImageSize(*size),
        }
    }
}

/// One entry of a bind group: a binding number and what is bound to it.
#[derive(Debug, PartialEq, Eq)]
pub struct BindGroupEntry {
    pub binding: u32,
    pub resource: BindingResource,
}

/// A bind group entry as plain values.
pub struct BindGroupEntryView {
    pub binding: u32,
    pub resource: BindingResourceView,
}

impl DeepView for BindGroupEntry {
    type V = BindGroupEntryView;

    open spec fn deep_view(&self) -> BindGroupEntryView {
        BindGroupEntryView { binding: self.binding, resource: self.resource.deep_view() }
    }
}

/// Resources of one kernel run, as the host is to bind them.
#[derive(Debug, PartialEq, Eq)]
pub struct BindGroup {
    pub entries: Vec<BindGroupEntry>,
}

/// A bind group as plain values.
pub struct BindGroupView {
    pub entries: Seq<BindGroupEntryView>,
}

impl DeepView for BindGroup {
    type V = BindGroupView;

    open spec fn deep_view(&self) -> BindGroupView {
        BindGroupView { entries: self.entries.deep_view() }
    }
}

impl BindGroup {
    /// A copy with the same entries.
    pub fn duplicate(&self) -> (copy: BindGroup)
        ensures
            copy.deep_view() == self.deep_view(),
    {
        let mut entries: Vec<BindGroupEntry> = Vec::new();
        let mut i: usize = 0;
        while i < self.entries.len()
            invariant
                i <= self.entries.len(),
                entries.len() == i,
                forall|j: int|
                    0 <= j < i ==> (#[trigger] entries@[j]).deep_view()
                        == self.entries@[j].deep_view(),
            decreases self.entries.len() - i,
        {
            entries.push(
                BindGroupEntry {
                    binding: self.entries[i].binding,
                    resource: self.entries[i].resource.duplicate(),
                },
            );
            i = i + 1;
        }
        assert(entries.deep_view() =~= self.entries.deep_view());
        BindGroup { entries }
    }
}

/// A range of push constants: the bytes from `start` up to `end`, visible to
/// compute shaders.
#[derive(Clone, Copy, Debug, PartialEq, Eq, Structural)]
pub struct PushConstantRange {
    pub start: u32,
    pub end: u32,
}

/// What the device needs to compile a pipeline.
#[derive(Debug, PartialEq, Eq)]
pub struct ComputePipelineDescriptor {
    pub label: Option<&'static str>,
    pub layout: Vec<BindGroupLayout>,
    pub push_constant_ranges: Vec<PushConstantRange>,
    pub shader: &'static str,
    pub shader_defs: Vec<&'static str>,
    pub entry_point: &'static str,
    pub zero_initialize_workgroup_memory: bool,
}

/// A pipeline descriptor as plain values.
pub struct ComputePipelineDescriptorView {
    pub label: Option<Seq<char>>,
    pub layout: Seq<BindGroupLayout>,
    pub push_constant_ranges: Seq<PushConstantRange>,
    pub shader: Seq<char>,
    pub shader_defs: Seq<Seq<char>>,
    pub entry_point: Seq<char>,
    pub zero_initialize_workgroup_memory: bool,
}

impl DeepView for ComputePipelineDescriptor {
    type V = ComputePipelineDescriptorView;

    open spec fn deep_view(&self) -> ComputePipelineDescriptorView {
        ComputePipelineDescriptorView {
            label: match self.label {
                Some(label) => Some(label@),
                None => None,
            },
            layout: self.layout@,
            push_constant_ranges: self.push_constant_ranges@,
            shader: self.shader@,
            shader_defs: self.shader_defs.deep_view(),
            entry_point: self.entry_point@,
            zero_initialize_workgroup_memory: self.zero_initialize_workgroup_memory,
        }
    }
}

/// The shader that every fractal sum runs.
pub const FBM_SHADER: &'static str =
    "embedded://bevy_compute_noise/noise/generators/shaders/fbm.wgsl";

/// Helpers that the kernels' shaders import.
pub const UTIL_SHADER: &'static str = "embedded://bevy_compute_noise/noise/shaders/util.wgsl";

/// The key of a kernel type for two-dimensional images.
pub open spec fn spec_key_2d(type_id: NoiseTypeId, op: NoiseOp) -> ComputeNoisePipelineKey {
    ComputeNoisePipelineKey { type_id, dimension: TextureDimension::D2, op }
}

/// The key of a kernel type for three-dimensional images.
pub open spec fn spec_key_3d(type_id: NoiseTypeId, op: NoiseOp) -> ComputeNoisePipelineKey {
    ComputeNoisePipelineKey { type_id, dimension: TextureDimension::D3, op }
}

/// The registry of kernel types: the four bind group layouts, and for each
/// registered key its shader and the tokens its shader is compiled with.
pub struct ComputeNoisePipeline {
    generator_layout_2d: BindGroupLayout,
    generator_layout_3d: BindGroupLayout,
    modifier_layout_2d: BindGroupLayout,
    modifier_layout_3d: BindGroupLayout,
    shaders: Table<ComputeNoisePipelineKey, &'static str>,
    shader_defs: Table<ComputeNoisePipelineKey, Vec<&'static str>>,
    util_shader: &'static str,
}

impl ComputeNoisePipeline {
    /// The tables are in good order, and the layouts are those of their keys.
    pub closed spec fn wf(&self) -> bool {
        &&& self.shaders.wf()
        &&& self.shader_defs.wf()
        &&& self.generator_layout_2d == Self::spec_generator_layout(TextureDimension::D2)
        &&& self.generator_layout_3d == Self::spec_generator_layout(TextureDimension::D3)
        &&& self.modifier_layout_2d == Self::spec_modifier_layout(TextureDimension::D2)
        &&& self.modifier_layout_3d == Self::spec_modifier_layout(TextureDimension::D3)
    }

    /// The binding of a noise image of a given dimensionality.
    pub open spec fn spec_noise_texture(dimension: TextureDimension) -> BindingKind {
        if dimension == TextureDimension::D3 {
            BindingKind::StorageTexture3d
        } else {
            BindingKind::StorageTexture2d
        }
    }

    /// A generator binds its image and a uniform buffer.
    pub open spec fn spec_generator_layout(dimension: TextureDimension) -> BindGroupLayout {
        BindGroupLayout {
            first: Self::spec_noise_texture(dimension),
            second: BindingKind::UniformBuffer,
        }
    }

    /// A modifier binds two images.
    pub open spec fn spec_modifier_layout(dimension: TextureDimension) -> BindGroupLayout {
        BindGroupLayout {
            first: Self::spec_noise_texture(dimension),
            second: Self::spec_noise_texture(dimension),
        }
    }

    /// The shader of each registered key.
    pub closed spec fn shaders(&self) -> Map<ComputeNoisePipelineKey, Seq<char>> {
        Map::new(
            |key: ComputeNoisePipelineKey| self.shaders.contains(key),
            |key: ComputeNoisePipelineKey| self.shaders.value_of(key)@,
        )
    }

    /// The tokens of each key that has any.
    pub closed spec fn shader_defs(&self) -> Map<ComputeNoisePipelineKey, Seq<Seq<char>>> {
        Map::new(
            |key: ComputeNoisePipelineKey| self.shader_defs.contains(key),
            |key: ComputeNoisePipelineKey| self.shader_defs.value_of(key).deep_view(),
        )
    }

    pub closed spec fn spec_util_shader(&self) -> Seq<char> {
        self.util_shader@
    }

    /// A key has a layout when it is of two or three dimensions and of a
    /// generator or a modifier.
    pub open spec fn spec_has_layout(key: ComputeNoisePipelineKey) -> bool {
        &&& key.dimension != TextureDimension::D1
        &&& key.op != NoiseOp::Combiner
    }

    /// The layout of the bind group of a key that has one.
    pub open spec fn spec_get_layout(key: ComputeNoisePipelineKey) -> BindGroupLayout {
        if key.op == NoiseOp::Generator {
            Self::spec_generator_layout(key.dimension)
        } else {
            Self::spec_modifier_layout(key.dimension)
        }
    }

    /// A pipeline can be had for a key that has a layout and a shader.
    pub open spec fn spec_has_pipeline(&self, key: ComputeNoisePipelineKey) -> bool {
        &&& Self::spec_has_layout(key)
        &&& self.shaders().dom().contains(key)
    }

    /// The descriptor of the pipeline of `key`: a function of the key and of
    /// what is registered, and of nothing else. A pipeline has one bind group
    /// and no push constants.
    pub open spec fn spec_specialize(
        &self,
        key: ComputeNoisePipelineKey,
    ) -> ComputePipelineDescriptorView {
        ComputePipelineDescriptorView {
            label: Some("compute_noise_pipeline"@),
            layout: seq![Self::spec_get_layout(key)],
            push_constant_ranges: Seq::empty(),
            shader: self.shaders()[key],
            shader_defs: if self.shader_defs().dom().contains(key) {
                self.shader_defs()[key]
            } else {
                Seq::empty()
            },
            entry_point: "main"@,
            zero_initialize_workgroup_memory: false,
        }
    }

    /// A registry with the four layouts and no kernel type.
    pub fn new() -> (pipeline: ComputeNoisePipeline)
        ensures
            pipeline.wf(),
            pipeline.shaders() == Map::<ComputeNoisePipelineKey, Seq<char>>::empty(),
            pipeline.shader_defs() == Map::<ComputeNoisePipelineKey, Seq<Seq<char>>>::empty(),
            pipeline.spec_util_shader() == UTIL_SHADER@,
    {
        let generator_layout_2d = BindGroupLayout {
            first: noise_texture_2d(),
            second: BindingKind::UniformBuffer,
        };
        let generator_layout_3d = BindGroupLayout {
            first: noise_texture_3d(),
            second: BindingKind::UniformBuffer,
        };
        let modifier_layout_2d = BindGroupLayout {
            first: noise_texture_2d(),
            second: noise_texture_2d(),
        };
        let modifier_layout_3d = BindGroupLayout {
            first: noise_texture_3d(),
            second: noise_texture_3d(),
        };
        let pipeline = ComputeNoisePipeline {
            generator_layout_2d,
            generator_layout_3d,
            modifier_layout_2d,
            modifier_layout_3d,
            shaders: Table::new(),
            shader_defs: Table::new(),
            util_shader: UTIL_SHADER,
        };
        assert(pipeline.shaders() =~= Map::<ComputeNoisePipelineKey, Seq<char>>::empty());
        assert(pipeline.shader_defs() =~= Map::<ComputeNoisePipelineKey, Seq<Seq<char>>>::empty());
        pipeline
    }

    pub fn util_shader(&self) -> (path: &'static str)
        ensures
            path@ == self.spec_util_shader(),
    {
        self.util_shader
    }

    /// Registers `shader` as the shader of `key`, in place of any earlier one.
    pub fn insert_shader(&mut self, key: ComputeNoisePipelineKey, shader: &'static str)
        requires
            old(self).wf(),
        ensures
            final(self).wf(),
            final(self).shaders() == old(self).shaders().insert(key, shader@),
            final(self).shader_defs() == old(self).shader_defs(),
            final(self).spec_util_shader() == old(self).spec_util_shader(),
    {
        self.shaders.insert(key, shader);
        assert(self.shaders() =~= old(self).shaders().insert(key, shader@));
    }

    /// Registers `shader_defs` as the tokens of `key`, in place of any earlier ones.
    pub fn insert_shader_defs(
        &mut self,
        key: ComputeNoisePipelineKey,
        shader_defs: Vec<&'static str>,
    )
        requires
            old(self).wf(),
        ensures
            final(self).wf(),
            final(self).shaders() == old(self).shaders(),
            final(self).shader_defs() == old(self).shader_defs().insert(
                key,
                shader_defs.deep_view(),
            ),
            final(self).spec_util_shader() == old(self).spec_util_shader(),
    {
        self.shader_defs.insert(key, shader_defs);
        assert(self.shader_defs() =~= old(self).shader_defs().insert(key, shader_defs.deep_view()));
    }

    /// Decides [`Self::spec_has_layout`].
    pub fn has_layout(key: ComputeNoisePipelineKey) -> (has: bool)
        ensures
            has == Self::spec_has_layout(key),
    {
        key.dimension != TextureDimension::D1 && key.op != NoiseOp::Combiner
    }

    /// Decides [`Self::spec_has_pipeline`].
    pub fn has_pipeline(&self, key: ComputeNoisePipelineKey) -> (has: bool)
        requires
            self.wf(),
        ensures
            has == self.spec_has_pipeline(key),
    {
        Self::has_layout(key) && self.shaders.contains_key(&key)
    }

    /// The layout of the bind group that a pipeline of `key` takes.
    pub fn get_layout(&self, key: ComputeNoisePipelineKey) -> (layout: &BindGroupLayout)
        requires
            self.wf(),
            Self::spec_has_layout(key),
        ensures
            *layout == Self::spec_get_layout(key),
    {
        match (key.dimension, key.op) {
            (TextureDimension::D2, NoiseOp::Generator) => &self.generator_layout_2d,
            (TextureDimension::D3, NoiseOp::Generator) => &self.generator_layout_3d,
            (TextureDimension::D2, NoiseOp::Modifier) => &self.modifier_layout_2d,
            _ => &self.modifier_layout_3d,
        }
    }

    /// The descriptor of the pipeline of `key`.
    pub fn specialize(&self, key: ComputeNoisePipelineKey) -> (descriptor:
        ComputePipelineDescriptor)
        requires
            self.wf(),
            self.spec_has_pipeline(key),
        ensures
            descriptor.deep_view() == self.spec_specialize(key),
    {
        let layout = self.get_layout(key);
        let shader: &'static str = *self.shaders.get(&key).unwrap();
        let shader_defs: Vec<&'static str> = match self.shader_defs.get(&key) {
            Some(tokens) => copy_tokens(tokens),
            None => Vec::new(),
        };
        assert(shader_defs.deep_view() =~= self.spec_specialize(key).shader_defs);
        let layouts = vec![*layout];
        assert(layouts@ =~= seq![Self::spec_get_layout(key)]);
        ComputePipelineDescriptor {
            label: Some("compute_noise_pipeline"),
            layout: layouts,
            push_constant_ranges: Vec::new(),
            shader,
            shader_defs,
            entry_point: "main",
            zero_initialize_workgroup_memory: false,
        }
    }
}

/// A copy of `tokens`.
fn copy_tokens(tokens: &Vec<&'static str>) -> (copy: Vec<&'static str>)
    ensures
        copy@ == tokens@,
        copy.deep_view() == tokens.deep_view(),
{
    let mut copy: Vec<&'static str> = Vec::new();
    let mut i: usize = 0;
    while i < tokens.len()
        invariant
            i <= tokens.len(),
            copy@ == tokens@.take(i as int),
        decreases tokens.len() - i,
    {
        copy.push(tokens[i]);
        assert(copy@ =~= tokens@.take(i + 1));
        i = i + 1;
    }
    assert(copy@ =~= tokens@);
    assert(copy.deep_view() =~= tokens.deep_view());
    copy
}

/// Registers the two shaders of a generator, one for each dimensionality.
pub fn load_generator_shader<T: ComputeNoiseGenerator>(pipeline: &mut ComputeNoisePipeline)
    requires
        old(pipeline).wf(),
    ensures
        final(pipeline).wf(),
        final(pipeline).shaders() == old(pipeline).shaders().insert(
            spec_key_2d(T::spec_type_id(), NoiseOp::Generator),
            T::spec_shader_2d(),
        ).insert(spec_key_3d(T::spec_type_id(), NoiseOp::Generator), T::spec_shader_3d()),
        final(pipeline).shader_defs() == old(pipeline).shader_defs(),
        final(pipeline).spec_util_shader() == old(pipeline).spec_util_shader(),
{
    let shader_2d = T::shader_2d();
    let shader_3d = T::shader_3d();
    pipeline.insert_shader(
        ComputeNoisePipelineKey {
            type_id: T::type_id(),
            dimension: TextureDimension::D2,
            op: NoiseOp::Generator,
        },
        shader_2d,
    );
    pipeline.insert_shader(
        ComputeNoisePipelineKey {
            type_id: T::type_id(),
            dimension: TextureDimension::D3,
            op: NoiseOp::Generator,
        },
        shader_3d,
    );
}

/// Registers the fractal sum over a generator: the shared shader for both
/// dimensionalities, compiled with the generator's token and the token of the
/// dimensionality.
pub fn load_fbm_shaders<T: ComputeNoiseGenerator>(pipeline: &mut ComputeNoisePipeline)
    requires
        old(pipeline).wf(),
    ensures
        final(pipeline).wf(),
        final(pipeline).shaders() == old(pipeline).shaders().insert(
            spec_key_2d(Fbm::<T>::spec_type_id(), NoiseOp::Generator),
            FBM_SHADER@,
        ).insert(spec_key_3d(Fbm::<T>::spec_type_id(), NoiseOp::Generator), FBM_SHADER@),
        final(pipeline).shader_defs() == old(pipeline).shader_defs().insert(
            spec_key_2d(Fbm::<T>::spec_type_id(), NoiseOp::Generator),
            seq![T::spec_shader_def(), "2D"@],
        ).insert(
            spec_key_3d(Fbm::<T>::spec_type_id(), NoiseOp::Generator),
            seq![T::spec_shader_def(), "3D"@],
        ),
        final(pipeline).spec_util_shader() == old(pipeline).spec_util_shader(),
{
    let key_2d = ComputeNoisePipelineKey {
        type_id: Fbm::<T>::type_id(),
        dimension: TextureDimension::D2,
        op: NoiseOp::Generator,
    };
    let key_3d = ComputeNoisePipelineKey {
        type_id: Fbm::<T>::type_id(),
        dimension: TextureDimension::D3,
        op: NoiseOp::Generator,
    };
    pipeline.insert_shader(key_2d, FBM_SHADER);
    pipeline.insert_shader(key_3d, FBM_SHADER);
    let defs_2d = vec![T::shader_def(), "2D"];
    assert(defs_2d.deep_view() =~= seq![T::spec_shader_def(), "2D"@]);
    let defs_3d = vec![T::shader_def(), "3D"];
    assert(defs_3d.deep_view() =~= seq![T::spec_shader_def(), "3D"@]);
    pipeline.insert_shader_defs(key_2d, defs_2d);
    pipeline.insert_shader_defs(key_3d, defs_3d);
}

/// Registers a modifier: its shader for both dimensionalities, compiled with
/// the token of the dimensionality.
pub fn load_modifier_shader<T: ComputeNoiseModifier>(pipeline: &mut ComputeNoisePipeline)
    requires
        old(pipeline).wf(),
    ensures
        final(pipeline).wf(),
        final(pipeline).shaders() == old(pipeline).shaders().insert(
            spec_key_2d(T::spec_type_id(), NoiseOp::Modifier),
            T::spec_shader(),
        ).insert(spec_key_3d(T::spec_type_id(), NoiseOp::Modifier), T::spec_shader()),
        final(pipeline).shader_defs() == old(pipeline).shader_defs().insert(
            spec_key_2d(T::spec_type_id(), NoiseOp::Modifier),
            seq!["2D"@],
        ).insert(spec_key_3d(T::spec_type_id(), NoiseOp::Modifier), seq!["3D"@]),
        final(pipeline).spec_util_shader() == old(pipeline).spec_util_shader(),
{
    let shader = T::shader();
    let key_2d = ComputeNoisePipelineKey {
        type_id: T::type_id(),
        dimension: TextureDimension::D2,
        op: NoiseOp::Modifier,
    };
    let key_3d = ComputeNoisePipelineKey {
        type_id: T::type_id(),
        dimension: TextureDimension::D3,
        op: NoiseOp::Modifier,
    };
    pipeline.insert_shader(key_2d, shader);
    pipeline.insert_shader(key_3d, shader);
    let defs_2d = vec!["2D"];
    assert(defs_2d.deep_view() =~= seq!["2D"@]);
    let defs_3d = vec!["3D"];
    assert(defs_3d.deep_view() =~= seq!["3D"@]);
    pipeline.insert_shader_defs(key_2d, defs_2d);
    pipeline.insert_shader_defs(key_3d, defs_3d);
}

/// Names a pipeline of the catalog: the position at which its key was queued.
#[derive(Clone, Copy, PartialEq, Eq, Hash, Debug, Structural)]
pub struct CachedComputePipelineId(pub usize);

/// How far the pipeline of a key has come.
#[derive(Clone, Copy, PartialEq, Eq, Debug, Structural)]
pub enum PipelineState {
    /// The key was never asked for.
    Unregistered,
    /// The pipeline is queued for compilation and not yet confirmed.
    Compiling,
    /// The pipeline can be dispatched.
    Ready,
}

/// The pipelines that were asked for, one for each key, in the order of the
/// first request. Nothing ever leaves the catalog.
pub struct PipelineCatalog {
    ready: Table<ComputeNoisePipelineKey, bool>,
    descriptors: Vec<ComputePipelineDescriptor>,
}

impl PipelineCatalog {
    /// The keys, in the order in which they were first asked for.
    pub closed spec fn keys(&self) -> Seq<ComputeNoisePipelineKey> {
        self.ready.keys()
    }

    /// For each key in turn, whether its pipeline is compiled.
    pub closed spec fn ready(&self) -> Seq<bool> {
        self.ready.values()
    }

    /// For each key in turn, the descriptor its pipeline was queued with.
    pub closed spec fn descriptors(&self) -> Seq<ComputePipelineDescriptorView> {
        self.descriptors.deep_view()
    }

    /// Every key has its flag and its descriptor, and no key occurs twice.
    pub closed spec fn wf(&self) -> bool {
        &&& self.ready.wf()
        &&& self.descriptors.len() == self.ready.keys().len()
    }

    /// What good order means for the three lists.
    pub proof fn lemma_wf(&self)
        requires
            self.wf(),
        ensures
            self.keys().no_duplicates(),
            self.ready().len() == self.keys().len(),
            self.descriptors().len() == self.keys().len(),
    {
    }

    /// How far the pipeline of `key` has come.
    pub open spec fn spec_state(&self, key: ComputeNoisePipelineKey) -> PipelineState {
        if !self.keys().contains(key) {
            PipelineState::Unregistered
        } else if self.ready()[self.keys().index_of(key)] {
            PipelineState::Ready
        } else {
            PipelineState::Compiling
        }
    }

    /// A pipeline can be dispatched when it is in the catalog and compiled.
    pub open spec fn spec_is_ready(&self, id: CachedComputePipelineId) -> bool {
        id.0 < self.ready().len() && self.ready()[id.0 as int]
    }

    pub fn new() -> (catalog: PipelineCatalog)
        ensures
            catalog.wf(),
            catalog.keys() == Seq::<ComputeNoisePipelineKey>::empty(),
            catalog.ready() == Seq::<bool>::empty(),
            catalog.descriptors() == Seq::<ComputePipelineDescriptorView>::empty(),
    {
        let catalog = PipelineCatalog { ready: Table::new(), descriptors: Vec::new() };
        assert(catalog.descriptors() =~= Seq::<ComputePipelineDescriptorView>::empty());
        catalog
    }

    pub fn len(&self) -> (len: usize)
        requires
            self.wf(),
        ensures
            len == self.keys().len(),
    {
        self.ready.len()
    }

    /// The pipeline of a key that was asked for before.
    pub fn lookup(&self, key: ComputeNoisePipelineKey) -> (id: Option<CachedComputePipelineId>)
        requires
            self.wf(),
        ensures
            id is Some <==> self.keys().contains(key),
            id matches Some(id) ==> id.0 == self.keys().index_of(key) && id.0 < self.keys().len(),
    {
        match self.ready.position(&key) {
            Some(i) => Some(CachedComputePipelineId(i)),
            None => None,
        }
    }

    /// How far the pipeline of `key` has come.
    pub fn state(&self, key: ComputeNoisePipelineKey) -> (state: PipelineState)
        requires
            self.wf(),
        ensures
            state == self.spec_state(key),
    {
        match self.ready.position(&key) {
            Some(i) => {
                if *self.ready.value_at(i) {
                    PipelineState::Ready
                } else {
                    PipelineState::Compiling
                }
            },
            None => PipelineState::Unregistered,
        }
    }

    /// Whether the pipeline `id` can be dispatched.
    pub fn is_ready(&self, id: CachedComputePipelineId) -> (ready: bool)
        requires
            self.wf(),
        ensures
            ready == self.spec_is_ready(id),
    {
        id.0 < self.ready.len() && *self.ready.value_at(id.0)
    }

    /// The descriptor that the pipeline `id` was queued with.
    pub fn descriptor(&self, id: CachedComputePipelineId) -> (descriptor: Option<
        &ComputePipelineDescriptor,
    >)
        requires
            self.wf(),
        ensures
            descriptor is Some <==> id.0 < self.keys().len(),
            descriptor matches Some(d) ==> d.deep_view() == self.descriptors()[id.0 as int],
    {
        if id.0 < self.descriptors.len() {
            Some(&self.descriptors[id.0])
        } else {
            None
        }
    }

    /// The pipeline of `key`. A key that is asked for the first time is queued
    /// for compilation with the descriptor that the registry gives for it, and
    /// goes to the end of the catalog. A key that was asked for before is
    /// served from the catalog, which stays as it is.
    pub fn specialize(
        &mut self,
        pipeline: &ComputeNoisePipeline,
        key: ComputeNoisePipelineKey,
    ) -> (id: CachedComputePipelineId)
        requires
            old(self).wf(),
            pipeline.wf(),
            !old(self).keys().contains(key) ==> pipeline.spec_has_pipeline(key),
        ensures
            final(self).wf(),
            spec_catalog_extends(*old(self), *final(self)),
            spec_catalog_grown(*pipeline, *old(self), *final(self)),
            final(self).keys().contains(key),
            id.0 == final(self).keys().index_of(key),
            id.0 < final(self).keys().len(),
            old(self).keys().contains(key) ==> {
                &&& final(self).keys() == old(self).keys()
                &&& final(self).ready() == old(self).ready()
                &&& final(self).descriptors() == old(self).descriptors()
            },
            !old(self).keys().contains(key) ==> {
                &&& final(self).keys() == old(self).keys().push(key)
                &&& final(self).ready() == old(self).ready().push(false)
                &&& final(self).descriptors() == old(self).descriptors().push(
                    pipeline.spec_specialize(key),
                )
            },
    {
        match self.ready.position(&key) {
            Some(i) => {
                proof {
                    lemma_catalog_extends_itself(*self);
                }
                CachedComputePipelineId(i)
            },
            None => {
                let id = self.ready.len();
                let descriptor = pipeline.specialize(key);
                self.ready.insert(key, false);
                self.descriptors.push(descriptor);
                proof {
                    assert(self.descriptors() =~= old(self).descriptors().push(
                        pipeline.spec_specialize(key),
                    ));
                    self.ready.lemma_value_at(id as int);
                    assert(self.keys().take(id as int) =~= old(self).keys());
                    assert(self.descriptors().take(id as int) =~= old(self).descriptors());
                }
                CachedComputePipelineId(id)
            },
        }
    }

    /// Takes note that the device has compiled the pipeline `id`. A pipeline
    /// that is ready stays ready; an id that the catalog does not hold changes
    /// nothing.
    pub fn mark_ready(&mut self, id: CachedComputePipelineId)
        requires
            old(self).wf(),
        ensures
            final(self).wf(),
            spec_catalog_extends(*old(self), *final(self)),
            final(self).keys() == old(self).keys(),
            final(self).descriptors() == old(self).descriptors(),
            final(self).ready() == (if id.0 < old(self).ready().len() {
                old(self).ready().update(id.0 as int, true)
            } else {
                old(self).ready()
            }),
    {
        if id.0 < self.ready.len() {
            self.ready.replace_at(id.0, true);
        }
        proof {
            assert(self.keys().take(old(self).keys().len() as int) =~= old(self).keys());
            let count = old(self).keys().len() as int;
            assert(self.descriptors().take(count) =~= old(self).descriptors());
        }
    }
}

proof fn lemma_catalog_extends_itself(catalog: PipelineCatalog)
    requires
        catalog.wf(),
    ensures
        spec_catalog_extends(catalog, catalog),
{
    assert(catalog.keys().take(catalog.keys().len() as int) =~= catalog.keys());
    assert(catalog.descriptors().take(catalog.keys().len() as int) =~= catalog.descriptors());
}

/// Asking the registry twice for the descriptor of one key gives descriptors
/// that are equal field by field.
pub proof fn lemma_specialize_is_a_function(
    pipeline: ComputeNoisePipeline,
    key1: ComputeNoisePipelineKey,
    key2: ComputeNoisePipelineKey,
    descriptor1: ComputePipelineDescriptor,
    descriptor2: ComputePipelineDescriptor,
)
    requires
        key1 == key2,
        descriptor1.deep_view() == pipeline.spec_specialize(key1),
        descriptor2.deep_view() == pipeline.spec_specialize(key2),
    ensures
        descriptor1.deep_view() == descriptor2.deep_view(),
{
}

/// A key that is in the catalog keeps its pipeline and its descriptor however
/// the catalog goes on: whatever is asked for or marked ready later only adds
/// to the catalog.
pub open spec fn spec_catalog_extends(before: PipelineCatalog, after: PipelineCatalog) -> bool {
    &&& before.keys().len() <= after.keys().len()
    &&& after.keys().take(before.keys().len() as int) == before.keys()
    &&& after.descriptors().take(before.keys().len() as int) == before.descriptors()
    &&& forall|i: int| 0 <= i < before.ready().len() && before.ready()[i] ==> after.ready()[i]
}

/// The catalog `after` is `before` with pipelines queued from `pipeline`: what
/// was there is as it was, and each new key has the descriptor that the
/// registry gives for it and is not compiled yet.
pub open spec fn spec_catalog_grown(
    pipeline: ComputeNoisePipeline,
    before: PipelineCatalog,
    after: PipelineCatalog,
) -> bool {
    &&& spec_catalog_extends(before, after)
    &&& forall|i: int|
        0 <= i < before.ready().len() ==> #[trigger] after.ready()[i] == before.ready()[i]
    &&& forall|i: int|
        before.keys().len() <= i < after.keys().len() ==> #[trigger] after.descriptors()[i]
            == pipeline.spec_specialize(after.keys()[i]) && !after.ready()[i]
}

/// Growing is transitive.
pub proof fn lemma_catalog_grown_transitive(
    pipeline: ComputeNoisePipeline,
    first: PipelineCatalog,
    second: PipelineCatalog,
    third: PipelineCatalog,
)
    requires
        first.wf(),
        second.wf(),
        third.wf(),
        spec_catalog_grown(pipeline, first, second),
        spec_catalog_grown(pipeline, second, third),
    ensures
        spec_catalog_grown(pipeline, first, third),
{
    lemma_catalog_extends_transitive(first, second, third);
    first.lemma_wf();
    second.lemma_wf();
    third.lemma_wf();
    let n = first.keys().len() as int;
    let m = second.keys().len() as int;
    assert forall|i: int| 0 <= i < n implies #[trigger] third.ready()[i] == first.ready()[i] by {
        assert(second.ready()[i] == first.ready()[i]);
    }
    assert forall|i: int| n <= i < third.keys().len() implies #[trigger] third.descriptors()[i]
        == pipeline.spec_specialize(third.keys()[i]) && !third.ready()[i] by {
        if i < m {
            assert(third.descriptors().take(m)[i] == second.descriptors()[i]);
            assert(third.keys().take(m)[i] == second.keys()[i]);
            assert(second.descriptors()[i] == pipeline.spec_specialize(second.keys()[i]));
            assert(third.ready()[i] == second.ready()[i]);
        }
    }
}

/// A catalog has grown from itself.
pub proof fn lemma_catalog_grown_reflexive(pipeline: ComputeNoisePipeline, catalog: PipelineCatalog)
    requires
        catalog.wf(),
    ensures
        spec_catalog_grown(pipeline, catalog, catalog),
{
    lemma_catalog_extends_itself(catalog);
}

/// What the catalog holds once stays: a later catalog extends every earlier one.
pub proof fn lemma_catalog_extends_transitive(
    first: PipelineCatalog,
    second: PipelineCatalog,
    third: PipelineCatalog,
)
    requires
        first.wf(),
        second.wf(),
        third.wf(),
        spec_catalog_extends(first, second),
        spec_catalog_extends(second, third),
    ensures
        spec_catalog_extends(first, third),
{
    first.lemma_wf();
    second.lemma_wf();
    third.lemma_wf();
    let n = first.keys().len() as int;
    let m = second.keys().len() as int;
    assert(third.keys().take(n) =~= first.keys()) by {
        assert forall|i: int| 0 <= i < n implies third.keys()[i] == first.keys()[i] by {
            assert(third.keys().take(m)[i] == second.keys()[i]);
            assert(second.keys().take(n)[i] == first.keys()[i]);
        }
    }
    assert(third.descriptors().take(n) =~= first.descriptors()) by {
        assert forall|i: int| 0 <= i < n implies third.descriptors()[i]
            == first.descriptors()[i] by {
            assert(third.descriptors().take(m)[i] == second.descriptors()[i]);
            assert(second.descriptors().take(n)[i] == first.descriptors()[i]);
        }
    }
}

} // verus!
