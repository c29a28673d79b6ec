//! Kernels and their parameters.

use vstd::prelude::*;
use vstd::std_specs::convert::FromSpecImpl;
use crate::image::ImageHandle;
use crate::image::TextureDimension;
use crate::noise_queue::QueueNoiseOp;
use crate::noise_queue::QueueNoiseOpView;
use crate::render::pipeline::NoiseOp;
use crate::shader::ComputeNoiseShader;
use crate::table::TableKey;

pub mod generators;
pub mod modifiers;
pub mod perlin_2d;

pub use perlin_2d::Perlin2d;
pub use perlin_2d::Perlin2dFlags;

verus! {

/// Tells kernel types apart. A fractal sum over a base kernel has the base's
/// number and `fbm` set.
#[derive(Clone, Copy, PartialEq, Eq, Hash, Debug, Structural)]
pub struct NoiseTypeId {
    pub base: u32,
    pub fbm: bool,
}

impl TableKey for NoiseTypeId {
    /// Twice the base number, and one more for a fractal sum.
    open spec fn spec_code(self) -> u64 {
        (self.base * 2 + if self.fbm {
            1int
        } else {
            0int
        }) as u64
    }

    fn code(&self) -> (code: u64) {
        let base: u64 = self.base as u64;
        if self.fbm {
            base * 2 + 1
        } else {
            base * 2
        }
    }

    proof fn lemma_code_is_injective(a: Self, b: Self) {
    }
}

/// The four bytes of `word`, lowest first.
pub open spec fn spec_word_le(word: u32) -> Seq<u8> {
    seq![
        (word % 256) as u8,
        ((word / 256) % 256) as u8,
        ((word / 65536) % 256) as u8,
        ((word / 16777216) % 256) as u8,
    ]
}

/// The bytes of `words`, each word lowest byte first.
pub open spec fn spec_words_le(words: Seq<u32>) -> Seq<u8> {
    Seq::new(4 * words.len(), |k: int| spec_word_le(words[k / 4])[k % 4])
}

/// The bytes of `words`, each word highest byte first.
pub open spec fn spec_words_be(words: Seq<u32>) -> Seq<u8> {
    Seq::new(4 * words.len(), |k: int| spec_word_le(words[k / 4])[3 - k % 4])
}

/// `bytes` is `words` as it lies in memory, in one of the two byte orders.
pub open spec fn spec_is_memory_of(bytes: Seq<u8>, words: Seq<u32>) -> bool {
    bytes == spec_words_le(words) || bytes == spec_words_be(words)
}

/// Each buffer of `bytes` is the buffer of `words` at the same place, as it
/// lies in memory.
pub open spec fn spec_are_memory_of(bytes: Seq<Seq<u8>>, words: Seq<Seq<u32>>) -> bool {
    &&& bytes.len() == words.len()
    &&& forall|i: int| 0 <= i < bytes.len() ==> spec_is_memory_of(#[trigger] bytes[i], words[i])
}

/// `bytemuck::cast_slice` from 32-bit words to bytes: the same memory read as
/// bytes, so four bytes for each word, in the byte order of the machine.
#[verifier::external_body]
pub(crate) fn cast_words(words: &Vec<u32>) -> (bytes: Vec<u8>)
    ensures
        spec_is_memory_of(bytes@, words@),
{
    bytemuck::cast_slice::<u32, u8>(words.as_slice()).to_vec()
}

/// A parametrized kernel that writes noise into an image.
pub trait ComputeNoise: Sized + Clone + ComputeNoiseShader {
    spec fn spec_noise_op() -> NoiseOp;

    spec fn spec_type_id() -> NoiseTypeId;

    /// The dimensionality the kernel is declared for; `None` when it has a
    /// variant for each.
    spec fn spec_texture_dimension() -> Option<TextureDimension>;

    /// The contents of the kernel's parameter buffers, as 32-bit words.
    spec fn spec_buffers(&self) -> Seq<Seq<u32>>;

    fn noise_op() -> (op: NoiseOp)
        ensures
            op == Self::spec_noise_op(),
    ;

    fn type_id() -> (id: NoiseTypeId)
        ensures
            id == Self::spec_type_id(),
    ;

    fn texture_dimension() -> (dimension: Option<TextureDimension>)
        ensures
            dimension == Self::spec_texture_dimension(),
    ;

    fn buffers(&self) -> (buffers: Vec<Vec<u32>>)
        ensures
            buffers.deep_view() == self.spec_buffers(),
    ;
}

/// Marks what a kernel hands to the device.
pub trait GpuComputeNoise {
}

/// The contents of parameter buffers, as 32-bit words, are handed to the device.
impl GpuComputeNoise for Vec<Vec<u32>> {
}

/// A kernel without its type: what the queue holds of it.
#[derive(Debug, PartialEq, Eq)]
pub struct ErasedComputeNoise {
    pub buffers: Vec<Vec<u32>>,
    pub type_id: NoiseTypeId,
    pub dimension: Option<TextureDimension>,
    pub struct_name: Option<&'static str>,
    pub function_name: &'static str,
    pub import_path: &'static str,
}

/// An erased kernel as plain values.
pub struct ErasedComputeNoiseView {
    pub words: Seq<Seq<u32>>,
    pub type_id: NoiseTypeId,
    pub dimension: Option<TextureDimension>,
    pub struct_name: Option<Seq<char>>,
    pub function_name: Seq<char>,
    pub import_path: Seq<char>,
}

/// What erasing `noise` gives.
pub open spec fn spec_erase<T: ComputeNoise>(noise: T) -> ErasedComputeNoiseView {
    ErasedComputeNoiseView {
        words: noise.spec_buffers(),
        type_id: T::spec_type_id(),
        dimension: T::spec_texture_dimension(),
        struct_name: T::spec_struct_name(),
        function_name: T::spec_function_name(),
        import_path: T::spec_import_path(),
    }
}

impl DeepView for ErasedComputeNoise {
    type V = ErasedComputeNoiseView;

    open spec fn deep_view(&self) -> ErasedComputeNoiseView {
        ErasedComputeNoiseView {
            words: self.buffers.deep_view(),
            type_id: self.type_id,
            dimension: self.dimension,
            struct_name: match self.struct_name {
                Some(name) => Some(name@),
                None => None,
            },
            function_name: self.function_name@,
            import_path: self.import_path@,
        }
    }
}

impl<T: ComputeNoise> From<T> for ErasedComputeNoise {
    fn from(value: T) -> (erased: ErasedComputeNoise)
        ensures
            erased.deep_view() == spec_erase(value),
    {
        ErasedComputeNoise::new(value)
    }
}

impl<T: ComputeNoise> FromSpecImpl<T> for ErasedComputeNoise {
    /// An erased kernel holds vectors, which no specification can make: what
    /// `from` gives is said of its view.
    open spec fn obeys_from_spec() -> bool {
        false
    }

    open spec fn from_spec(value: T) -> ErasedComputeNoise {
        arbitrary()
    }
}

/// Kernels that read images say which.
pub trait ComputeNoiseInput: ComputeNoise {
    /// A modifier that reads `input`.
    fn input_image(self, input: ImageHandle) -> (op: QueueNoiseOp)
        requires
            Self::spec_noise_op() == NoiseOp::Modifier,
        ensures
            op.deep_view() == QueueNoiseOpView::Modify(input, spec_erase(self)),
    ;

    /// A combiner that reads `input1` and `input2`.
    fn input_images(self, input1: ImageHandle, input2: ImageHandle) -> (op: QueueNoiseOp)
        requires
            Self::spec_noise_op() == NoiseOp::Combiner,
        ensures
            op.deep_view() == QueueNoiseOpView::Combine(input1, input2, spec_erase(self)),
    ;
}

impl<T: ComputeNoise> ComputeNoiseInput for T {
    fn input_image(self, input: ImageHandle) -> (op: QueueNoiseOp) {
        let erased = ErasedComputeNoise::new(self);
        QueueNoiseOp::Modify(input, erased)
    }

    fn input_images(self, input1: ImageHandle, input2: ImageHandle) -> (op: QueueNoiseOp) {
        let erased = ErasedComputeNoise::new(self);
        QueueNoiseOp::Combine(input1, input2, erased)
    }
}

impl ErasedComputeNoise {
    /// Erases the type of `value`, keeping its tag, its names and its parameters.
    pub fn new<T: ComputeNoise>(value: T) -> (erased: ErasedComputeNoise)
        ensures
            erased.deep_view() == spec_erase(value),
    {
        ErasedComputeNoise {
            buffers: value.buffers(),
            type_id: T::type_id(),
            dimension: T::texture_dimension(),
            struct_name: T::struct_name(),
            function_name: T::function_name(),
            import_path: T::import_path(),
        }
    }

    /// The contents of the kernel's parameter buffers, as 32-bit words.
    pub fn words(&self) -> (words: &Vec<Vec<u32>>)
        ensures
            words.deep_view() == self.deep_view().words,
    {
        &self.buffers
    }

    /// The contents of the kernel's parameter buffers as the device gets
    /// them: the words as they lie in memory.
    pub fn buffers(&self) -> (buffers: Vec<Vec<u8>>)
        ensures
            spec_are_memory_of(buffers.deep_view(), self.deep_view().words),
    {
        words_to_bytes(&self.buffers)
    }

    /// Whether the kernel has parameters that the shader reads from a uniform.
    pub fn needs_uniform(&self) -> (needed: bool)
        ensures
            needed == self.deep_view().struct_name is Some,
    {
        self.struct_name.is_some()
    }
}

/// The words of each buffer as they lie in memory.
pub fn words_to_bytes(buffers: &Vec<Vec<u32>>) -> (bytes: Vec<Vec<u8>>)
    ensures
        spec_are_memory_of(bytes.deep_view(), buffers.deep_view()),
{
    let mut bytes: Vec<Vec<u8>> = Vec::new();
    let mut i: usize = 0;
    while i < buffers.len()
        invariant
            i <= buffers.len(),
            bytes.len() == i,
            forall|j: int| 0 <= j < i ==> spec_is_memory_of(bytes@[j]@, buffers@[j]@),
        decreases buffers.len() - i,
    {
        bytes.push(cast_words(&buffers[i]));
        i = i + 1;
    }
    assert forall|j: int| 0 <= j < bytes.deep_view().len() implies spec_is_memory_of(
        #[trigger] bytes.deep_view()[j],
        buffers.deep_view()[j],
    ) by {
        assert(bytes.deep_view()[j] =~= bytes@[j]@);
        assert(buffers.deep_view()[j] =~= buffers@[j]@);
    }
    bytes
}

} // verus!
