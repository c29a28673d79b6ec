//! Requests on their way from the producer to the consumer.

use vstd::prelude::*;
use vstd::std_specs::convert::FromSpecImpl;
use crate::image::ComputeNoiseSize;
use crate::image::ImageHandle;
use crate::image::ImageSizes;
use crate::image::TextureDimension;
use crate::noise::ComputeNoise;
use crate::noise::ErasedComputeNoise;
use crate::noise::ErasedComputeNoiseView;
use crate::noise::spec_erase;
use crate::render::pipeline::BindGroup;
use crate::render::pipeline::BindGroupView;
use crate::render::pipeline::CachedComputePipelineId;
use crate::render::pipeline::ComputeNoisePipelineKey;
use crate::render::pipeline::NoiseOp;
use crate::table::copy_nested;
use crate::table::copy_vec;

verus! {

/// One kernel run: the images it binds, with the one it writes last, the
/// kernel and its kind of operation.
#[derive(Debug, PartialEq, Eq)]
pub struct ComputeNoiseInstruction {
    pub images: Vec<ImageHandle>,
    pub noise: ErasedComputeNoise,
    pub op: NoiseOp,
}

/// An instruction as plain values.
pub struct ComputeNoiseInstructionView {
    pub images: Seq<ImageHandle>,
    pub noise: ErasedComputeNoiseView,
    pub op: NoiseOp,
}

impl DeepView for ComputeNoiseInstruction {
    type V = ComputeNoiseInstructionView;

    open spec fn deep_view(&self) -> ComputeNoiseInstructionView {
        ComputeNoiseInstructionView {
            images: self.images@,
            noise: self.noise.deep_view(),
            op: self.op,
        }
    }
}

/// Instructions that run one after the other on one output image.
#[derive(Debug, PartialEq, Eq)]
pub struct ComputeNoiseSequence(pub Vec<ComputeNoiseInstruction>);

impl View for ComputeNoiseSequence {
    type V = Seq<ComputeNoiseInstructionView>;

    open spec fn view(&self) -> Seq<ComputeNoiseInstructionView> {
        self.0.deep_view()
    }
}

impl DeepView for ComputeNoiseSequence {
    type V = Seq<ComputeNoiseInstructionView>;

    open spec fn deep_view(&self) -> Seq<ComputeNoiseInstructionView> {
        self.0.deep_view()
    }
}

/// A kernel together with the images it reads.
#[derive(Debug, PartialEq, Eq)]
pub enum QueueNoiseOp {
    Generate(ErasedComputeNoise),
    Modify(ImageHandle, ErasedComputeNoise),
    Combine(ImageHandle, ImageHandle, ErasedComputeNoise),
}

/// A queued operation as plain values.
pub enum QueueNoiseOpView {
    Generate(ErasedComputeNoiseView),
    Modify(ImageHandle, ErasedComputeNoiseView),
    Combine(ImageHandle, ImageHandle, ErasedComputeNoiseView),
}

impl DeepView for QueueNoiseOp {
    type V = QueueNoiseOpView;

    open spec fn deep_view(&self) -> QueueNoiseOpView {
        match self {
            QueueNoiseOp::Generate(noise) => QueueNoiseOpView::Generate(noise.deep_view()),
            QueueNoiseOp::Modify(input, noise) => QueueNoiseOpView::Modify(
                *input,
                noise.deep_view(),
            ),
            QueueNoiseOp::Combine(input1, input2, noise) => QueueNoiseOpView::Combine(
                *input1,
                *input2,
                noise.deep_view(),
            ),
        }
    }
}

impl QueueNoiseOpView {
    /// Inputs that were left open are the output: the one input of a modifier
    /// when it is the placeholder, the two inputs of a combiner when both are.
    pub open spec fn resolve_images(self, output: ImageHandle) -> QueueNoiseOpView {
        match self {
            QueueNoiseOpView::Generate(noise) => self,
            QueueNoiseOpView::Modify(input, noise) => if input == ImageHandle::spec_default() {
                QueueNoiseOpView::Modify(output, noise)
            } else {
                self
            },
            QueueNoiseOpView::Combine(input1, input2, noise) => if input1
                == ImageHandle::spec_default() && input2 == ImageHandle::spec_default() {
                QueueNoiseOpView::Combine(output, output, noise)
            } else {
                self
            },
        }
    }

    /// The one instruction that the operation stands for, writing to `output`.
    pub open spec fn instruction(self, output: ImageHandle) -> ComputeNoiseInstructionView {
        match self.resolve_images(output) {
            QueueNoiseOpView::Generate(noise) => ComputeNoiseInstructionView {
                images: seq![output],
                noise,
                op: NoiseOp::Generator,
            },
            QueueNoiseOpView::Modify(input, noise) => ComputeNoiseInstructionView {
                images: seq![input, output],
                noise,
                op: NoiseOp::Modifier,
            },
            QueueNoiseOpView::Combine(input1, input2, noise) => ComputeNoiseInstructionView {
                images: seq![input1, input2, output],
                noise,
                op: NoiseOp::Combiner,
            },
        }
    }

    /// A kernel of a given kind with its inputs left open.
    pub open spec fn of_kernel(op: NoiseOp, noise: ErasedComputeNoiseView) -> QueueNoiseOpView {
        match op {
            NoiseOp::Generator => QueueNoiseOpView::Generate(noise),
            NoiseOp::Modifier => QueueNoiseOpView::Modify(ImageHandle::spec_default(), noise),
            NoiseOp::Combiner => QueueNoiseOpView::Combine(
                ImageHandle::spec_default(),
                ImageHandle::spec_default(),
                noise,
            ),
        }
    }
}

impl QueueNoiseOp {
    fn resolve_images(self, output: ImageHandle) -> (resolved: QueueNoiseOp)
        ensures
            resolved.deep_view() == self.deep_view().resolve_images(output),
    {
        match self {
            QueueNoiseOp::Generate(noise) => QueueNoiseOp::Generate(noise),
            QueueNoiseOp::Modify(input, noise) => {
                if input == ImageHandle::default() {
                    QueueNoiseOp::Modify(output, noise)
                } else {
                    QueueNoiseOp::Modify(input, noise)
                }
            },
            QueueNoiseOp::Combine(input1, input2, noise) => {
                if input1 == ImageHandle::default() && input2 == ImageHandle::default() {
                    QueueNoiseOp::Combine(output, output, noise)
                } else {
                    QueueNoiseOp::Combine(input1, input2, noise)
                }
            },
        }
    }

    /// The operation for a kernel with its inputs left open.
    pub fn new<T: ComputeNoise>(noise: T) -> (op: QueueNoiseOp)
        ensures
            op.deep_view() == QueueNoiseOpView::of_kernel(T::spec_noise_op(), spec_erase(noise)),
    {
        let erased = ErasedComputeNoise::new(noise);
        match T::noise_op() {
            NoiseOp::Generator => QueueNoiseOp::Generate(erased),
            NoiseOp::Modifier => QueueNoiseOp::Modify(ImageHandle::default(), erased),
            NoiseOp::Combiner => QueueNoiseOp::Combine(
                ImageHandle::default(),
                ImageHandle::default(),
                erased,
            ),
        }
    }
}

impl<T: ComputeNoise> From<T> for QueueNoiseOp {
    fn from(noise: T) -> (op: QueueNoiseOp)
        ensures
            op.deep_view() == QueueNoiseOpView::of_kernel(T::spec_noise_op(), spec_erase(noise)),
    {
        QueueNoiseOp::new(noise)
    }
}

impl<T: ComputeNoise> FromSpecImpl<T> for QueueNoiseOp {
    /// A queued operation holds vectors, which no specification can make:
    /// what `from` gives is said of its view.
    open spec fn obeys_from_spec() -> bool {
        false
    }

    open spec fn from_spec(noise: T) -> QueueNoiseOp {
        arbitrary()
    }
}

/// What can be turned into a sequence of instructions on an output image.
pub trait IntoNoiseSequence: Sized {
    spec fn spec_into_sequence(self, output: ImageHandle) -> Seq<ComputeNoiseInstructionView>;

    fn into_sequence(self, output: ImageHandle) -> (sequence: ComputeNoiseSequence)
        ensures
            sequence@ == self.spec_into_sequence(output),
    ;
}

impl IntoNoiseSequence for QueueNoiseOp {
    open spec fn spec_into_sequence(self, output: ImageHandle) -> Seq<
        ComputeNoiseInstructionView,
    > {
        seq![self.deep_view().instruction(output)]
    }

    fn into_sequence(self, output: ImageHandle) -> (sequence: ComputeNoiseSequence) {
        let ghost expected = self.deep_view().instruction(output);
        let instruction = match self.resolve_images(output) {
            QueueNoiseOp::Generate(noise) => {
                let images = vec![output];
                assert(images@ =~= seq![output]);
                ComputeNoiseInstruction { images, noise, op: NoiseOp::Generator }
            },
            QueueNoiseOp::Modify(input, noise) => {
                let images = vec![input, output];
                assert(images@ =~= seq![input, output]);
                ComputeNoiseInstruction { images, noise, op: NoiseOp::Modifier }
            },
            QueueNoiseOp::Combine(input1, input2, noise) => {
                let images = vec![input1, input2, output];
                assert(images@ =~= seq![input1, input2, output]);
                ComputeNoiseInstruction { images, noise, op: NoiseOp::Combiner }
            },
        };
        assert(instruction.deep_view() == expected);
        let sequence = ComputeNoiseSequence(vec![instruction]);
        assert(sequence@ =~= seq![expected]);
        sequence
    }
}

impl<T: ComputeNoise> IntoNoiseSequence for T {
    open spec fn spec_into_sequence(self, output: ImageHandle) -> Seq<
        ComputeNoiseInstructionView,
    > {
        seq![
            QueueNoiseOpView::of_kernel(T::spec_noise_op(), spec_erase(self)).instruction(output),
        ]
    }

    fn into_sequence(self, output: ImageHandle) -> (sequence: ComputeNoiseSequence) {
        QueueNoiseOp::new(self).into_sequence(output)
    }
}

/// Puts the instructions of `more` behind those of `sequence`.
fn extend_sequence(sequence: &mut ComputeNoiseSequence, more: ComputeNoiseSequence)
    ensures
        final(sequence)@ == old(sequence)@ + more@,
{
    let ghost added = more@;
    let mut rest = more;
    sequence.0.append(&mut rest.0);
    assert(sequence@ =~= old(sequence)@ + added);
}

impl<A: IntoNoiseSequence> IntoNoiseSequence for (A,) {
    open spec fn spec_into_sequence(self, output: ImageHandle) -> Seq<
        ComputeNoiseInstructionView,
    > {
        self.0.spec_into_sequence(output)
    }

    fn into_sequence(self, output: ImageHandle) -> (sequence: ComputeNoiseSequence) {
        let mut result = ComputeNoiseSequence(Vec::new());
        extend_sequence(&mut result, self.0.into_sequence(output));
        assert(result@ =~= self.spec_into_sequence(output));
        result
    }
}

impl<A: IntoNoiseSequence, B: IntoNoiseSequence> IntoNoiseSequence for (A, B) {
    open spec fn spec_into_sequence(self, output: ImageHandle) -> Seq<
        ComputeNoiseInstructionView,
    > {
        self.0.spec_into_sequence(output)
            + self.1.spec_into_sequence(output)
    }

    fn into_sequence(self, output: ImageHandle) -> (sequence: ComputeNoiseSequence) {
        let mut result = ComputeNoiseSequence(Vec::new());
        extend_sequence(&mut result, self.0.into_sequence(output));
        extend_sequence(&mut result, self.1.into_sequence(output));
        assert(result@ =~= self.spec_into_sequence(output));
        result
    }
}

impl<
    A: IntoNoiseSequence,
    B: IntoNoiseSequence,
    C: IntoNoiseSequence,
> IntoNoiseSequence for (A, B, C) {
    open spec fn spec_into_sequence(self, output: ImageHandle) -> Seq<
        ComputeNoiseInstructionView,
    > {
        self.0.spec_into_sequence(output)
            + self.1.spec_into_sequence(output)
            + self.2.spec_into_sequence(output)
    }

    fn into_sequence(self, output: ImageHandle) -> (sequence: ComputeNoiseSequence) {
        let mut result = ComputeNoiseSequence(Vec::new());
        extend_sequence(&mut result, self.0.into_sequence(output));
        extend_sequence(&mut result, self.1.into_sequence(output));
        extend_sequence(&mut result, self.2.into_sequence(output));
        assert(result@ =~= self.spec_into_sequence(output));
        result
    }
}

impl<
    A: IntoNoiseSequence,
    B: IntoNoiseSequence,
    C: IntoNoiseSequence,
    D: IntoNoiseSequence,
> IntoNoiseSequence for (A, B, C, D) {
    open spec fn spec_into_sequence(self, output: ImageHandle) -> Seq<
        ComputeNoiseInstructionView,
    > {
        self.0.spec_into_sequence(output)
            + self.1.spec_into_sequence(output)
            + self.2.spec_into_sequence(output)
            + self.3.spec_into_sequence(output)
    }

    fn into_sequence(self, output: ImageHandle) -> (sequence: ComputeNoiseSequence) {
        let mut result = ComputeNoiseSequence(Vec::new());
        extend_sequence(&mut result, self.0.into_sequence(output));
        extend_sequence(&mut result, self.1.into_sequence(output));
        extend_sequence(&mut result, self.2.into_sequence(output));
        extend_sequence(&mut result, self.3.into_sequence(output));
        assert(result@ =~= self.spec_into_sequence(output));
        result
    }
}

impl<
    A: IntoNoiseSequence,
    B: IntoNoiseSequence,
    C: IntoNoiseSequence,
    D: IntoNoiseSequence,
    E: IntoNoiseSequence,
> IntoNoiseSequence for (A, B, C, D, E) {
    open spec fn spec_into_sequence(self, output: ImageHandle) -> Seq<
        ComputeNoiseInstructionView,
    > {
        self.0.spec_into_sequence(output)
            + self.1.spec_into_sequence(output)
            + self.2.spec_into_sequence(output)
            + self.3.spec_into_sequence(output)
            + self.4.spec_into_sequence(output)
    }

    fn into_sequence(self, output: ImageHandle) -> (sequence: ComputeNoiseSequence) {
        let mut result = ComputeNoiseSequence(Vec::new());
        extend_sequence(&mut result, self.0.into_sequence(output));
        extend_sequence(&mut result, self.1.into_sequence(output));
        extend_sequence(&mut result, self.2.into_sequence(output));
        extend_sequence(&mut result, self.3.into_sequence(output));
        extend_sequence(&mut result, self.4.into_sequence(output));
        assert(result@ =~= self.spec_into_sequence(output));
        result
    }
}

impl<
    A: IntoNoiseSequence,
    B: IntoNoiseSequence,
    C: IntoNoiseSequence,
    D: IntoNoiseSequence,
    E: IntoNoiseSequence,
    F: IntoNoiseSequence,
> IntoNoiseSequence for (A, B, C, D, E, F) {
    open spec fn spec_into_sequence(self, output: ImageHandle) -> Seq<
        ComputeNoiseInstructionView,
    > {
        self.0.spec_into_sequence(output)
            + self.1.spec_into_sequence(output)
            + self.2.spec_into_sequence(output)
            + self.3.spec_into_sequence(output)
            + self.4.spec_into_sequence(output)
            + self.5.spec_into_sequence(output)
    }

    fn into_sequence(self, output: ImageHandle) -> (sequence: ComputeNoiseSequence) {
        let mut result = ComputeNoiseSequence(Vec::new());
        extend_sequence(&mut result, self.0.into_sequence(output));
        extend_sequence(&mut result, self.1.into_sequence(output));
        extend_sequence(&mut result, self.2.into_sequence(output));
        extend_sequence(&mut result, self.3.into_sequence(output));
        extend_sequence(&mut result, self.4.into_sequence(output));
        extend_sequence(&mut result, self.5.into_sequence(output));
        assert(result@ =~= self.spec_into_sequence(output));
        result
    }
}

impl<
    A: IntoNoiseSequence,
    B: IntoNoiseSequence,
    C: IntoNoiseSequence,
    D: IntoNoiseSequence,
    E: IntoNoiseSequence,
    F: IntoNoiseSequence,
    G: IntoNoiseSequence,
> IntoNoiseSequence for (A, B, C, D, E, F, G) {
    open spec fn spec_into_sequence(self, output: ImageHandle) -> Seq<
        ComputeNoiseInstructionView,
    > {
        self.0.spec_into_sequence(output)
            + self.1.spec_into_sequence(output)
            + self.2.spec_into_sequence(output)
            + self.3.spec_into_sequence(output)
            + self.4.spec_into_sequence(output)
            + self.5.spec_into_sequence(output)
            + self.6.spec_into_sequence(output)
    }

    fn into_sequence(self, output: ImageHandle) -> (sequence: ComputeNoiseSequence) {
        let mut result = ComputeNoiseSequence(Vec::new());
        extend_sequence(&mut result, self.0.into_sequence(output));
        extend_sequence(&mut result, self.1.into_sequence(output));
        extend_sequence(&mut result, self.2.into_sequence(output));
        extend_sequence(&mut result, self.3.into_sequence(output));
        extend_sequence(&mut result, self.4.into_sequence(output));
        extend_sequence(&mut result, self.5.into_sequence(output));
        extend_sequence(&mut result, self.6.into_sequence(output));
        assert(result@ =~= self.spec_into_sequence(output));
        result
    }
}

impl<
    A: IntoNoiseSequence,
    B: IntoNoiseSequence,
    C: IntoNoiseSequence,
    D: IntoNoiseSequence,
    E: IntoNoiseSequence,
    F: IntoNoiseSequence,
    G: IntoNoiseSequence,
    H: IntoNoiseSequence,
> IntoNoiseSequence for (A, B, C, D, E, F, G, H) {
    open spec fn spec_into_sequence(self, output: ImageHandle) -> Seq<
        ComputeNoiseInstructionView,
    > {
        self.0.spec_into_sequence(output)
            + self.1.spec_into_sequence(output)
            + self.2.spec_into_sequence(output)
            + self.3.spec_into_sequence(output)
            + self.4.spec_into_sequence(output)
            + self.5.spec_into_sequence(output)
            + self.6.spec_into_sequence(output)
            + self.7.spec_into_sequence(output)
    }

    fn into_sequence(self, output: ImageHandle) -> (sequence: ComputeNoiseSequence) {
        let mut result = ComputeNoiseSequence(Vec::new());
        extend_sequence(&mut result, self.0.into_sequence(output));
        extend_sequence(&mut result, self.1.into_sequence(output));
        extend_sequence(&mut result, self.2.into_sequence(output));
        extend_sequence(&mut result, self.3.into_sequence(output));
        extend_sequence(&mut result, self.4.into_sequence(output));
        extend_sequence(&mut result, self.5.into_sequence(output));
        extend_sequence(&mut result, self.6.into_sequence(output));
        extend_sequence(&mut result, self.7.into_sequence(output));
        assert(result@ =~= self.spec_into_sequence(output));
        result
    }
}

impl<
    A: IntoNoiseSequence,
    B: IntoNoiseSequence,
    C: IntoNoiseSequence,
    D: IntoNoiseSequence,
    E: IntoNoiseSequence,
    F: IntoNoiseSequence,
    G: IntoNoiseSequence,
    H: IntoNoiseSequence,
    I: IntoNoiseSequence,
> IntoNoiseSequence for (A, B, C, D, E, F, G, H, I) {
    open spec fn spec_into_sequence(self, output: ImageHandle) -> Seq<
        ComputeNoiseInstructionView,
    > {
        self.0.spec_into_sequence(output)
            + self.1.spec_into_sequence(output)
            + self.2.spec_into_sequence(output)
            + self.3.spec_into_sequence(output)
            + self.4.spec_into_sequence(output)
            + self.5.spec_into_sequence(output)
            + self.6.spec_into_sequence(output)
            + self.7.spec_into_sequence(output)
            + self.8.spec_into_sequence(output)
    }

    fn into_sequence(self, output: ImageHandle) -> (sequence: ComputeNoiseSequence) {
        let mut result = ComputeNoiseSequence(Vec::new());
        extend_sequence(&mut result, self.0.into_sequence(output));
        extend_sequence(&mut result, self.1.into_sequence(output));
        extend_sequence(&mut result, self.2.into_sequence(output));
        extend_sequence(&mut result, self.3.into_sequence(output));
        extend_sequence(&mut result, self.4.into_sequence(output));
        extend_sequence(&mut result, self.5.into_sequence(output));
        extend_sequence(&mut result, self.6.into_sequence(output));
        extend_sequence(&mut result, self.7.into_sequence(output));
        extend_sequence(&mut result, self.8.into_sequence(output));
        assert(result@ =~= self.spec_into_sequence(output));
        result
    }
}

impl<
    A: IntoNoiseSequence,
    B: IntoNoiseSequence,
    C: IntoNoiseSequence,
    D: IntoNoiseSequence,
    E: IntoNoiseSequence,
    F: IntoNoiseSequence,
    G: IntoNoiseSequence,
    H: IntoNoiseSequence,
    I: IntoNoiseSequence,
    J: IntoNoiseSequence,
> IntoNoiseSequence for (A, B, C, D, E, F, G, H, I, J) {
    open spec fn spec_into_sequence(self, output: ImageHandle) -> Seq<
        ComputeNoiseInstructionView,
    > {
        self.0.spec_into_sequence(output)
            + self.1.spec_into_sequence(output)
            + self.2.spec_into_sequence(output)
            + self.3.spec_into_sequence(output)
            + self.4.spec_into_sequence(output)
            + self.5.spec_into_sequence(output)
            + self.6.spec_into_sequence(output)
            + self.7.spec_into_sequence(output)
            + self.8.spec_into_sequence(output)
            + self.9.spec_into_sequence(output)
    }

    fn into_sequence(self, output: ImageHandle) -> (sequence: ComputeNoiseSequence) {
        let mut result = ComputeNoiseSequence(Vec::new());
        extend_sequence(&mut result, self.0.into_sequence(output));
        extend_sequence(&mut result, self.1.into_sequence(output));
        extend_sequence(&mut result, self.2.into_sequence(output));
        extend_sequence(&mut result, self.3.into_sequence(output));
        extend_sequence(&mut result, self.4.into_sequence(output));
        extend_sequence(&mut result, self.5.into_sequence(output));
        extend_sequence(&mut result, self.6.into_sequence(output));
        extend_sequence(&mut result, self.7.into_sequence(output));
        extend_sequence(&mut result, self.8.into_sequence(output));
        extend_sequence(&mut result, self.9.into_sequence(output));
        assert(result@ =~= self.spec_into_sequence(output));
        result
    }
}

impl<
    A: IntoNoiseSequence,
    B: IntoNoiseSequence,
    C: IntoNoiseSequence,
    D: IntoNoiseSequence,
    E: IntoNoiseSequence,
    F: IntoNoiseSequence,
    G: IntoNoiseSequence,
    H: IntoNoiseSequence,
    I: IntoNoiseSequence,
    J: IntoNoiseSequence,
    K: IntoNoiseSequence,
> IntoNoiseSequence for (A, B, C, D, E, F, G, H, I, J, K) {
    open spec fn spec_into_sequence(self, output: ImageHandle) -> Seq<
        ComputeNoiseInstructionView,
    > {
        self.0.spec_into_sequence(output)
            + self.1.spec_into_sequence(output)
            + self.2.spec_into_sequence(output)
            + self.3.spec_into_sequence(output)
            + self.4.spec_into_sequence(output)
            + self.5.spec_into_sequence(output)
            + self.6.spec_into_sequence(output)
            + self.7.spec_into_sequence(output)
            + self.8.spec_into_sequence(output)
            + self.9.spec_into_sequence(output)
            + self.10.spec_into_sequence(output)
    }

    fn into_sequence(self, output: ImageHandle) -> (sequence: ComputeNoiseSequence) {
        let mut result = ComputeNoiseSequence(Vec::new());
        extend_sequence(&mut result, self.0.into_sequence(output));
        extend_sequence(&mut result, self.1.into_sequence(output));
        extend_sequence(&mut result, self.2.into_sequence(output));
        extend_sequence(&mut result, self.3.into_sequence(output));
        extend_sequence(&mut result, self.4.into_sequence(output));
        extend_sequence(&mut result, self.5.into_sequence(output));
        extend_sequence(&mut result, self.6.into_sequence(output));
        extend_sequence(&mut result, self.7.into_sequence(output));
        extend_sequence(&mut result, self.8.into_sequence(output));
        extend_sequence(&mut result, self.9.into_sequence(output));
        extend_sequence(&mut result, self.10.into_sequence(output));
        assert(result@ =~= self.spec_into_sequence(output));
        result
    }
}

impl<
    A: IntoNoiseSequence,
    B: IntoNoiseSequence,
    C: IntoNoiseSequence,
    D: IntoNoiseSequence,
    E: IntoNoiseSequence,
    F: IntoNoiseSequence,
    G: IntoNoiseSequence,
    H: IntoNoiseSequence,
    I: IntoNoiseSequence,
    J: IntoNoiseSequence,
    K: IntoNoiseSequence,
    L: IntoNoiseSequence,
> IntoNoiseSequence for (A, B, C, D, E, F, G, H, I, J, K, L) {
    open spec fn spec_into_sequence(self, output: ImageHandle) -> Seq<
        ComputeNoiseInstructionView,
    > {
        self.0.spec_into_sequence(output)
            + self.1.spec_into_sequence(output)
            + self.2.spec_into_sequence(output)
            + self.3.spec_into_sequence(output)
            + self.4.spec_into_sequence(output)
            + self.5.spec_into_sequence(output)
            + self.6.spec_into_sequence(output)
            + self.7.spec_into_sequence(output)
            + self.8.spec_into_sequence(output)
            + self.9.spec_into_sequence(output)
            + self.10.spec_into_sequence(output)
            + self.11.spec_into_sequence(output)
    }

    fn into_sequence(self, output: ImageHandle) -> (sequence: ComputeNoiseSequence) {
        let mut result = ComputeNoiseSequence(Vec::new());
        extend_sequence(&mut result, self.0.into_sequence(output));
        extend_sequence(&mut result, self.1.into_sequence(output));
        extend_sequence(&mut result, self.2.into_sequence(output));
        extend_sequence(&mut result, self.3.into_sequence(output));
        extend_sequence(&mut result, self.4.into_sequence(output));
        extend_sequence(&mut result, self.5.into_sequence(output));
        extend_sequence(&mut result, self.6.into_sequence(output));
        extend_sequence(&mut result, self.7.into_sequence(output));
        extend_sequence(&mut result, self.8.into_sequence(output));
        extend_sequence(&mut result, self.9.into_sequence(output));
        extend_sequence(&mut result, self.10.into_sequence(output));
        extend_sequence(&mut result, self.11.into_sequence(output));
        assert(result@ =~= self.spec_into_sequence(output));
        result
    }
}

/// The producer's queue: the sequences asked for since the last hand-over, in
/// the order in which they were asked for.
pub struct ComputeNoiseQueue {
    pub queue: Vec<ComputeNoiseSequence>,
}

impl View for ComputeNoiseQueue {
    type V = Seq<Seq<ComputeNoiseInstructionView>>;

    open spec fn view(&self) -> Seq<Seq<ComputeNoiseInstructionView>> {
        self.queue.deep_view()
    }
}

impl Default for ComputeNoiseQueue {
    fn default() -> (queue: ComputeNoiseQueue)
        ensures
            queue@ == Seq::<Seq<ComputeNoiseInstructionView>>::empty(),
    {
        let queue = ComputeNoiseQueue { queue: Vec::new() };
        assert(queue@ =~= Seq::<Seq<ComputeNoiseInstructionView>>::empty());
        queue
    }
}

impl ComputeNoiseQueue {
    /// Asks for `operations` to be run on `output`, and hands `output` back.
    /// Nothing is checked here, and nothing is merged: asking twice for the
    /// same image gives two runs.
    pub fn queue<T: IntoNoiseSequence>(&mut self, output: ImageHandle, operations: T) -> (target:
        ImageHandle)
        ensures
            target == output,
            final(self)@ == old(self)@.push(operations.spec_into_sequence(output)),
    {
        self.queue.push(operations.into_sequence(output));
        assert(self@ =~= old(self)@.push(operations.spec_into_sequence(output)));
        output
    }

    /// Empties the queue and hands out what it held.
    pub fn drain(&mut self) -> (requests: Vec<ComputeNoiseSequence>)
        ensures
            requests.deep_view() == old(self)@,
            final(self)@ == Seq::<Seq<ComputeNoiseInstructionView>>::empty(),
    {
        let mut requests: Vec<ComputeNoiseSequence> = Vec::new();
        core::mem::swap(&mut requests, &mut self.queue);
        assert(self@ =~= Seq::<Seq<ComputeNoiseInstructionView>>::empty());
        requests
    }

    pub fn len(&self) -> (len: usize)
        ensures
            len == self@.len(),
    {
        self.queue.len()
    }
}

/// Why a request was dropped.
#[derive(Clone, Copy, Debug, PartialEq, Eq, Structural)]
pub enum ComputeNoiseError {
    /// An image of the request is not in the image store.
    ImageNotFound,
    /// The images of the request, or an image and the kernel that runs on it,
    /// are not of one dimensionality.
    DimensionMismatch,
    /// No pipeline is registered for the kernel on images of this
    /// dimensionality.
    PipelineNotRegistered,
}

/// A request that was dropped: its place in the queue, and why.
#[derive(Clone, Copy, Debug, PartialEq, Eq, Structural)]
pub struct ComputeNoiseRejection {
    pub request: usize,
    pub error: ComputeNoiseError,
}

/// One instruction with what it needs on the device: its pipeline key, its
/// images, the contents of its parameter buffers as 32-bit words, and the
/// size of the run.
#[derive(Debug, PartialEq, Eq)]
pub struct ComputeNoiseBuffers {
    pub key: ComputeNoisePipelineKey,
    pub images: Vec<ImageHandle>,
    pub buffers: Vec<Vec<u32>>,
    pub size: ComputeNoiseSize,
}

/// A bound instruction as plain values.
pub struct ComputeNoiseBuffersView {
    pub key: ComputeNoisePipelineKey,
    pub images: Seq<ImageHandle>,
    pub buffers: Seq<Seq<u32>>,
    pub size: ComputeNoiseSize,
}

impl DeepView for ComputeNoiseBuffers {
    type V = ComputeNoiseBuffersView;

    open spec fn deep_view(&self) -> ComputeNoiseBuffersView {
        ComputeNoiseBuffersView {
            key: self.key,
            images: self.images@,
            buffers: self.buffers.deep_view(),
            size: self.size,
        }
    }
}

impl ComputeNoiseBuffers {
    /// A copy with the same key, images, buffers and size.
    pub fn duplicate(&self) -> (copy: ComputeNoiseBuffers)
        ensures
            copy.deep_view() == self.deep_view(),
    {
        let buffers = copy_nested(&self.buffers);
        assert(buffers.deep_view() =~= self.buffers.deep_view()) by {
            assert forall|i: int| 0 <= i < buffers@.len() implies buffers@[i].deep_view()
                == self.buffers@[i].deep_view() by {
                assert(buffers@[i].deep_view() =~= self.buffers@[i].deep_view());
            }
        }
        ComputeNoiseBuffers {
            key: self.key,
            images: copy_vec(&self.images),
            buffers,
            size: self.size,
        }
    }
}

/// The bound sequences that wait for the consumer, in the order of their requests.
pub struct ComputeNoiseBufferQueue {
    pub queue: Vec<Vec<ComputeNoiseBuffers>>,
}

impl View for ComputeNoiseBufferQueue {
    type V = Seq<Seq<ComputeNoiseBuffersView>>;

    open spec fn view(&self) -> Seq<Seq<ComputeNoiseBuffersView>> {
        self.queue.deep_view()
    }
}

impl Default for ComputeNoiseBufferQueue {
    fn default() -> (queue: ComputeNoiseBufferQueue)
        ensures
            queue@ == Seq::<Seq<ComputeNoiseBuffersView>>::empty(),
    {
        let queue = ComputeNoiseBufferQueue { queue: Vec::new() };
        assert(queue@ =~= Seq::<Seq<ComputeNoiseBuffersView>>::empty());
        queue
    }
}

impl ComputeNoiseBufferQueue {
    pub fn len(&self) -> (len: usize)
        ensures
            len == self@.len(),
    {
        self.queue.len()
    }
}

/// One instruction ready for dispatch: its bind group, its pipeline, and the
/// size of the run.
#[derive(Debug, PartialEq, Eq)]
pub struct RenderComputeNoise {
    pub key: ComputeNoisePipelineKey,
    pub bind_group: BindGroup,
    pub pipeline_id: CachedComputePipelineId,
    pub size: ComputeNoiseSize,
}

/// An instruction ready for dispatch as plain values.
pub struct RenderComputeNoiseView {
    pub key: ComputeNoisePipelineKey,
    pub bind_group: BindGroupView,
    pub pipeline_id: CachedComputePipelineId,
    pub size: ComputeNoiseSize,
}

impl DeepView for RenderComputeNoise {
    type V = RenderComputeNoiseView;

    open spec fn deep_view(&self) -> RenderComputeNoiseView {
        RenderComputeNoiseView {
            key: self.key,
            bind_group: self.bind_group.deep_view(),
            pipeline_id: self.pipeline_id,
            size: self.size,
        }
    }
}

/// The sequences that wait for dispatch, oldest first.
pub struct ComputeNoiseRenderQueue {
    pub queue: Vec<Vec<RenderComputeNoise>>,
}

impl View for ComputeNoiseRenderQueue {
    type V = Seq<Seq<RenderComputeNoiseView>>;

    open spec fn view(&self) -> Seq<Seq<RenderComputeNoiseView>> {
        self.queue.deep_view()
    }
}

impl Default for ComputeNoiseRenderQueue {
    fn default() -> (queue: ComputeNoiseRenderQueue)
        ensures
            queue@ == Seq::<Seq<RenderComputeNoiseView>>::empty(),
    {
        let queue = ComputeNoiseRenderQueue { queue: Vec::new() };
        assert(queue@ =~= Seq::<Seq<RenderComputeNoiseView>>::empty());
        queue
    }
}

impl ComputeNoiseRenderQueue {
    pub fn len(&self) -> (len: usize)
        ensures
            len == self@.len(),
    {
        self.queue.len()
    }
}

/// The images of a sequence, instruction by instruction.
pub open spec fn spec_sequence_images(sequence: Seq<ComputeNoiseInstructionView>) -> Seq<
    ImageHandle,
>
    decreases sequence.len(),
{
    if sequence.len() == 0 {
        Seq::empty()
    } else {
        spec_sequence_images(sequence.drop_last()) + sequence.last().images
    }
}

/// Whether the image store lacks one of `handles`.
pub open spec fn spec_image_missing(images: ImageSizes, handles: Seq<ImageHandle>) -> bool {
    exists|i: int| 0 <= i < handles.len() && !images.contains(#[trigger] handles[i])
}

/// The sizes of `handles` in the image store.
pub open spec fn spec_image_sizes(images: ImageSizes, handles: Seq<ImageHandle>) -> Seq<
    ComputeNoiseSize,
> {
    Seq::new(handles.len(), |i: int| images.value_of(handles[i]))
}

/// Whether all of `sizes` are of the dimensionality of the first.
pub open spec fn spec_same_dimension(sizes: Seq<ComputeNoiseSize>) -> bool {
    forall|i: int|
        0 <= i < sizes.len() ==> (#[trigger] sizes[i]).spec_dimension()
            == sizes[0].spec_dimension()
}

/// A kernel fits images of `dimension` when it is declared for that
/// dimensionality or for each. A kernel that binds no image fits.
pub open spec fn spec_kernel_fits(
    instruction: ComputeNoiseInstructionView,
    dimension: TextureDimension,
) -> bool {
    match instruction.noise.dimension {
        None => true,
        Some(declared) => instruction.images.len() == 0 || declared == dimension,
    }
}

/// Whether every kernel of a sequence fits images of `dimension`.
pub open spec fn spec_kernels_fit(
    sequence: Seq<ComputeNoiseInstructionView>,
    dimension: TextureDimension,
) -> bool {
    forall|k: int| 0 <= k < sequence.len() ==> spec_kernel_fits(#[trigger] sequence[k], dimension)
}

/// What is wrong with a request, if anything is: first a missing image, then
/// images of different dimensionalities, then a kernel that is declared for
/// another dimensionality than that of the images.
pub open spec fn spec_check_sequence(
    images: ImageSizes,
    sequence: Seq<ComputeNoiseInstructionView>,
) -> Option<ComputeNoiseError> {
    let handles = spec_sequence_images(sequence);
    let sizes = spec_image_sizes(images, handles);
    if spec_image_missing(images, handles) {
        Some(ComputeNoiseError::ImageNotFound)
    } else if !spec_same_dimension(sizes) {
        Some(ComputeNoiseError::DimensionMismatch)
    } else if sizes.len() > 0 && !spec_kernels_fit(sequence, sizes[0].spec_dimension()) {
        Some(ComputeNoiseError::DimensionMismatch)
    } else {
        None
    }
}

/// Instruction `k` bound with the size `size`.
pub open spec fn spec_bind_instruction(
    instruction: ComputeNoiseInstructionView,
    size: ComputeNoiseSize,
) -> ComputeNoiseBuffersView {
    ComputeNoiseBuffersView {
        key: ComputeNoisePipelineKey {
            type_id: instruction.noise.type_id,
            dimension: size.spec_dimension(),
            op: instruction.op,
        },
        images: instruction.images,
        buffers: instruction.noise.words,
        size,
    }
}

/// A sequence bound: instruction `k` with the size of image `k` of the
/// sequence, for as many instructions as there are images.
pub open spec fn spec_bind_sequence(
    images: ImageSizes,
    sequence: Seq<ComputeNoiseInstructionView>,
) -> Seq<ComputeNoiseBuffersView> {
    let sizes = spec_image_sizes(images, spec_sequence_images(sequence));
    Seq::new(
        if sequence.len() <= sizes.len() {
            sequence.len()
        } else {
            sizes.len()
        },
        |k: int| spec_bind_instruction(sequence[k], sizes[k]),
    )
}

/// What the requests add to the buffer queue: each request that nothing is
/// wrong with, bound, in the order of the requests. A request that something
/// is wrong with adds nothing.
pub open spec fn spec_bind_all(
    images: ImageSizes,
    requests: Seq<Seq<ComputeNoiseInstructionView>>,
) -> Seq<Seq<ComputeNoiseBuffersView>>
    decreases requests.len(),
{
    if requests.len() == 0 {
        Seq::empty()
    } else {
        let before = spec_bind_all(images, requests.drop_last());
        if spec_check_sequence(images, requests.last()) is None {
            before.push(spec_bind_sequence(images, requests.last()))
        } else {
            before
        }
    }
}

/// The requests that were dropped, in the order of the requests.
pub open spec fn spec_rejections(
    images: ImageSizes,
    requests: Seq<Seq<ComputeNoiseInstructionView>>,
) -> Seq<ComputeNoiseRejection>
    decreases requests.len(),
{
    if requests.len() == 0 {
        Seq::empty()
    } else {
        let before = spec_rejections(images, requests.drop_last());
        match spec_check_sequence(images, requests.last()) {
            None => before,
            Some(error) => before.push(
                ComputeNoiseRejection { request: (requests.len() - 1) as usize, error },
            ),
        }
    }
}

/// The images of a sequence, instruction by instruction.
fn sequence_images(sequence: &ComputeNoiseSequence) -> (handles: Vec<ImageHandle>)
    ensures
        handles@ == spec_sequence_images(sequence@),
{
    let mut handles: Vec<ImageHandle> = Vec::new();
    let mut k: usize = 0;
    while k < sequence.0.len()
        invariant
            k <= sequence.0.len(),
            handles@ == spec_sequence_images(sequence@.take(k as int)),
        decreases sequence.0.len() - k,
    {
        let ghost before = handles@;
        let instruction = &sequence.0[k];
        let mut j: usize = 0;
        while j < instruction.images.len()
            invariant
                j <= instruction.images.len(),
                handles@ == before + instruction.images@.take(j as int),
            decreases instruction.images.len() - j,
        {
            handles.push(instruction.images[j]);
            assert(handles@ =~= before + instruction.images@.take(j + 1));
            j = j + 1;
        }
        proof {
            let taken = sequence@.take(k + 1);
            assert(taken.drop_last() =~= sequence@.take(k as int));
            assert(taken.last().images == instruction.images@);
            assert(instruction.images@.take(j as int) =~= instruction.images@);
        }
        k = k + 1;
    }
    assert(sequence@.take(k as int) =~= sequence@);
    handles
}

/// The sizes of `handles`, unless the image store lacks one of them.
fn image_sizes(images: &ImageSizes, handles: &Vec<ImageHandle>) -> (sizes: Option<
    Vec<ComputeNoiseSize>,
>)
    requires
        images.wf(),
    ensures
        sizes is None <==> spec_image_missing(*images, handles@),
        sizes matches Some(sizes) ==> sizes@ == spec_image_sizes(*images, handles@),
{
    let mut sizes: Vec<ComputeNoiseSize> = Vec::new();
    let mut i: usize = 0;
    while i < handles.len()
        invariant
            images.wf(),
            i <= handles.len(),
            sizes.len() == i,
            forall|j: int| 0 <= j < i ==> images.contains(#[trigger] handles@[j]),
            forall|j: int| 0 <= j < i ==> sizes@[j] == images.value_of(handles@[j]),
        decreases handles.len() - i,
    {
        match images.get(&handles[i]) {
            Some(size) => {
                sizes.push(*size);
            },
            None => {
                assert(!images.contains(handles@[i as int]));
                return None;
            },
        }
        i = i + 1;
    }
    assert(sizes@ =~= spec_image_sizes(*images, handles@));
    Some(sizes)
}

/// Decides [`spec_same_dimension`].
fn same_dimension(sizes: &Vec<ComputeNoiseSize>) -> (same: bool)
    ensures
        same == spec_same_dimension(sizes@),
{
    let mut i: usize = 1;
    while i < sizes.len()
        invariant
            1 <= i,
            forall|j: int|
                0 <= j < i && j < sizes.len() ==> (#[trigger] sizes@[j]).spec_dimension()
                    == sizes@[0].spec_dimension(),
        decreases sizes.len() - i,
    {
        if sizes[i].dimension() != sizes[0].dimension() {
            return false;
        }
        i = i + 1;
    }
    true
}

/// Decides [`spec_kernels_fit`].
fn kernels_fit(sequence: &ComputeNoiseSequence, dimension: TextureDimension) -> (fit: bool)
    ensures
        fit == spec_kernels_fit(sequence@, dimension),
{
    let mut k: usize = 0;
    while k < sequence.0.len()
        invariant
            k <= sequence.0.len(),
            forall|j: int| 0 <= j < k ==> spec_kernel_fits(#[trigger] sequence@[j], dimension),
        decreases sequence.0.len() - k,
    {
        let instruction = &sequence.0[k];
        let fits = match instruction.noise.dimension {
            None => true,
            Some(declared) => instruction.images.len() == 0 || declared == dimension,
        };
        if !fits {
            assert(!spec_kernel_fits(sequence@[k as int], dimension));
            return false;
        }
        k = k + 1;
    }
    true
}

/// Checks a request against the image store: the sizes of its images if
/// nothing is wrong with it, else what is.
pub fn check_sequence(images: &ImageSizes, sequence: &ComputeNoiseSequence) -> (checked: Result<
    Vec<ComputeNoiseSize>,
    ComputeNoiseError,
>)
    requires
        images.wf(),
    ensures
        match checked {
            Ok(sizes) => spec_check_sequence(*images, sequence@) is None && sizes@
                == spec_image_sizes(*images, spec_sequence_images(sequence@)),
            Err(error) => spec_check_sequence(*images, sequence@) == Some(error),
        },
{
    let handles = sequence_images(sequence);
    let sizes = match image_sizes(images, &handles) {
        Some(sizes) => sizes,
        None => {
            return Err(ComputeNoiseError::ImageNotFound);
        },
    };
    if !same_dimension(&sizes) {
        return Err(ComputeNoiseError::DimensionMismatch);
    }
    if sizes.len() > 0 && !kernels_fit(sequence, sizes[0].dimension()) {
        return Err(ComputeNoiseError::DimensionMismatch);
    }
    Ok(sizes)
}

/// Binds the instructions of a sequence, instruction `k` with `sizes[k]`.
fn bind_sequence(sequence: &ComputeNoiseSequence, sizes: &Vec<ComputeNoiseSize>) -> (bound: Vec<
    ComputeNoiseBuffers,
>)
    ensures
        bound.deep_view() == Seq::new(
            if sequence@.len() <= sizes@.len() {
                sequence@.len()
            } else {
                sizes@.len()
            },
            |k: int| spec_bind_instruction(sequence@[k], sizes@[k]),
        ),
{
    let count: usize = if sequence.0.len() <= sizes.len() {
        sequence.0.len()
    } else {
        sizes.len()
    };
    let mut bound: Vec<ComputeNoiseBuffers> = Vec::new();
    let mut k: usize = 0;
    while k < count
        invariant
            k <= count,
            count <= sequence.0.len(),
            count <= sizes.len(),
            bound.len() == k,
            forall|j: int|
                0 <= j < k ==> (#[trigger] bound@[j]).deep_view() == spec_bind_instruction(
                    sequence@[j],
                    sizes@[j],
                ),
        decreases count - k,
    {
        let instruction = &sequence.0[k];
        let size = sizes[k];
        let buffers = copy_nested(&instruction.noise.buffers);
        proof {
            assert(buffers.deep_view() =~= instruction.noise.deep_view().words) by {
                let words = instruction.noise.buffers;
                assert forall|i: int| 0 <= i < buffers@.len() implies buffers@[i].deep_view()
                    == words@[i].deep_view() by {
                    assert(buffers@[i].deep_view() =~= words@[i].deep_view());
                }
                assert(buffers.deep_view() =~= words.deep_view());
            }
        }
        bound.push(
            ComputeNoiseBuffers {
                key: ComputeNoisePipelineKey {
                    type_id: instruction.noise.type_id,
                    dimension: size.dimension(),
                    op: instruction.op,
                },
                images: copy_vec(&instruction.images),
                buffers,
                size,
            },
        );
        k = k + 1;
    }
    assert(bound.deep_view() =~= Seq::new(
        count as nat,
        |k: int| spec_bind_instruction(sequence@[k], sizes@[k]),
    ));
    bound
}

/// Turns the producer's requests into bound sequences and empties the
/// producer's queue. Each request is checked against the image store; one that
/// something is wrong with is dropped and reported, and the others go on as if
/// it had not been there.
pub fn prepare_compute_noise_buffers(
    images: &ImageSizes,
    noise_queue: &mut ComputeNoiseQueue,
    noise_buffer_queue: &mut ComputeNoiseBufferQueue,
) -> (rejected: Vec<ComputeNoiseRejection>)
    requires
        images.wf(),
    ensures
        final(noise_queue)@ == Seq::<Seq<ComputeNoiseInstructionView>>::empty(),
        final(noise_buffer_queue)@ == old(noise_buffer_queue)@ + spec_bind_all(
            *images,
            old(noise_queue)@,
        ),
        rejected@ == spec_rejections(*images, old(noise_queue)@),
{
    let requests = noise_queue.drain();
    let mut rejected: Vec<ComputeNoiseRejection> = Vec::new();
    let mut i: usize = 0;
    while i < requests.len()
        invariant
            images.wf(),
            i <= requests.len(),
            requests.deep_view() == old(noise_queue)@,
            noise_buffer_queue@ == old(noise_buffer_queue)@ + spec_bind_all(
                *images,
                requests.deep_view().take(i as int),
            ),
            rejected@ == spec_rejections(*images, requests.deep_view().take(i as int)),
        decreases requests.len() - i,
    {
        let sequence = &requests[i];
        proof {
            let taken = requests.deep_view().take(i + 1);
            assert(taken.drop_last() =~= requests.deep_view().take(i as int));
            assert(taken.last() == sequence@);
        }
        match check_sequence(images, sequence) {
            Ok(sizes) => {
                let bound = bind_sequence(sequence, &sizes);
                let ghost before = noise_buffer_queue@;
                noise_buffer_queue.queue.push(bound);
                assert(noise_buffer_queue@ =~= before.push(
                    spec_bind_sequence(*images, sequence@),
                ));
            },
            Err(error) => {
                rejected.push(ComputeNoiseRejection { request: i, error });
            },
        }
        i = i + 1;
    }
    assert(requests.deep_view().take(i as int) =~= requests.deep_view());
    rejected
}

/// The images of every instruction of a sequence are among the images of the sequence.
pub proof fn lemma_sequence_images_contain(
    sequence: Seq<ComputeNoiseInstructionView>,
    k: int,
    i: int,
)
    requires
        0 <= k < sequence.len(),
        0 <= i < sequence[k].images.len(),
    ensures
        spec_sequence_images(sequence).contains(sequence[k].images[i]),
    decreases sequence.len(),
{
    let all = spec_sequence_images(sequence);
    let before = spec_sequence_images(sequence.drop_last());
    if k == sequence.len() - 1 {
        assert(all[before.len() + i] == sequence[k].images[i]);
    } else {
        lemma_sequence_images_contain(sequence.drop_last(), k, i);
        let j = choose|j: int| 0 <= j < before.len() && before[j] == sequence[k].images[i];
        assert(all[j] == sequence[k].images[i]);
    }
}

/// A request is dropped when it runs a kernel on an image of another
/// dimensionality than the kernel is declared for.
pub proof fn lemma_mismatch_is_rejected(
    images: ImageSizes,
    sequence: Seq<ComputeNoiseInstructionView>,
    k: int,
    i: int,
)
    requires
        0 <= k < sequence.len(),
        0 <= i < sequence[k].images.len(),
        images.contains(sequence[k].images[i]),
        sequence[k].noise.dimension is Some,
        sequence[k].noise.dimension != Some(
            images.value_of(sequence[k].images[i]).spec_dimension(),
        ),
    ensures
        spec_check_sequence(images, sequence) is Some,
{
    let handles = spec_sequence_images(sequence);
    let sizes = spec_image_sizes(images, handles);
    lemma_sequence_images_contain(sequence, k, i);
    let j = choose|j: int| 0 <= j < handles.len() && handles[j] == sequence[k].images[i];
    if !spec_image_missing(images, handles) && spec_same_dimension(sizes) {
        assert(sizes[j].spec_dimension() == sizes[0].spec_dimension());
        assert(!spec_kernel_fits(sequence[k], sizes[0].spec_dimension()));
    }
}

/// A request that is dropped adds nothing to the buffer queue: what the
/// requests add is what they would add without it. So a request whose images
/// are not of one dimensionality, or that runs a kernel on an image of
/// another dimensionality than the kernel is declared for, leaves no trace.
pub proof fn lemma_mismatch_adds_nothing(
    images: ImageSizes,
    requests: Seq<Seq<ComputeNoiseInstructionView>>,
    i: int,
)
    requires
        0 <= i < requests.len(),
        spec_check_sequence(images, requests[i]) is Some,
    ensures
        spec_bind_all(images, requests) == spec_bind_all(images, requests.remove(i)),
    decreases requests.len(),
{
    if i == requests.len() - 1 {
        assert(requests.remove(i) =~= requests.drop_last());
    } else {
        lemma_mismatch_adds_nothing(images, requests.drop_last(), i);
        assert(requests.remove(i).drop_last() =~= requests.drop_last().remove(i));
        assert(requests.remove(i).last() == requests.last());
    }
}

} // verus!
