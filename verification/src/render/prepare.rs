//! Binding: from bound sequences to sequences that can be dispatched.

use vstd::prelude::*;
use crate::image::ImageHandle;
use crate::image::ImageSizes;
use crate::noise_queue::ComputeNoiseBufferQueue;
use crate::noise_queue::ComputeNoiseBuffers;
use crate::noise_queue::ComputeNoiseBuffersView;
use crate::noise_queue::ComputeNoiseError;
use crate::noise_queue::ComputeNoiseRenderQueue;
use crate::noise_queue::RenderComputeNoise;
use crate::noise_queue::RenderComputeNoiseView;
use crate::render::pipeline::BindGroup;
use crate::render::pipeline::BindGroupEntry;
use crate::render::pipeline::BindGroupEntryView;
use crate::render::pipeline::BindGroupView;
use crate::render::pipeline::BindingResource;
use crate::render::pipeline::BindingResourceView;
use crate::render::pipeline::CachedComputePipelineId;
use crate::render::pipeline::ComputeNoisePipeline;
use crate::render::pipeline::ComputeNoisePipelineKey;
use crate::render::pipeline::PipelineCatalog;
use crate::render::pipeline::lemma_catalog_grown_reflexive;
use crate::render::pipeline::lemma_catalog_grown_transitive;
use crate::render::pipeline::spec_catalog_grown;
use crate::table::copy_vec;

verus! {

/// Whether the device holds every one of `images`.
pub open spec fn spec_images_available(gpu_images: ImageSizes, images: Seq<ImageHandle>) -> bool {
    forall|i: int| 0 <= i < images.len() ==> gpu_images.contains(#[trigger] images[i])
}

/// An instruction can be prepared when the device holds its images and the
/// registry has a pipeline for its key.
pub open spec fn spec_can_prepare(
    pipeline: ComputeNoisePipeline,
    gpu_images: ImageSizes,
    noise: ComputeNoiseBuffersView,
) -> bool {
    &&& spec_images_available(gpu_images, noise.images)
    &&& pipeline.spec_has_pipeline(noise.key)
}

/// Why an instruction cannot be prepared, if it cannot: first for an image
/// that the device does not hold, then for a key without a pipeline.
pub open spec fn spec_prepare_error(
    pipeline: ComputeNoisePipeline,
    gpu_images: ImageSizes,
    noise: ComputeNoiseBuffersView,
) -> Option<ComputeNoiseError> {
    if !spec_images_available(gpu_images, noise.images) {
        Some(ComputeNoiseError::ImageNotFound)
    } else if !pipeline.spec_has_pipeline(noise.key) {
        Some(ComputeNoiseError::PipelineNotRegistered)
    } else {
        None
    }
}

/// An instruction that was left out: the place of its sequence in the queue,
/// its place in the sequence, and why.
#[derive(Clone, Copy, Debug, PartialEq, Eq, Structural)]
pub struct ComputeNoiseSkip {
    pub sequence: usize,
    pub instruction: usize,
    pub error: ComputeNoiseError,
}

/// The instructions of sequence number `index` that are left out, in order.
pub open spec fn spec_sequence_skips(
    pipeline: ComputeNoisePipeline,
    gpu_images: ImageSizes,
    index: usize,
    sequence: Seq<ComputeNoiseBuffersView>,
) -> Seq<ComputeNoiseSkip>
    decreases sequence.len(),
{
    if sequence.len() == 0 {
        Seq::empty()
    } else {
        let before = spec_sequence_skips(pipeline, gpu_images, index, sequence.drop_last());
        match spec_prepare_error(pipeline, gpu_images, sequence.last()) {
            Some(error) => before.push(
                ComputeNoiseSkip {
                    sequence: index,
                    instruction: (sequence.len() - 1) as usize,
                    error,
                },
            ),
            None => before,
        }
    }
}

/// The instructions of a queue that are left out, sequence by sequence.
pub open spec fn spec_queue_skips(
    pipeline: ComputeNoisePipeline,
    gpu_images: ImageSizes,
    queue: Seq<Seq<ComputeNoiseBuffersView>>,
) -> Seq<ComputeNoiseSkip>
    decreases queue.len(),
{
    if queue.len() == 0 {
        Seq::empty()
    } else {
        spec_queue_skips(pipeline, gpu_images, queue.drop_last()) + spec_sequence_skips(
            pipeline,
            gpu_images,
            (queue.len() - 1) as usize,
            queue.last(),
        )
    }
}

/// The entries of an instruction's bind group: its images from binding 0 on,
/// then its buffers.
pub open spec fn spec_bind_group_entries(
    images: Seq<ImageHandle>,
    buffers: Seq<Seq<u32>>,
) -> Seq<BindGroupEntryView> {
    Seq::new(
        images.len() + buffers.len(),
        |i: int|
            if i < images.len() {
                BindGroupEntryView {
                    binding: i as u32,
                    resource: BindingResourceView::TextureView(images[i]),
                }
            } else {
                BindGroupEntryView {
                    binding: i as u32,
                    resource: BindingResourceView::Buffer(buffers[i - images.len()]),
                }
            },
    )
}

/// An instruction prepared, with its pipeline at its place among `keys`. Its
/// bind group is of the layout that the registry has for its key.
pub open spec fn spec_render_noise(
    keys: Seq<ComputeNoisePipelineKey>,
    noise: ComputeNoiseBuffersView,
) -> RenderComputeNoiseView {
    RenderComputeNoiseView {
        key: noise.key,
        bind_group: BindGroupView {
            entries: spec_bind_group_entries(noise.images, noise.buffers),
        },
        pipeline_id: CachedComputePipelineId(keys.index_of(noise.key) as usize),
        size: noise.size,
    }
}

/// The keys of the catalog after an instruction: its key is added when the
/// instruction can be prepared and the key is new.
pub open spec fn spec_keys_after_noise(
    pipeline: ComputeNoisePipeline,
    gpu_images: ImageSizes,
    keys: Seq<ComputeNoisePipelineKey>,
    noise: ComputeNoiseBuffersView,
) -> Seq<ComputeNoisePipelineKey> {
    if spec_can_prepare(pipeline, gpu_images, noise) && !keys.contains(noise.key) {
        keys.push(noise.key)
    } else {
        keys
    }
}

/// A sequence prepared, starting from a catalog with `keys`: the keys of the
/// catalog afterwards, and the instructions that can be prepared, in order.
/// An instruction that cannot be prepared is left out; the others stay.
pub open spec fn spec_prepare_sequence(
    pipeline: ComputeNoisePipeline,
    gpu_images: ImageSizes,
    keys: Seq<ComputeNoisePipelineKey>,
    sequence: Seq<ComputeNoiseBuffersView>,
) -> (Seq<ComputeNoisePipelineKey>, Seq<RenderComputeNoiseView>)
    decreases sequence.len(),
{
    if sequence.len() == 0 {
        (keys, Seq::empty())
    } else {
        let (keys_before, before) = spec_prepare_sequence(
            pipeline,
            gpu_images,
            keys,
            sequence.drop_last(),
        );
        let keys_after = spec_keys_after_noise(pipeline, gpu_images, keys_before, sequence.last());
        if spec_can_prepare(pipeline, gpu_images, sequence.last()) {
            (keys_after, before.push(spec_render_noise(keys_after, sequence.last())))
        } else {
            (keys_after, before)
        }
    }
}

/// A queue prepared, starting from a catalog with `keys`: the keys of the
/// catalog afterwards, and the prepared sequences of which something is left,
/// in order.
pub open spec fn spec_prepare_all(
    pipeline: ComputeNoisePipeline,
    gpu_images: ImageSizes,
    keys: Seq<ComputeNoisePipelineKey>,
    queue: Seq<Seq<ComputeNoiseBuffersView>>,
) -> (Seq<ComputeNoisePipelineKey>, Seq<Seq<RenderComputeNoiseView>>)
    decreases queue.len(),
{
    if queue.len() == 0 {
        (keys, Seq::empty())
    } else {
        let (keys_before, before) = spec_prepare_all(pipeline, gpu_images, keys, queue.drop_last());
        let (keys_after, sequence) = spec_prepare_sequence(
            pipeline,
            gpu_images,
            keys_before,
            queue.last(),
        );
        if sequence.len() > 0 {
            (keys_after, before.push(sequence))
        } else {
            (keys_after, before)
        }
    }
}

/// Decides [`spec_images_available`].
pub fn images_available(gpu_images: &ImageSizes, images: &Vec<ImageHandle>) -> (available: bool)
    requires
        gpu_images.wf(),
    ensures
        available == spec_images_available(*gpu_images, images@),
{
    let mut i: usize = 0;
    while i < images.len()
        invariant
            gpu_images.wf(),
            i <= images.len(),
            forall|j: int| 0 <= j < i ==> gpu_images.contains(#[trigger] images@[j]),
        decreases images.len() - i,
    {
        if !gpu_images.contains_key(&images[i]) {
            return false;
        }
        i = i + 1;
    }
    true
}

/// The entries of the bind group of `noise`.
pub fn bind_group_entries(noise: &ComputeNoiseBuffers) -> (entries: Vec<BindGroupEntry>)
    ensures
        entries.deep_view() == spec_bind_group_entries(
            noise.deep_view().images,
            noise.deep_view().buffers,
        ),
{
    let mut entries: Vec<BindGroupEntry> = Vec::new();
    let mut i: usize = 0;
    while i < noise.images.len()
        invariant
            i <= noise.images.len(),
            entries.len() == i,
            forall|j: int|
                0 <= j < i ==> (#[trigger] entries@[j]).deep_view() == (BindGroupEntryView {
                    binding: j as u32,
                    resource: BindingResourceView::TextureView(noise.images@[j]),
                }),
        decreases noise.images.len() - i,
    {
        entries.push(
            BindGroupEntry {
                binding: #[verifier::truncate]
                (i as u32),
                resource: BindingResource::TextureView(noise.images[i]),
            },
        );
        i = i + 1;
    }
    let images: usize = noise.images.len();
    let mut k: usize = 0;
    while k < noise.buffers.len()
        invariant
            k <= noise.buffers.len(),
            images == noise.images.len(),
            entries.len() == images + k,
            forall|j: int|
                0 <= j < images ==> (#[trigger] entries@[j]).deep_view() == (BindGroupEntryView {
                    binding: j as u32,
                    resource: BindingResourceView::TextureView(noise.images@[j]),
                }),
            forall|j: int|
                images <= j < images + k ==> (#[trigger] entries@[j]).deep_view() == (
                BindGroupEntryView {
                    binding: j as u32,
                    resource: BindingResourceView::Buffer(noise.buffers@[j - images]@),
                }),
        decreases noise.buffers.len() - k,
    {
        let binding: u128 = images as u128 + k as u128;
        entries.push(
            BindGroupEntry {
                binding: #[verifier::truncate]
                (binding as u32),
                resource: BindingResource::Buffer(copy_vec(&noise.buffers[k])),
            },
        );
        k = k + 1;
    }
    proof {
        let expected = spec_bind_group_entries(
            noise.deep_view().images,
            noise.deep_view().buffers,
        );
        assert(entries.deep_view().len() == expected.len());
        assert forall|j: int| 0 <= j < expected.len() implies entries.deep_view()[j]
            == expected[j] by {
            if j >= images {
                assert(noise.buffers.deep_view()[j - images] =~= noise.buffers@[j - images]@);
            }
        }
        assert(entries.deep_view() =~= expected);
    }
    entries
}

/// Prepares one instruction: binds its resources and finds its pipeline in the
/// catalog, queueing the pipeline if the key is new. An instruction that
/// cannot be prepared leaves the catalog as it is, and the result says why.
pub fn prepare_noise(
    pipeline: &ComputeNoisePipeline,
    pipelines: &mut PipelineCatalog,
    gpu_images: &ImageSizes,
    noise: &ComputeNoiseBuffers,
) -> (prepared: Result<RenderComputeNoise, ComputeNoiseError>)
    requires
        pipeline.wf(),
        old(pipelines).wf(),
        gpu_images.wf(),
    ensures
        final(pipelines).wf(),
        spec_catalog_grown(*pipeline, *old(pipelines), *final(pipelines)),
        final(pipelines).keys() == spec_keys_after_noise(
            *pipeline,
            *gpu_images,
            old(pipelines).keys(),
            noise.deep_view(),
        ),
        match prepared {
            Ok(render) => spec_can_prepare(*pipeline, *gpu_images, noise.deep_view())
                && render.deep_view() == spec_render_noise(
                final(pipelines).keys(),
                noise.deep_view(),
            ),
            Err(error) => spec_prepare_error(*pipeline, *gpu_images, noise.deep_view()) == Some(
                error,
            ),
        },
{
    if !images_available(gpu_images, &noise.images) {
        proof {
            lemma_catalog_grown_reflexive(*pipeline, *pipelines);
        }
        return Err(ComputeNoiseError::ImageNotFound);
    }
    if !pipeline.has_pipeline(noise.key) {
        proof {
            lemma_catalog_grown_reflexive(*pipeline, *pipelines);
        }
        return Err(ComputeNoiseError::PipelineNotRegistered);
    }
    let entries = bind_group_entries(noise);
    let pipeline_id = pipelines.specialize(pipeline, noise.key);
    Ok(
        RenderComputeNoise {
            key: noise.key,
            bind_group: BindGroup { entries },
            pipeline_id,
            size: noise.size,
        },
    )
}

/// Prepares the instructions of sequence number `index`, leaving out those
/// that cannot be prepared and noting them in `skipped`.
pub fn prepare_sequence(
    pipeline: &ComputeNoisePipeline,
    pipelines: &mut PipelineCatalog,
    gpu_images: &ImageSizes,
    index: usize,
    sequence: &Vec<ComputeNoiseBuffers>,
    skipped: &mut Vec<ComputeNoiseSkip>,
) -> (render_sequence: Vec<RenderComputeNoise>)
    requires
        pipeline.wf(),
        old(pipelines).wf(),
        gpu_images.wf(),
    ensures
        final(pipelines).wf(),
        spec_catalog_grown(*pipeline, *old(pipelines), *final(pipelines)),
        (final(pipelines).keys(), render_sequence.deep_view()) == spec_prepare_sequence(
            *pipeline,
            *gpu_images,
            old(pipelines).keys(),
            sequence.deep_view(),
        ),
        final(skipped)@ == old(skipped)@ + spec_sequence_skips(
            *pipeline,
            *gpu_images,
            index,
            sequence.deep_view(),
        ),
{
    let mut render_sequence: Vec<RenderComputeNoise> = Vec::new();
    let mut k: usize = 0;
    proof {
        lemma_catalog_grown_reflexive(*pipeline, *pipelines);
        assert(render_sequence.deep_view() =~= Seq::<RenderComputeNoiseView>::empty());
        assert(sequence.deep_view().take(0) =~= Seq::<ComputeNoiseBuffersView>::empty());
        assert(skipped@ =~= old(skipped)@ + Seq::<ComputeNoiseSkip>::empty());
    }
    while k < sequence.len()
        invariant
            pipeline.wf(),
            pipelines.wf(),
            old(pipelines).wf(),
            gpu_images.wf(),
            k <= sequence.len(),
            spec_catalog_grown(*pipeline, *old(pipelines), *pipelines),
            (pipelines.keys(), render_sequence.deep_view()) == spec_prepare_sequence(
                *pipeline,
                *gpu_images,
                old(pipelines).keys(),
                sequence.deep_view().take(k as int),
            ),
            skipped@ == old(skipped)@ + spec_sequence_skips(
                *pipeline,
                *gpu_images,
                index,
                sequence.deep_view().take(k as int),
            ),
        decreases sequence.len() - k,
    {
        let ghost catalog_before = *pipelines;
        let ghost rendered_before = render_sequence.deep_view();
        let ghost skipped_before = skipped@;
        let ghost taken = sequence.deep_view().take(k + 1);
        proof {
            assert(taken.drop_last() =~= sequence.deep_view().take(k as int));
            assert(taken.last() == sequence@[k as int].deep_view());
        }
        match prepare_noise(pipeline, pipelines, gpu_images, &sequence[k]) {
            Ok(render_noise) => {
                render_sequence.push(render_noise);
                assert(render_sequence.deep_view() =~= rendered_before.push(
                    render_noise.deep_view(),
                ));
            },
            Err(error) => {
                skipped.push(ComputeNoiseSkip { sequence: index, instruction: k, error });
                assert(skipped@ =~= old(skipped)@ + spec_sequence_skips(
                    *pipeline,
                    *gpu_images,
                    index,
                    taken,
                ));
            },
        }
        proof {
            lemma_catalog_grown_transitive(*pipeline, *old(pipelines), catalog_before, *pipelines);
        }
        k = k + 1;
    }
    assert(sequence.deep_view().take(k as int) =~= sequence.deep_view());
    render_sequence
}

/// Prepares every sequence of `queue` and puts those of which something is
/// left behind the sequences that wait for dispatch. Pipelines are taken from
/// the catalog; a key that is asked for the first time is queued there. An
/// instruction whose image the device does not hold, or for whose key no
/// pipeline is registered, is left out and reported; the others of its
/// sequence go on.
pub fn prepare_render_noise(
    pipeline: &ComputeNoisePipeline,
    pipelines: &mut PipelineCatalog,
    gpu_images: &ImageSizes,
    queue: &ComputeNoiseBufferQueue,
    render_queue: &mut ComputeNoiseRenderQueue,
) -> (skipped: Vec<ComputeNoiseSkip>)
    requires
        pipeline.wf(),
        old(pipelines).wf(),
        gpu_images.wf(),
    ensures
        final(pipelines).wf(),
        spec_catalog_grown(*pipeline, *old(pipelines), *final(pipelines)),
        final(pipelines).keys() == spec_prepare_all(
            *pipeline,
            *gpu_images,
            old(pipelines).keys(),
            queue@,
        ).0,
        final(render_queue)@ == old(render_queue)@ + spec_prepare_all(
            *pipeline,
            *gpu_images,
            old(pipelines).keys(),
            queue@,
        ).1,
        skipped@ == spec_queue_skips(*pipeline, *gpu_images, queue@),
{
    let mut skipped: Vec<ComputeNoiseSkip> = Vec::new();
    let mut i: usize = 0;
    proof {
        lemma_catalog_grown_reflexive(*pipeline, *pipelines);
        assert(queue@.take(0) =~= Seq::<Seq<ComputeNoiseBuffersView>>::empty());
        assert(render_queue@ =~= old(render_queue)@ + Seq::<Seq<RenderComputeNoiseView>>::empty());
    }
    while i < queue.queue.len()
        invariant
            pipeline.wf(),
            pipelines.wf(),
            old(pipelines).wf(),
            gpu_images.wf(),
            i <= queue.queue.len(),
            spec_catalog_grown(*pipeline, *old(pipelines), *pipelines),
            pipelines.keys() == spec_prepare_all(
                *pipeline,
                *gpu_images,
                old(pipelines).keys(),
                queue@.take(i as int),
            ).0,
            render_queue@ == old(render_queue)@ + spec_prepare_all(
                *pipeline,
                *gpu_images,
                old(pipelines).keys(),
                queue@.take(i as int),
            ).1,
            skipped@ == spec_queue_skips(*pipeline, *gpu_images, queue@.take(i as int)),
        decreases queue.queue.len() - i,
    {
        let ghost catalog_before = *pipelines;
        let ghost rendered_before = render_queue@;
        proof {
            let taken = queue@.take(i + 1);
            assert(taken.drop_last() =~= queue@.take(i as int));
            assert(taken.last() == queue.queue@[i as int].deep_view());
        }
        let render_sequence = prepare_sequence(
            pipeline,
            pipelines,
            gpu_images,
            i,
            &queue.queue[i],
            &mut skipped,
        );
        if !render_sequence.is_empty() {
            render_queue.queue.push(render_sequence);
            assert(render_queue@ =~= rendered_before.push(render_sequence.deep_view()));
        }
        proof {
            lemma_catalog_grown_transitive(*pipeline, *old(pipelines), catalog_before, *pipelines);
        }
        i = i + 1;
    }
    assert(queue@.take(i as int) =~= queue@);
    skipped
}

} // verus!
