//! The hand-over of bound sequences from the producer to the consumer.

use vstd::prelude::*;
use crate::noise_queue::ComputeNoiseBufferQueue;
use crate::noise_queue::ComputeNoiseBuffersView;

verus! {

/// Hands the producer's bound sequences to the consumer and leaves the
/// producer's queue empty, free to be filled again.
pub fn extract_compute_noise_queue(
    main_compute_noise_queue: &mut ComputeNoiseBufferQueue,
) -> (extracted: ComputeNoiseBufferQueue)
    ensures
        extracted@ == old(main_compute_noise_queue)@,
        final(main_compute_noise_queue)@ == Seq::<Seq<ComputeNoiseBuffersView>>::empty(),
{
    let mut extracted = ComputeNoiseBufferQueue { queue: Vec::new() };
    core::mem::swap(&mut extracted.queue, &mut main_compute_noise_queue.queue);
    assert(main_compute_noise_queue@ =~= Seq::<Seq<ComputeNoiseBuffersView>>::empty());
    extracted
}

} // verus!
