//! The hand-over of registrations from the producer to the consumer.

use vstd::prelude::*;
use crate::image::ImageHandle;
use crate::readback::ComputeNoiseReadback;
use crate::readback::ComputeNoiseReadbackSender;
use crate::readback::spec_extracted;

verus! {

/// Hands to the consumer the registration of every image that the producer
/// has asked for since the last hand-over, and empties the list of what was
/// asked for. An image that is asked for has its registration made anew on
/// the consumer's side, without a staging buffer.
pub fn extract_readback_sender(
    readback_sender: &mut ComputeNoiseReadbackSender,
    main_readback: &mut ComputeNoiseReadback,
)
    requires
        old(readback_sender).wf(),
        old(main_readback).wf(),
    ensures
        final(readback_sender).wf(),
        final(main_readback).wf(),
        final(main_readback).queued() == Seq::<ImageHandle>::empty(),
        final(main_readback).receivers() == old(main_readback).receivers(),
        final(main_readback).senders() == old(main_readback).senders(),
        spec_extracted(
            *old(main_readback),
            old(main_readback).queued(),
            *old(readback_sender),
            *final(readback_sender),
        ),
{
    main_readback.extract_into(readback_sender);
}

} // verus!
