//! Planning the staging buffers into which images are copied.

use vstd::prelude::*;
use crate::image::ComputeNoiseSize;
use crate::image::ImageHandle;
use crate::readback::ComputeNoiseReadbackSender;
use crate::readback::StagingBuffer;
use crate::readback::spec_supports_readback;
use crate::readback::util::get_aligned_size;
use crate::readback::util::lemma_align_is_above;
use crate::readback::util::spec_align_byte_size;
use crate::readback::util::spec_get_aligned_size;

verus! {

/// The staging buffer of an image of `size` and of `pixel_size` bytes to the
/// texel: every row of the image, padded to the row alignment.
pub open spec fn spec_staging_buffer(size: ComputeNoiseSize, pixel_size: u32) -> StagingBuffer {
    StagingBuffer {
        size: spec_get_aligned_size(
            size.spec_width() as int,
            size.spec_height() as int,
            pixel_size as int,
        ) as u64,
    }
}

/// Plans the staging buffer of an image of `size` and of `pixel_size` bytes
/// to the texel.
pub fn staging_buffer(size: ComputeNoiseSize, pixel_size: u32) -> (buffer: StagingBuffer)
    requires
        spec_supports_readback(size, pixel_size),
    ensures
        buffer == spec_staging_buffer(size, pixel_size),
{
    StagingBuffer { size: get_aligned_size(size.width(), size.height(), pixel_size) as u64 }
}

/// The staging buffer of an image holds every row of the image at its padded
/// length: it is as large as the rows of a copy take, and so at least as
/// large as the image itself.
pub proof fn lemma_staging_buffer_holds_image(size: ComputeNoiseSize, pixel_size: u32)
    requires
        spec_supports_readback(size, pixel_size),
    ensures
        spec_staging_buffer(size, pixel_size).size == size.spec_height() * spec_align_byte_size(
            size.spec_width() * pixel_size,
        ),
        spec_staging_buffer(size, pixel_size).size >= size.spec_width() * size.spec_height()
            * pixel_size,
{
    let row = size.spec_width() * pixel_size;
    let height = size.spec_height() as int;
    assert(0 <= row) by (nonlinear_arith)
        requires
            row == size.spec_width() * pixel_size,
    ;
    lemma_align_is_above(row);
    let stride = spec_align_byte_size(row);
    assert(height * stride >= height * row) by (nonlinear_arith)
        requires
            0 <= height,
            row <= stride,
    ;
    assert(size.spec_width() * size.spec_height() * pixel_size == height * row)
        by (nonlinear_arith)
        requires
            row == size.spec_width() * pixel_size,
            height == size.spec_height(),
    ;
}

/// Plans a staging buffer for every registration, by the size and the pixel
/// size of its image: the registrations stay the same but for their buffers.
pub fn prepare_readback_buffers(readback_sender: &mut ComputeNoiseReadbackSender)
    requires
        old(readback_sender).wf(),
    ensures
        final(readback_sender).wf(),
        final(readback_sender).0.keys() == old(readback_sender).0.keys(),
        forall|i: int|
            0 <= i < final(readback_sender).0.values().len() ==> {
                let before = #[trigger] old(readback_sender).0.values()[i];
                let after = final(readback_sender).0.values()[i];
                &&& after.spec_size() == before.spec_size()
                &&& after.spec_pixel_size() == before.spec_pixel_size()
                &&& after.spec_buffer() == Some(
                    spec_staging_buffer(before.spec_size(), before.spec_pixel_size()),
                )
            },
{
    let count = readback_sender.0.len();
    let mut i: usize = 0;
    while i < count
        invariant
            readback_sender.wf(),
            i <= count,
            count == readback_sender.0.keys().len(),
            readback_sender.0.keys() == old(readback_sender).0.keys(),
            readback_sender.0.values().len() == old(readback_sender).0.values().len(),
            forall|j: int|
                0 <= j < i ==> {
                    let before = #[trigger] old(readback_sender).0.values()[j];
                    let after = readback_sender.0.values()[j];
                    &&& after.spec_size() == before.spec_size()
                    &&& after.spec_pixel_size() == before.spec_pixel_size()
                    &&& after.spec_buffer() == Some(
                        spec_staging_buffer(before.spec_size(), before.spec_pixel_size()),
                    )
                },
            forall|j: int|
                i <= j < count ==> {
                    readback_sender.0.values()[j] == #[trigger] old(readback_sender).0.values()[j]
                },
        decreases count - i,
    {
        let ghost before = readback_sender.0;
        proof {
            before.lemma_value_at(i as int);
        }
        let image = readback_sender.0.value_at_mut(i);
        let buffer = staging_buffer(image.size(), image.pixel_size());
        image.set_buffer(Some(buffer));
        proof {
            let after = readback_sender.0;
            assert forall|handle: ImageHandle| after.contains(handle) implies (
            #[trigger] after.value_of(handle)).wf() by {
                let j = after.keys().index_of(handle);
                assert(0 <= j < after.keys().len() && after.keys()[j] == handle);
                before.lemma_value_at(j);
                after.lemma_value_at(j);
            }
        }
        i = i + 1;
    }
}

} // verus!
