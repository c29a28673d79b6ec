//! Planning the copies of images into their staging buffers.

use vstd::prelude::*;
use crate::image::ComputeNoiseSize;
use crate::image::Extent3d;
use crate::image::ImageHandle;
use crate::readback::ComputeNoiseReadbackSender;
use crate::readback::prepare::lemma_staging_buffer_holds_image;
use crate::readback::prepare::spec_staging_buffer;
use crate::readback::spec_supports_readback;
use crate::readback::util::ImageDataLayout;
use crate::readback::util::layout_data;
use crate::readback::util::lemma_align_is_sum;
use crate::readback::util::spec_align_byte_size;
use crate::readback::util::spec_layout_data;
use crate::render::node::ComputeNoiseNodeState;

verus! {

/// What the device knows of an image: its handle, its width and height in
/// texels, and the bytes of one texel.
#[derive(Clone, Copy, Debug, PartialEq, Eq, Structural)]
pub struct RenderImage {
    pub handle: ImageHandle,
    pub width: u32,
    pub height: u32,
    pub pixel_size: u32,
}

impl RenderImage {
    /// Whether a padded row of the image can be measured in 32 bits.
    pub open spec fn spec_fits(self) -> bool {
        spec_align_byte_size(self.width * self.pixel_size) <= u32::MAX
    }

    /// Decides [`Self::spec_fits`].
    pub fn fits(&self) -> (fits: bool)
        ensures
            fits == self.spec_fits(),
    {
        assert(self.width * self.pixel_size <= 0xffff_ffff * 0xffff_ffff) by (nonlinear_arith)
            requires
                self.width <= 0xffff_ffff,
                self.pixel_size <= 0xffff_ffff,
        ;
        let row: u64 = self.width as u64 * self.pixel_size as u64;
        let aligned: u64 = row + (256 - row % 256);
        proof {
            lemma_align_is_sum(row as int);
        }
        aligned <= u32::MAX as u64
    }
}

/// One copy of an image into its staging buffer: how the rows lie in the
/// buffer, and how much of the image is copied.
#[derive(Clone, Copy, Debug, PartialEq, Eq, Structural)]
pub struct ReadbackCopy {
    pub image: ImageHandle,
    pub layout: ImageDataLayout,
    pub extent: Extent3d,
}

/// The copy of an image: all of its one layer, rows padded to the row alignment.
pub open spec fn spec_readback_copy(image: RenderImage) -> ReadbackCopy {
    ReadbackCopy {
        image: image.handle,
        layout: spec_layout_data(
            image.width as int,
            image.height as int,
            1,
            image.pixel_size as int,
        ),
        extent: Extent3d { width: image.width, height: image.height, depth_or_array_layers: 1 },
    }
}

/// Whether no image before image `i` of `images` is the same image.
pub open spec fn spec_is_copied_first(images: Seq<RenderImage>, i: int) -> bool {
    forall|j: int| 0 <= j < i ==> (#[trigger] images[j]).handle != images[i].handle
}

/// Whether image `i` of `images` is copied: it has a registration, and no
/// image before it in `images` is the same.
pub open spec fn spec_is_copied(
    readback_sender: ComputeNoiseReadbackSender,
    images: Seq<RenderImage>,
    i: int,
) -> bool {
    &&& readback_sender.contains(images[i].handle)
    &&& spec_is_copied_first(images, i)
}

/// The copies of the images that are copied, in the order of the images.
pub open spec fn spec_readback_copies(
    readback_sender: ComputeNoiseReadbackSender,
    images: Seq<RenderImage>,
) -> Seq<ReadbackCopy>
    decreases images.len(),
{
    if images.len() == 0 {
        Seq::empty()
    } else {
        let before = spec_readback_copies(readback_sender, images.drop_last());
        if spec_is_copied(readback_sender, images, images.len() - 1) {
            before.push(spec_readback_copy(images.last()))
        } else {
            before
        }
    }
}

/// Plans the copies of this tick: one for each of the images that were run
/// and have a registration, in the order in which they were run, none twice.
/// While the pipeline compiles nothing is copied.
pub fn readback_texture(
    readback_sender: &ComputeNoiseReadbackSender,
    state: ComputeNoiseNodeState,
    images: &Vec<RenderImage>,
) -> (copies: Vec<ReadbackCopy>)
    requires
        readback_sender.wf(),
        forall|i: int|
            0 <= i < images.len() && spec_is_copied(*readback_sender, images@, i) ==> (
            #[trigger] images[i]).spec_fits(),
    ensures
        copies@ == (match state {
            ComputeNoiseNodeState::Loading => Seq::empty(),
            ComputeNoiseNodeState::Ready(_) => spec_readback_copies(*readback_sender, images@),
        }),
{
    let mut copies: Vec<ReadbackCopy> = Vec::new();
    match state {
        ComputeNoiseNodeState::Loading => {
            return copies;
        },
        ComputeNoiseNodeState::Ready(_) => {},
    }
    let mut i: usize = 0;
    proof {
        assert(images@.take(0) =~= Seq::<RenderImage>::empty());
    }
    while i < images.len()
        invariant
            readback_sender.wf(),
            i <= images.len(),
            forall|j: int|
                0 <= j < images.len() && spec_is_copied(*readback_sender, images@, j) ==> (
                #[trigger] images[j]).spec_fits(),
            copies@ == spec_readback_copies(*readback_sender, images@.take(i as int)),
        decreases images.len() - i,
    {
        let image = images[i];
        let ghost taken = images@.take(i + 1);
        proof {
            assert(taken.drop_last() =~= images@.take(i as int));
            assert(taken.last() == image);
        }
        let mut first = true;
        let ghost mut earlier: int = 0;
        let mut j: usize = 0;
        while j < i
            invariant
                j <= i,
                i < images.len(),
                image == images[i as int],
                first ==> forall|k: int| 0 <= k < j ==> (#[trigger] images[k]).handle
                    != image.handle,
                !first ==> 0 <= earlier < i && images[earlier].handle == image.handle,
            decreases i - j,
        {
            if images[j].handle == image.handle {
                first = false;
                proof {
                    earlier = j as int;
                }
            }
            j = j + 1;
        }
        proof {
            if first {
                assert forall|k: int| 0 <= k < i implies (#[trigger] taken[k]).handle
                    != taken[i as int].handle by {
                    assert(taken[k] == images[k]);
                }
            } else {
                assert(taken[earlier].handle == taken[i as int].handle);
            }
            assert(first == spec_is_copied_first(taken, i as int));
        }
        if first && readback_sender.contains_key(image.handle) {
            assert(spec_is_copied(*readback_sender, images@, i as int)) by {
                assert forall|k: int| 0 <= k < i implies (#[trigger] images@[k]).handle
                    != images@[i as int].handle by {
                    assert(taken[k] == images@[k]);
                }
            }
            assert(images[i as int].spec_fits());
            copies.push(
                ReadbackCopy {
                    image: image.handle,
                    layout: layout_data(image.width, image.height, 1, image.pixel_size),
                    extent: Extent3d {
                        width: image.width,
                        height: image.height,
                        depth_or_array_layers: 1,
                    },
                },
            );
        }
        i = i + 1;
    }
    assert(images@.take(i as int) =~= images@);
    copies
}

/// The copy of an image that is as its registration says goes into the
/// staging buffer that is planned for the registration: with more than one
/// row, the rows of the copy fill the buffer; with one row or none, the
/// image is no larger than the buffer.
pub proof fn lemma_copy_fits_staging_buffer(
    image: RenderImage,
    size: ComputeNoiseSize,
    pixel_size: u32,
)
    requires
        image.width == size.spec_width(),
        image.height == size.spec_height(),
        image.pixel_size == pixel_size,
        spec_supports_readback(size, pixel_size),
    ensures
        image.spec_fits(),
        match spec_readback_copy(image).layout.bytes_per_row {
            Some(bytes_per_row) => bytes_per_row * image.height == spec_staging_buffer(
                size,
                pixel_size,
            ).size,
            None => image.width * image.pixel_size * image.height <= spec_staging_buffer(
                size,
                pixel_size,
            ).size,
        },
{
    lemma_staging_buffer_holds_image(size, pixel_size);
    let row = image.width * image.pixel_size;
    assert(image.width * image.height * image.pixel_size == row * image.height)
        by (nonlinear_arith)
        requires
            row == image.width * image.pixel_size,
    ;
    assert(spec_align_byte_size(row) * image.height == image.height * spec_align_byte_size(row))
        by (nonlinear_arith);
}

} // verus!
