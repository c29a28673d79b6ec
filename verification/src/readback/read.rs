//! Turning the bytes of a mapped staging buffer into the bytes of the image.

use vstd::prelude::*;
use vstd::arithmetic::div_mod::lemma_fundamental_div_mod_converse;
use vstd::arithmetic::div_mod::lemma_remainder_lower;
use vstd::arithmetic::mul::lemma_mul_inequality;
use crate::image::ImageHandle;
use crate::readback::ComputeNoiseReadbackSender;
use crate::readback::ReadbackDelivery;
use crate::readback::render::RenderImage;
use crate::readback::render::spec_is_copied;
use crate::readback::render::spec_is_copied_first;
use crate::readback::util::lemma_align_is_above;
use crate::readback::util::lemma_align_is_sum;
use crate::readback::util::spec_align_byte_size;
use crate::render::node::ComputeNoiseNodeState;
use crate::table::Table;
use crate::readback::util::spec_get_aligned_size;

verus! {

/// The rows of `data` without their padding: `data` holds whole rows of
/// `padded_row_bytes` bytes each, and of each row the first `row_bytes` bytes
/// are kept.
pub open spec fn spec_strip_row_padding(
    data: Seq<u8>,
    row_bytes: int,
    padded_row_bytes: int,
) -> Seq<u8> {
    Seq::new(
        (((data.len() as int) / padded_row_bytes) * row_bytes) as nat,
        |k: int| data[(k / row_bytes) * padded_row_bytes + k % row_bytes],
    )
}

/// What is handed to the producer for a mapped staging buffer `data` of an image
/// of `width` by `height` pixels: the buffer as it is when it already has the
/// tight length, else its rows without their padding.
pub open spec fn spec_readback_payload(
    data: Seq<u8>,
    width: int,
    height: int,
    pixel_size: int,
) -> Seq<u8> {
    if data.len() == width * height * pixel_size {
        data
    } else {
        spec_strip_row_padding(
            data,
            width * pixel_size,
            spec_align_byte_size(width * pixel_size),
        )
    }
}

proof fn lemma_row_in_bounds(len: int, padded_row_bytes: int, row: int)
    requires
        0 <= len,
        0 < padded_row_bytes,
        0 <= row < len / padded_row_bytes,
    ensures
        0 <= row * padded_row_bytes,
        row * padded_row_bytes + padded_row_bytes <= len,
{
    lemma_remainder_lower(len, padded_row_bytes);
    lemma_mul_inequality(row + 1, len / padded_row_bytes, padded_row_bytes);
    lemma_mul_inequality(0, row, padded_row_bytes);
    assert((row + 1) * padded_row_bytes == row * padded_row_bytes + padded_row_bytes)
        by (nonlinear_arith);
}

/// Copies the first `row_bytes` bytes of every whole row of `padded_row_bytes`
/// bytes; what follows the last whole row is dropped.
pub fn strip_row_padding(data: &Vec<u8>, row_bytes: usize, padded_row_bytes: usize) -> (tight: Vec<
    u8,
>)
    requires
        0 < padded_row_bytes,
        row_bytes <= padded_row_bytes,
    ensures
        tight@ == spec_strip_row_padding(data@, row_bytes as int, padded_row_bytes as int),
{
    let rows: usize = data.len() / padded_row_bytes;
    let mut tight: Vec<u8> = Vec::new();
    let mut row: usize = 0;
    while row < rows
        invariant
            0 < padded_row_bytes,
            row_bytes <= padded_row_bytes,
            rows == data.len() / padded_row_bytes,
            row <= rows,
            tight.len() == row * row_bytes,
            forall|k: int|
                0 <= k < tight.len() ==> tight[k] == data[(k / (row_bytes as int))
                    * padded_row_bytes + k % (row_bytes as int)],
        decreases rows - row,
    {
        proof {
            lemma_row_in_bounds(data.len() as int, padded_row_bytes as int, row as int);
        }
        let start: usize = row * padded_row_bytes;
        let mut column: usize = 0;
        while column < row_bytes
            invariant
                0 < padded_row_bytes,
                row_bytes <= padded_row_bytes,
                column <= row_bytes,
                row < rows,
                start == row * padded_row_bytes,
                start + padded_row_bytes <= data.len(),
                tight.len() == row * row_bytes + column,
                forall|k: int|
                    0 <= k < tight.len() ==> tight[k] == data[(k / (row_bytes as int))
                        * padded_row_bytes + k % (row_bytes as int)],
            decreases row_bytes - column,
        {
            proof {
                lemma_fundamental_div_mod_converse(
                    row * row_bytes + column,
                    row_bytes as int,
                    row as int,
                    column as int,
                );
            }
            tight.push(data[start + column]);
            column = column + 1;
        }
        assert((row + 1) * row_bytes == row * row_bytes + row_bytes) by (nonlinear_arith);
        row = row + 1;
    }
    assert(tight@ =~= spec_strip_row_padding(data@, row_bytes as int, padded_row_bytes as int));
    tight
}

/// The bytes that go to the producer for a mapped staging buffer. The image
/// measures `width` by `height` pixels of `pixel_size` bytes.
pub fn readback_payload(data: Vec<u8>, width: u32, height: u32, pixel_size: u32) -> (payload: Vec<
    u8,
>)
    ensures
        payload@ == spec_readback_payload(
            data@,
            width as int,
            height as int,
            pixel_size as int,
        ),
{
    assert(width * height * pixel_size <= 0xffff_ffff * 0xffff_ffff * 0xffff_ffff && width * height
        <= 0xffff_ffff * 0xffff_ffff && width * pixel_size <= 0xffff_ffff * 0xffff_ffff)
        by (nonlinear_arith)
        requires
            0 <= width <= 0xffff_ffff,
            0 <= height <= 0xffff_ffff,
            0 <= pixel_size <= 0xffff_ffff,
    ;
    let tight: u128 = width as u128 * height as u128 * pixel_size as u128;
    if data.len() as u128 != tight {
        let initial_row_bytes: u64 = width as u64 * pixel_size as u64;
        let buffered_row_bytes: u64 = initial_row_bytes + (256 - initial_row_bytes % 256);
        proof {
            lemma_align_is_above(initial_row_bytes as int);
            lemma_align_is_sum(initial_row_bytes as int);
        }
        if buffered_row_bytes > usize::MAX as u64 {
            // Not one whole row fits into the buffer.
            let payload: Vec<u8> = Vec::new();
            proof {
                vstd::arithmetic::div_mod::lemma_basic_div(
                    data@.len() as int,
                    buffered_row_bytes as int,
                );
                assert(0 * (initial_row_bytes as int) == 0) by (nonlinear_arith);
                assert(payload@ =~= spec_strip_row_padding(
                    data@,
                    initial_row_bytes as int,
                    buffered_row_bytes as int,
                ));
            }
            payload
        } else {
            strip_row_padding(&data, initial_row_bytes as usize, buffered_row_bytes as usize)
        }
    } else {
        data
    }
}

/// A mapped staging buffer: the image it was copied from, and its bytes.
pub struct MappedImage {
    pub image: RenderImage,
    pub data: Vec<u8>,
}

/// The images of mapped buffers, in order.
pub open spec fn spec_mapped_images(mapped: Seq<MappedImage>) -> Seq<RenderImage> {
    Seq::new(mapped.len(), |i: int| mapped[i].image)
}

/// Whether one of the first `count` images of `images` is `image`.
pub open spec fn spec_among_first(
    images: Seq<RenderImage>,
    count: int,
    image: ImageHandle,
) -> bool {
    exists|j: int| 0 <= j < count && j < images.len() && (#[trigger] images[j]).handle == image
}

/// One delivery as it is planned: the image, and the bytes that go to the
/// producer that registered it, if there is one.
#[derive(Debug, PartialEq, Eq)]
pub struct PlannedDelivery {
    pub image: ImageHandle,
    pub payload: Option<Vec<u8>>,
}

/// A planned delivery as plain values.
pub struct PlannedDeliveryView {
    pub image: ImageHandle,
    pub payload: Option<Seq<u8>>,
}

impl DeepView for PlannedDelivery {
    type V = PlannedDeliveryView;

    open spec fn deep_view(&self) -> PlannedDeliveryView {
        PlannedDeliveryView {
            image: self.image,
            payload: match self.payload {
                Some(payload) => Some(payload@),
                None => None,
            },
        }
    }
}

/// What is planned for mapped buffer `i`: if its image has a registration and
/// no earlier buffer is of the same image, the bytes of the buffer without
/// the padding of the rows; else nothing.
pub open spec fn spec_planned_delivery(
    readback_sender: ComputeNoiseReadbackSender,
    mapped: Seq<MappedImage>,
    i: int,
) -> PlannedDeliveryView {
    PlannedDeliveryView {
        image: mapped[i].image.handle,
        payload: if spec_is_copied(readback_sender, spec_mapped_images(mapped), i) {
            Some(
                spec_readback_payload(
                    mapped[i].data@,
                    mapped[i].image.width as int,
                    mapped[i].image.height as int,
                    mapped[i].image.pixel_size as int,
                ),
            )
        } else {
            None
        },
    }
}

/// What is planned for the mapped buffers: nothing while the pipeline
/// compiles, else one delivery for each buffer, in order.
pub open spec fn spec_planned_deliveries(
    readback_sender: ComputeNoiseReadbackSender,
    state: ComputeNoiseNodeState,
    mapped: Seq<MappedImage>,
) -> Seq<PlannedDeliveryView> {
    match state {
        ComputeNoiseNodeState::Loading => Seq::empty(),
        ComputeNoiseNodeState::Ready(_) => Seq::new(
            mapped.len(),
            |i: int| spec_planned_delivery(readback_sender, mapped, i),
        ),
    }
}

/// An image is among the first `i + 1` when it is among the first `i` or is
/// image `i`; and image `i` is the first of its kind when it is not among the
/// first `i`.
proof fn lemma_among_first_step(images: Seq<RenderImage>, i: int)
    requires
        0 <= i < images.len(),
    ensures
        forall|image: ImageHandle|
            spec_among_first(images, i + 1, image) <==> spec_among_first(images, i, image)
                || image == images[i].handle,
        spec_is_copied_first(images, i) <==> !spec_among_first(images, i, images[i].handle),
{
    let handle = images[i].handle;
    assert forall|image: ImageHandle|
        spec_among_first(images, i + 1, image) <==> spec_among_first(images, i, image) || image
            == handle by {
        if spec_among_first(images, i, image) {
            let j = choose|j: int|
                0 <= j < i && j < images.len() && (#[trigger] images[j]).handle == image;
            assert(0 <= j < i + 1 && images[j].handle == image);
        }
        if spec_among_first(images, i + 1, image) && image != handle {
            let j = choose|j: int|
                0 <= j < i + 1 && j < images.len() && (#[trigger] images[j]).handle == image;
            assert(0 <= j < i && images[j].handle == image);
        }
    }
    if !spec_is_copied_first(images, i) {
        let j = choose|j: int| 0 <= j < i && (#[trigger] images[j]).handle == images[i].handle;
        assert(spec_among_first(images, i, handle));
    }
    if spec_among_first(images, i, handle) {
        let j = choose|j: int|
            0 <= j < i && j < images.len() && (#[trigger] images[j]).handle == handle;
        assert(images[j].handle == images[i].handle);
    }
}

/// Plans the deliveries of the mapped buffers: which of them go to a
/// producer, and with which bytes. Nothing is sent and nothing forgotten.
pub fn plan_deliveries(
    readback_sender: &ComputeNoiseReadbackSender,
    state: ComputeNoiseNodeState,
    mapped: Vec<MappedImage>,
) -> (planned: Vec<PlannedDelivery>)
    requires
        readback_sender.wf(),
    ensures
        planned.deep_view() == spec_planned_deliveries(*readback_sender, state, mapped@),
{
    let mut planned: Vec<PlannedDelivery> = Vec::new();
    match state {
        ComputeNoiseNodeState::Loading => {
            assert(planned.deep_view() =~= Seq::<PlannedDeliveryView>::empty());
            return planned;
        },
        ComputeNoiseNodeState::Ready(_) => {},
    }
    let ghost all = mapped@;
    let ghost images = spec_mapped_images(all);
    let mut seen: Table<ImageHandle, ()> = Table::new();
    for buffer in iter: mapped
        invariant
            readback_sender.wf(),
            seen.wf(),
            iter.seq() == all,
            images == spec_mapped_images(all),
            planned@.len() == iter.index(),
            forall|j: int|
                0 <= j < iter.index() ==> (#[trigger] planned@[j]).deep_view()
                    == spec_planned_delivery(*readback_sender, all, j),
            forall|image: ImageHandle|
                seen.contains(image) <==> spec_among_first(images, iter.index() as int, image),
    {
        let ghost i = iter.index() as int;
        proof {
            assert(buffer == all[i]);
            lemma_among_first_step(images, i);
        }
        let image = buffer.image;
        let first = seen.insert(image.handle, ()).is_none();
        let payload = if first && readback_sender.contains_key(image.handle) {
            Some(readback_payload(buffer.data, image.width, image.height, image.pixel_size))
        } else {
            None
        };
        planned.push(PlannedDelivery { image: image.handle, payload });
    }
    assert(planned.deep_view() =~= spec_planned_deliveries(*readback_sender, state, all));
    planned
}

/// Hands the bytes of each mapped buffer to the producer that registered its
/// image, as [`plan_deliveries`] plans them, and forgets the registration: a
/// capture is delivered once. A buffer whose image has no registration, or
/// none any more because an earlier buffer was of the same image, is dropped.
/// While the pipeline compiles nothing is delivered and nothing forgotten.
pub fn map_read_texture(
    readback_sender: &mut ComputeNoiseReadbackSender,
    state: ComputeNoiseNodeState,
    mapped: Vec<MappedImage>,
) -> (deliveries: Vec<ReadbackDelivery>)
    requires
        old(readback_sender).wf(),
    ensures
        final(readback_sender).wf(),
        state is Loading ==> {
            &&& deliveries@.len() == 0
            &&& final(readback_sender).0.keys() == old(readback_sender).0.keys()
            &&& final(readback_sender).0.values() == old(readback_sender).0.values()
        },
        state is Ready ==> {
            &&& deliveries@.len() == mapped@.len()
            &&& forall|i: int|
                0 <= i < mapped@.len() ==> ((#[trigger] deliveries@[i]) is NotQueued
                    <==> !spec_is_copied(*old(readback_sender), spec_mapped_images(mapped@), i))
            &&& forall|image: ImageHandle|
                final(readback_sender).contains(image) <==> old(readback_sender).contains(image)
                    && !spec_among_first(
                    spec_mapped_images(mapped@),
                    mapped@.len() as int,
                    image,
                )
            &&& forall|image: ImageHandle|
                final(readback_sender).contains(image) ==> final(readback_sender).0.value_of(image)
                    == old(readback_sender).0.value_of(image)
        },
{
    let ghost all = mapped@;
    let ghost images = spec_mapped_images(all);
    let planned = plan_deliveries(readback_sender, state, mapped);
    let ghost plans = planned.deep_view();
    let mut deliveries: Vec<ReadbackDelivery> = Vec::new();
    for delivery in iter: planned
        invariant
            readback_sender.wf(),
            plans == spec_planned_deliveries(*old(readback_sender), state, all),
            images == spec_mapped_images(all),
            iter.seq().len() == plans.len(),
            forall|j: int|
                0 <= j < plans.len() ==> (#[trigger] iter.seq()[j]).deep_view() == plans[j],
            deliveries@.len() == iter.index(),
            state is Loading ==> readback_sender.0.keys() == old(readback_sender).0.keys()
                && readback_sender.0.values() == old(readback_sender).0.values(),
            forall|j: int|
                0 <= j < iter.index() ==> ((#[trigger] deliveries@[j]) is NotQueued
                    <==> !spec_is_copied(*old(readback_sender), images, j)),
            forall|image: ImageHandle|
                readback_sender.contains(image) <==> old(readback_sender).contains(image)
                    && !spec_among_first(images, iter.index() as int, image),
            forall|image: ImageHandle|
                readback_sender.contains(image) ==> {
                    readback_sender.0.value_of(image) == old(readback_sender).0.value_of(image)
                },
    {
        let ghost i = iter.index() as int;
        proof {
            assert(state is Ready);
            assert(delivery.deep_view() == spec_planned_delivery(*old(readback_sender), all, i));
            assert(images[i].handle == delivery.image);
            lemma_among_first_step(images, i);
        }
        match delivery.payload {
            Some(payload) => {
                let outcome = readback_sender.deliver(delivery.image, payload);
                deliveries.push(outcome);
            },
            None => {
                deliveries.push(ReadbackDelivery::NotQueued);
            },
        }
    }
    deliveries
}

/// A staging buffer of `height` padded rows comes out as exactly
/// `width * height * pixel_size` bytes, whatever the padding was, and byte
/// `column` of row `row` of the image is byte `column` of padded row `row`.
pub proof fn lemma_readback_payload_is_tight(
    data: Seq<u8>,
    width: int,
    height: int,
    pixel_size: int,
)
    requires
        0 <= width,
        0 <= height,
        0 <= pixel_size,
        data.len() == spec_get_aligned_size(width, height, pixel_size),
    ensures
        spec_readback_payload(data, width, height, pixel_size).len() == width * height
            * pixel_size,
        forall|row: int, column: int|
            0 <= row < height && 0 <= column < width * pixel_size ==> {
                #[trigger] spec_readback_payload(data, width, height, pixel_size)[row * (width
                    * pixel_size) + column] == data[row * spec_align_byte_size(width * pixel_size)
                    + column]
            },
{
    let row_bytes = width * pixel_size;
    let stride = spec_align_byte_size(row_bytes);
    assert(0 <= row_bytes) by (nonlinear_arith)
        requires
            0 <= width,
            0 <= pixel_size,
            row_bytes == width * pixel_size,
    ;
    lemma_align_is_above(row_bytes);
    assert(width * height * pixel_size == height * row_bytes) by (nonlinear_arith)
        requires
            row_bytes == width * pixel_size,
    ;
    assert(data.len() == height * stride);
    assert((height * stride) / stride == height) by {
        lemma_fundamental_div_mod_converse(height * stride, stride, height, 0);
    }
    let payload = spec_readback_payload(data, width, height, pixel_size);
    if data.len() == width * height * pixel_size {
        // The buffer is tight only when it is empty.
        assert(height * stride == height * row_bytes);
        assert(height == 0) by (nonlinear_arith)
            requires
                height * stride == height * row_bytes,
                row_bytes < stride,
                0 <= height,
        ;
    } else {
        assert(payload.len() == height * row_bytes);
        assert forall|row: int, column: int|
            0 <= row < height && 0 <= column < row_bytes implies #[trigger] payload[row
            * row_bytes + column] == data[row * stride + column] by {
            lemma_fundamental_div_mod_converse(row * row_bytes + column, row_bytes, row, column);
            assert(row * row_bytes + column < height * row_bytes) by (nonlinear_arith)
                requires
                    0 <= row < height,
                    0 <= column < row_bytes,
            ;
        }
    }
}

} // verus!
