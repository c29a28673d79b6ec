//! Row-pitch arithmetic for texture-to-buffer copies.

use vstd::prelude::*;
use vstd::arithmetic::div_mod::lemma_fundamental_div_mod;
use vstd::arithmetic::div_mod::lemma_mod_multiples_basic;

verus! {

/// Every row of a texture-to-buffer copy starts on a multiple of this many bytes.
pub const COPY_BYTES_PER_ROW_ALIGNMENT: u32 = 256;

/// The padded length of a row of `value` bytes: the least multiple of the row
/// alignment that is strictly greater than `value`.
pub open spec fn spec_align_byte_size(value: int) -> int {
    (value / 256 + 1) * 256
}

/// The size of a staging buffer for `height` rows of `width` pixels.
pub open spec fn spec_get_aligned_size(width: int, height: int, pixel_size: int) -> int {
    height * spec_align_byte_size(width * pixel_size)
}

/// Pads a row length up to the copy alignment. A length that already is a
/// multiple of the alignment gets one more full block.
pub fn align_byte_size(value: u32) -> (aligned: u32)
    requires
        spec_align_byte_size(value as int) <= u32::MAX,
    ensures
        aligned == spec_align_byte_size(value as int),
        aligned % COPY_BYTES_PER_ROW_ALIGNMENT == 0,
        value < aligned <= value + COPY_BYTES_PER_ROW_ALIGNMENT,
{
    value + (COPY_BYTES_PER_ROW_ALIGNMENT - (value % COPY_BYTES_PER_ROW_ALIGNMENT))
}

/// The byte size of a staging buffer that holds `height` padded rows.
pub fn get_aligned_size(width: u32, height: u32, pixel_size: u32) -> (size: u32)
    requires
        spec_align_byte_size(width * pixel_size) <= u32::MAX,
        spec_get_aligned_size(width as int, height as int, pixel_size as int) <= u32::MAX,
    ensures
        size == spec_get_aligned_size(width as int, height as int, pixel_size as int),
{
    proof {
        assert(0 <= width * pixel_size) by (nonlinear_arith);
        lemma_align_is_above(width * pixel_size);
    }
    height * align_byte_size(width * pixel_size)
}

/// How the rows of an image lie in a buffer.
#[derive(Clone, Copy, Debug, PartialEq, Eq, Structural)]
pub struct ImageDataLayout {
    /// Where in the buffer the image starts.
    pub offset: u64,
    /// The bytes from one row to the next, when there is more than one row.
    pub bytes_per_row: Option<u32>,
    /// The rows from one layer to the next, when there is more than one layer.
    pub rows_per_image: Option<u32>,
}

/// The layout of an image at the start of a buffer: rows padded to the row
/// alignment if there is more than one row, and `depth` rows to a layer if
/// `depth` is more than one.
pub open spec fn spec_layout_data(
    width: int,
    height: int,
    depth: int,
    pixel_size: int,
) -> ImageDataLayout {
    ImageDataLayout {
        offset: 0,
        bytes_per_row: if height > 1 {
            Some(spec_align_byte_size(width * pixel_size) as u32)
        } else {
            None
        },
        rows_per_image: if depth > 1 {
            Some(depth as u32)
        } else {
            None
        },
    }
}

/// The layout of an image of `width` texels of `pixel_size` bytes in a
/// staging buffer.
pub fn layout_data(width: u32, height: u32, depth: u32, pixel_size: u32) -> (layout:
    ImageDataLayout)
    requires
        height > 1 ==> spec_align_byte_size(width * pixel_size) <= u32::MAX,
    ensures
        layout == spec_layout_data(
            width as int,
            height as int,
            depth as int,
            pixel_size as int,
        ),
{
    ImageDataLayout {
        offset: 0,
        bytes_per_row: if height > 1 {
            proof {
                lemma_align_is_above(width * pixel_size);
                assert(1 * spec_align_byte_size(width * pixel_size) == spec_align_byte_size(
                    width * pixel_size,
                )) by (nonlinear_arith);
            }
            Some(get_aligned_size(width, 1, pixel_size))
        } else {
            None
        },
        rows_per_image: if depth > 1 {
            Some(depth)
        } else {
            None
        },
    }
}

/// A padded length is the length and what it lacks to the next multiple of
/// the row alignment.
pub proof fn lemma_align_is_sum(value: int)
    requires
        0 <= value,
    ensures
        spec_align_byte_size(value) == value + (256 - value % 256),
{
    lemma_fundamental_div_mod(value, 256);
    assert((value / 256 + 1) * 256 == 256 * (value / 256) + 256) by (nonlinear_arith);
}

/// A padded length is a multiple of the row alignment, above the length by
/// at most one alignment.
pub proof fn lemma_align_is_above(value: int)
    requires
        0 <= value,
    ensures
        value < spec_align_byte_size(value) <= value + 256,
        spec_align_byte_size(value) % 256 == 0,
{
    lemma_align_is_sum(value);
    lemma_mod_multiples_basic(value / 256 + 1, 256);
}

} // verus!
