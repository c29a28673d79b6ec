//! Sizes, extents and handles of the images that kernels write to.

use vstd::prelude::*;
use vstd::std_specs::convert::FromSpecImpl;
use crate::table::Table;
use crate::table::TableKey;

verus! {

/// Whether a texture has one, two or three dimensions.
#[derive(Clone, Copy, Debug, PartialEq, Eq, Hash, Structural)]
pub enum TextureDimension {
    D1,
    D2,
    D3,
}

/// The extent of a texture in texels.
#[derive(Clone, Copy, Debug, PartialEq, Eq, Hash, Structural)]
pub struct Extent3d {
    pub width: u32,
    pub height: u32,
    pub depth_or_array_layers: u32,
}

/// Names an image of the host's image store. The handle with id 0 is the
/// placeholder that stands for "the output of the sequence".
#[derive(Clone, Copy, Debug, PartialEq, Eq, Hash, Structural)]
pub struct ImageHandle {
    pub id: u64,
}

impl ImageHandle {
    /// The placeholder handle.
    pub open spec fn spec_default() -> ImageHandle {
        ImageHandle { id: 0 }
    }

    /// The handle with the number `id`.
    pub fn new(id: u64) -> (handle: ImageHandle)
        ensures
            handle == (ImageHandle { id }),
    {
        ImageHandle { id }
    }
}

impl TableKey for ImageHandle {
    open spec fn spec_code(self) -> u64 {
        self.id
    }

    fn code(&self) -> (code: u64) {
        self.id
    }

    proof fn lemma_code_is_injective(a: Self, b: Self) {
    }
}

/// What the host's image store holds: the size of each image that exists.
pub type ImageSizes = Table<ImageHandle, ComputeNoiseSize>;

impl Default for ImageHandle {
    fn default() -> (handle: ImageHandle)
        ensures
            handle == ImageHandle::spec_default(),
    {
        ImageHandle { id: 0 }
    }
}

/// The size of a noise image: two-dimensional, or three-dimensional with a depth.
#[derive(Clone, Copy, Debug, PartialEq, Eq, Hash, Structural)]
pub enum ComputeNoiseSize {
    D2(u32, u32),
    D3(u32, u32, u32),
}

/// Number of invocations along each axis of one workgroup.
pub const WORKGROUP_EXTENT: u32 = 8;

impl ComputeNoiseSize {
    pub open spec fn spec_width(self) -> u32 {
        match self {
            ComputeNoiseSize::D2(width, _) => width,
            ComputeNoiseSize::D3(width, _, _) => width,
        }
    }

    pub open spec fn spec_height(self) -> u32 {
        match self {
            ComputeNoiseSize::D2(_, height) => height,
            ComputeNoiseSize::D3(_, height, _) => height,
        }
    }

    /// A two-dimensional size has depth 1.
    pub open spec fn spec_depth(self) -> u32 {
        match self {
            ComputeNoiseSize::D2(_, _) => 1,
            ComputeNoiseSize::D3(_, _, depth) => depth,
        }
    }

    /// Number of texels.
    pub open spec fn spec_data_len(self) -> int {
        self.spec_width() * self.spec_height() * self.spec_depth()
    }

    /// Number of workgroups along each axis. A two-dimensional size is one
    /// workgroup deep.
    pub open spec fn spec_workgroup_count(self) -> (u32, u32, u32) {
        match self {
            ComputeNoiseSize::D2(width, height) => ((width / 8) as u32, (height / 8) as u32, 1u32),
            ComputeNoiseSize::D3(width, height, depth) => (
                (width / 8) as u32,
                (height / 8) as u32,
                (depth / 8) as u32,
            ),
        }
    }

    pub open spec fn spec_dimension(self) -> TextureDimension {
        match self {
            ComputeNoiseSize::D2(_, _) => TextureDimension::D2,
            ComputeNoiseSize::D3(_, _, _) => TextureDimension::D3,
        }
    }

    pub open spec fn spec_extent(self) -> Extent3d {
        Extent3d {
            width: self.spec_width(),
            height: self.spec_height(),
            depth_or_array_layers: self.spec_depth(),
        }
    }

    /// An extent that is one layer deep is two-dimensional.
    pub open spec fn spec_from_extent(extent: Extent3d) -> ComputeNoiseSize {
        if extent.depth_or_array_layers == 1 {
            ComputeNoiseSize::D2(extent.width, extent.height)
        } else {
            ComputeNoiseSize::D3(extent.width, extent.height, extent.depth_or_array_layers)
        }
    }

    pub fn width(&self) -> (width: u32)
        ensures
            width == self.spec_width(),
    {
        match self {
            Self::D2(width, _) => *width,
            Self::D3(width, _, _) => *width,
        }
    }

    pub fn height(&self) -> (height: u32)
        ensures
            height == self.spec_height(),
    {
        match self {
            Self::D2(_, height) => *height,
            Self::D3(_, height, _) => *height,
        }
    }

    pub fn depth(&self) -> (depth: u32)
        ensures
            depth == self.spec_depth(),
    {
        match self {
            Self::D2(_, _) => 1,
            Self::D3(_, _, depth) => *depth,
        }
    }

    /// Number of texels; the products are taken in 32 bits.
    pub fn data_len(&self) -> (len: usize)
        requires
            self.spec_width() * self.spec_height() <= u32::MAX,
            self.spec_data_len() <= u32::MAX,
        ensures
            len == self.spec_data_len(),
    {
        match self {
            Self::D2(width, height) => {
                assert(*width * *height * 1 == *width * *height) by (nonlinear_arith);
                (*width * *height) as usize
            },
            Self::D3(width, height, depth) => (*width * *height * *depth) as usize,
        }
    }

    pub fn workgroup_count(&self) -> (count: (u32, u32, u32))
        ensures
            count == self.spec_workgroup_count(),
    {
        match self {
            Self::D2(width, height) => (*width / WORKGROUP_EXTENT, *height / WORKGROUP_EXTENT, 1),
            Self::D3(width, height, depth) => (
                *width / WORKGROUP_EXTENT,
                *height / WORKGROUP_EXTENT,
                *depth / WORKGROUP_EXTENT,
            ),
        }
    }

    /// The dimensionality of a texture of this size.
    pub fn dimension(&self) -> (dimension: TextureDimension)
        ensures
            dimension == self.spec_dimension(),
    {
        match self {
            Self::D2(_, _) => TextureDimension::D2,
            Self::D3(_, _, _) => TextureDimension::D3,
        }
    }
}

impl From<ComputeNoiseSize> for Extent3d {
    fn from(value: ComputeNoiseSize) -> (extent: Extent3d) {
        match value {
            ComputeNoiseSize::D2(width, height) => {
                Extent3d { width, height, depth_or_array_layers: 1 }
            },
            ComputeNoiseSize::D3(width, height, depth) => {
                Extent3d { width, height, depth_or_array_layers: depth }
            },
        }
    }
}

impl FromSpecImpl<ComputeNoiseSize> for Extent3d {
    open spec fn obeys_from_spec() -> bool {
        true
    }

    open spec fn from_spec(value: ComputeNoiseSize) -> Extent3d {
        value.spec_extent()
    }
}

impl From<Extent3d> for ComputeNoiseSize {
    fn from(value: Extent3d) -> (size: ComputeNoiseSize) {
        if value.depth_or_array_layers == 1 {
            ComputeNoiseSize::D2(value.width, value.height)
        } else {
            ComputeNoiseSize::D3(value.width, value.height, value.depth_or_array_layers)
        }
    }
}

impl FromSpecImpl<Extent3d> for ComputeNoiseSize {
    open spec fn obeys_from_spec() -> bool {
        true
    }

    open spec fn from_spec(value: Extent3d) -> ComputeNoiseSize {
        ComputeNoiseSize::spec_from_extent(value)
    }
}

impl From<ComputeNoiseSize> for TextureDimension {
    fn from(value: ComputeNoiseSize) -> (dimension: TextureDimension) {
        match value {
            ComputeNoiseSize::D2(_, _) => TextureDimension::D2,
            ComputeNoiseSize::D3(_, _, _) => TextureDimension::D3,
        }
    }
}

impl FromSpecImpl<ComputeNoiseSize> for TextureDimension {
    open spec fn obeys_from_spec() -> bool {
        true
    }

    open spec fn from_spec(value: ComputeNoiseSize) -> TextureDimension {
        value.spec_dimension()
    }
}

/// Turning a size into an extent and back gives the size again, unless the
/// size is three-dimensional with depth 1, which comes back two-dimensional.
pub proof fn lemma_size_extent_round_trip(size: ComputeNoiseSize)
    ensures
        ComputeNoiseSize::spec_from_extent(size.spec_extent()) == (if size.spec_depth() == 1 {
            ComputeNoiseSize::D2(size.spec_width(), size.spec_height())
        } else {
            size
        }),
        ComputeNoiseSize::spec_from_extent(size.spec_extent()).spec_extent() == size.spec_extent(),
{
}

} // verus!
