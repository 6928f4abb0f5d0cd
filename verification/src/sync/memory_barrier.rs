//! Image barriers: the description of one move of an image from a layout to
//! the next, and of the accesses that wait on it.
use crate::resources::image::{Image, ImageLayout, ImageSubresourceRange};
use vstd::prelude::*;

verus! {

/// Reads of a depth attachment.
pub const ACCESS_DEPTH_STENCIL_ATTACHMENT_READ: u32 = 0x200;

/// Writes of a depth attachment.
pub const ACCESS_DEPTH_STENCIL_ATTACHMENT_WRITE: u32 = 0x400;

/// Writes of a transfer.
pub const ACCESS_TRANSFER_WRITE: u32 = 0x1000;

/// Reads of a shader.
pub const ACCESS_SHADER_READ: u32 = 0x20;

/// The kind of access that the stages after a barrier make.
#[derive(Debug, Copy, Clone, PartialEq, Eq, Structural)]
pub enum AccessMask {
    /// Reads and writes of a depth attachment.
    DepthStencil,
    /// Writes of a transfer.
    Transfer,
    /// Reads of a shader.
    ShaderRead,
}

impl AccessMask {
    /// The access flags that the driver knows the kind by.
    pub open spec fn spec_bits(self) -> u32 {
        match self {
            AccessMask::DepthStencil => 0x600,
            AccessMask::Transfer => ACCESS_TRANSFER_WRITE,
            AccessMask::ShaderRead => ACCESS_SHADER_READ,
        }
    }

    /// The access flags that the driver knows the kind by.
    #[verifier::when_used_as_spec(spec_bits)]
    pub fn bits(self) -> (bits: u32)
        ensures
            bits == self.spec_bits(),
            self == AccessMask::DepthStencil ==> bits == ACCESS_DEPTH_STENCIL_ATTACHMENT_READ
                | ACCESS_DEPTH_STENCIL_ATTACHMENT_WRITE,
    {
        assert(0x200u32 | 0x400u32 == 0x600u32) by (bit_vector);
        match self {
            AccessMask::DepthStencil => ACCESS_DEPTH_STENCIL_ATTACHMENT_READ
                | ACCESS_DEPTH_STENCIL_ATTACHMENT_WRITE,
            AccessMask::Transfer => ACCESS_TRANSFER_WRITE,
            AccessMask::ShaderRead => ACCESS_SHADER_READ,
        }
    }
}

/// The description of one move of an image from `old_layout` to
/// `new_layout`: the accesses of `src_access_mask` are finished before it, and
/// those of `dst_access_mask` wait for it.
#[derive(Debug, Copy, Clone, PartialEq, Eq, Structural)]
pub struct ImageMemoryBarrier {
    pub image: u64,
    pub src_access_mask: u32,
    pub dst_access_mask: u32,
    pub old_layout: ImageLayout,
    pub new_layout: ImageLayout,
    pub subresource_range: ImageSubresourceRange,
}

impl ImageMemoryBarrier {
    /// Whether the barrier may be applied to an image in the layout
    /// `current`: it names that layout as its old one, or gives the contents
    /// up by naming the undefined layout.
    pub open spec fn applies_to(self, current: ImageLayout) -> bool {
        self.old_layout == ImageLayout::Undefined || self.old_layout == current
    }

    /// The barrier that moves `image` from `old_layout` to `new_layout` for
    /// the accesses of `dst_access_mask`, over the image's one level and one
    /// layer, with no earlier access named.
    pub open spec fn describe(
        image: Image,
        dst_access_mask: AccessMask,
        old_layout: ImageLayout,
        new_layout: ImageLayout,
    ) -> ImageMemoryBarrier {
        ImageMemoryBarrier {
            image: image.image,
            src_access_mask: 0,
            dst_access_mask: dst_access_mask.spec_bits(),
            old_layout,
            new_layout,
            subresource_range: ImageSubresourceRange::whole(image.ty.spec_aspect_mask()),
        }
    }

    /// Builds the barrier that moves `image` from `old_layout` to
    /// `new_layout` for the accesses of `dst_access_mask`.
    ///
    /// `old_layout` must be the layout that the image is in, or the undefined
    /// layout: a stale tag is not detected by the driver.
    pub fn new(
        image: &Image,
        dst_access_mask: AccessMask,
        old_layout: ImageLayout,
        new_layout: ImageLayout,
    ) -> (barrier: ImageMemoryBarrier)
        requires
            old_layout == ImageLayout::Undefined || old_layout == image.layout,
        ensures
            barrier == ImageMemoryBarrier::describe(
                *image,
                dst_access_mask,
                old_layout,
                new_layout,
            ),
            barrier.applies_to(image.layout),
    {
        ImageMemoryBarrier {
            image: image.image,
            src_access_mask: 0,
            dst_access_mask: dst_access_mask.bits(),
            old_layout,
            new_layout,
            subresource_range: ImageSubresourceRange::single(image.ty.aspect_mask()),
        }
    }

    /// The same barrier, with `src_access_mask` as the accesses that are
    /// finished before it.
    pub fn after(self, src_access_mask: AccessMask) -> (barrier: ImageMemoryBarrier)
        ensures
            barrier == (ImageMemoryBarrier {
                src_access_mask: src_access_mask.spec_bits(),
                ..self
            }),
    {
        ImageMemoryBarrier { src_access_mask: src_access_mask.bits(), ..self }
    }
}

/// The layout that the image `image` is in after the device has executed
/// `barriers` in order, starting from `layout`; `None` where one of its
/// barriers names an old layout that the image is not in. Barriers of other
/// images leave it as it is.
pub open spec fn layout_after(
    layout: ImageLayout,
    image: u64,
    barriers: Seq<ImageMemoryBarrier>,
) -> Option<ImageLayout>
    decreases barriers.len(),
{
    if barriers.len() == 0 {
        Some(layout)
    } else {
        match layout_after(layout, image, barriers.drop_last()) {
            Some(current) => if barriers.last().image != image {
                Some(current)
            } else if barriers.last().applies_to(current) {
                Some(barriers.last().new_layout)
            } else {
                None
            },
            None => None,
        }
    }
}

/// Whether the barrier at `i` is on `image` and takes up the layout that the
/// one before it left, the first one taking up `layout` or the undefined
/// layout.
pub open spec fn links_at(
    layout: ImageLayout,
    image: u64,
    barriers: Seq<ImageMemoryBarrier>,
    i: int,
) -> bool {
    &&& barriers[i].image == image
    &&& barriers[i].applies_to(
        if i == 0 {
            layout
        } else {
            barriers[i - 1].new_layout
        },
    )
}

/// Whether each barrier of `barriers` is on `image` and takes up the layout
/// that the one before it left, the first one taking up `layout` or the
/// undefined layout.
pub open spec fn barriers_chain(
    layout: ImageLayout,
    image: u64,
    barriers: Seq<ImageMemoryBarrier>,
) -> bool {
    forall|i: int| 0 <= i < barriers.len() ==> #[trigger] links_at(layout, image, barriers, i)
}

/// A chain of barriers on one image, each taking up the layout that the one
/// before it left, leaves the image in the new layout of the last one.
pub proof fn lemma_chain_ends_in_last_layout(
    layout: ImageLayout,
    image: u64,
    barriers: Seq<ImageMemoryBarrier>,
)
    requires
        barriers_chain(layout, image, barriers),
    ensures
        layout_after(layout, image, barriers) == Some(
            if barriers.len() == 0 {
                layout
            } else {
                barriers.last().new_layout
            },
        ),
    decreases barriers.len(),
{
    if barriers.len() > 0 {
        let head = barriers.drop_last();
        assert forall|i: int| 0 <= i < head.len() implies #[trigger] links_at(
            layout,
            image,
            head,
            i,
        ) by {
            assert(links_at(layout, image, barriers, i));
        }
        lemma_chain_ends_in_last_layout(layout, image, head);
        assert(links_at(layout, image, barriers, barriers.len() - 1));
    }
}

} // verus!
