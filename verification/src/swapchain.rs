//! The swapchain: its rotating set of presentable images, and the acquire and
//! present cycle that each of them runs through.
pub mod creation;

use crate::command::{views_of, Command, CommandView};
use crate::context::{Context, ContextState};
use crate::device::Device;
use crate::driver::{CallFailure, DriverCall, Extent2D, Rect2D, NO_TIMEOUT, NULL_HANDLE};
use crate::error::{Error, Failure};
use crate::pipeline::PipelineStages;
use crate::resources::image::{
    ComponentMapping, Image, ImageCreateInfo, ImageLayout, ImageResolution, ImageSubresourceRange,
    ImageType, ImageViewCreateInfo, IMAGE_ASPECT_COLOR, IMAGE_USAGE_COLOR_ATTACHMENT,
    IMAGE_VIEW_TYPE_2D, SHARING_MODE_EXCLUSIVE,
};
use crate::surface::{Surface, SurfaceCapabilities, SurfaceData};
use crate::sync::fence::{Fence, FenceState};
use crate::sync::memory_barrier::{AccessMask, ImageMemoryBarrier};
use crate::sync::semaphore::{
    all_in_state, consume_all, handles_of, semaphore_handles, Semaphore, SemaphoreState,
};
use vstd::prelude::*;

verus! {

/// The transform that leaves the image as it is.
pub const SURFACE_TRANSFORM_IDENTITY: u32 = 0x1;

/// The presentation mode that shows the newest image at the next refresh.
pub const PRESENT_MODE_MAILBOX: i32 = 1;

/// The presentation mode that shows the images in order, one per refresh.
pub const PRESENT_MODE_FIFO: i32 = 2;

/// The alpha mode that ignores the alpha channel.
pub const COMPOSITE_ALPHA_OPAQUE: u32 = 0x1;

/// Where one presentable image stands in its cycle.
#[derive(Debug, Copy, Clone, PartialEq, Eq, Structural)]
pub enum PresentImageState {
    /// Never acquired: its contents are undefined.
    Undefined,
    /// Acquired and not yet presented: it is being drawn to.
    ColorAttachment,
    /// Presented: the presentation engine has it until it is acquired again.
    Presentable,
}

/// One of the two operations that move a presentable image through its
/// cycle.
#[derive(Debug, Copy, Clone, PartialEq, Eq, Structural)]
pub enum PresentImageOp {
    Acquire,
    Present,
}

impl PresentImageState {
    /// The state after `op`, where `op` is legal in this state: an image
    /// that is held cannot be acquired, and only an image that is held can
    /// be presented.
    pub open spec fn step(self, op: PresentImageOp) -> Option<PresentImageState> {
        match (self, op) {
            (PresentImageState::ColorAttachment, PresentImageOp::Acquire) => None,
            (_, PresentImageOp::Acquire) => Some(PresentImageState::ColorAttachment),
            (PresentImageState::ColorAttachment, PresentImageOp::Present) => Some(
                PresentImageState::Presentable,
            ),
            _ => None,
        }
    }

    /// The state after the operations of `ops`, one after the other, where
    /// all of them are legal.
    pub open spec fn run(self, ops: Seq<PresentImageOp>) -> Option<PresentImageState>
        decreases ops.len(),
    {
        if ops.len() == 0 {
            Some(self)
        } else {
            match self.run(ops.drop_last()) {
                Some(state) => state.step(ops.last()),
                None => None,
            }
        }
    }
}

/// An image is never handed out while it is held: in the legal history of an
/// image of a new swapchain, acquires and presents alternate, starting with
/// an acquire, and the image is held exactly after an odd number of them.
pub proof fn lemma_acquires_alternate_with_presents(ops: Seq<PresentImageOp>)
    requires
        PresentImageState::Undefined.run(ops) is Some,
    ensures
        forall|i: int|
            0 <= i < ops.len() ==> (#[trigger] ops[i] == if i % 2 == 0 {
                PresentImageOp::Acquire
            } else {
                PresentImageOp::Present
            }),
        PresentImageState::Undefined.run(ops) == Some(
            if ops.len() == 0 {
                PresentImageState::Undefined
            } else if ops.len() % 2 == 0 {
                PresentImageState::Presentable
            } else {
                PresentImageState::ColorAttachment
            },
        ),
    decreases ops.len(),
{
    if ops.len() > 0 {
        let head = ops.drop_last();
        lemma_acquires_alternate_with_presents(head);
        assert forall|i: int| 0 <= i < ops.len() implies (#[trigger] ops[i] == if i % 2 == 0 {
            PresentImageOp::Acquire
        } else {
            PresentImageOp::Present
        }) by {
            if i < head.len() {
                assert(ops[i] == head[i]);
            }
        }
    }
}

/// What the driver is asked to create the swapchain with.
#[derive(Debug, Copy, Clone, PartialEq, Eq, Structural)]
pub struct SwapchainCreateInfo {
    pub surface: u64,
    pub min_image_count: u32,
    pub image_color_space: i32,
    pub image_format: i32,
    pub image_extent: Extent2D,
    pub image_usage: u32,
    pub image_sharing_mode: i32,
    pub pre_transform: u32,
    pub composite_alpha: u32,
    pub present_mode: i32,
    pub clipped: bool,
    pub image_array_layers: u32,
    pub old_swapchain: u64,
}

/// What the presentation engine is asked for the next image with.
#[derive(Debug, Copy, Clone, PartialEq, Eq, Structural)]
pub struct AcquireInfo {
    pub swapchain: u64,
    pub timeout: u64,
    pub semaphore: u64,
    pub fence: u64,
}

/// What the presentation engine is handed images with.
#[derive(Debug, PartialEq, Eq)]
pub struct PresentInfo {
    pub queue: u64,
    pub wait_semaphores: Vec<u64>,
    pub swapchains: Vec<u64>,
    pub image_indices: Vec<u32>,
}

/// All that is made anew for each size of the surface.
#[derive(Debug, PartialEq, Eq)]
pub struct SwapchainStructures {
    pub surface_data: SurfaceData,
    pub swapchain: u64,
    pub present_images: Vec<u64>,
    pub present_image_views: Vec<u64>,
    pub depth_image: Image,
}

impl SwapchainStructures {
    /// Each image has its view, an image index fits the driver's 32 bits, and
    /// the depth image is a new depth image: in the undefined layout.
    pub open spec fn wf(&self) -> bool {
        &&& self.present_images@.len() == self.present_image_views@.len()
        &&& self.present_images@.len() <= u32::MAX
        &&& self.depth_image.ty == ImageType::Depth
        &&& self.depth_image.layout == ImageLayout::Undefined
    }
}

/// Whether `after` is `before` with `structures` taken up: the surface and
/// the choice of presentation mode are those of `before`, all else is that of
/// `structures`, the depth image in whatever layout it was moved to since,
/// and no image was ever acquired.
pub open spec fn resized(
    before: Swapchain,
    structures: SwapchainStructures,
    after: Swapchain,
) -> bool {
    &&& after.wf()
    &&& after.surface == before.surface
    &&& after.use_vsync == before.use_vsync
    &&& after.surface_data == structures.surface_data
    &&& after.swapchain == structures.swapchain
    &&& after.present_images == structures.present_images
    &&& after.present_image_views == structures.present_image_views
    &&& after.depth_image == (Image {
        layout: after.depth_image.layout,
        ..structures.depth_image
    })
    &&& forall|i: int|
        0 <= i < after.image_states@.len() ==> #[trigger] after.image_states@[i]
            == PresentImageState::Undefined
}

/// A resize is idempotent: resizing again to what the driver makes for the
/// same size gives images of the same number and the same extent, all of
/// them never acquired.
pub proof fn lemma_resize_is_idempotent(
    first: Swapchain,
    once: Swapchain,
    twice: Swapchain,
    structures: SwapchainStructures,
    again: SwapchainStructures,
)
    requires
        structures.wf(),
        again.wf(),
        again.surface_data == structures.surface_data,
        again.present_images@.len() == structures.present_images@.len(),
        resized(first, structures, once),
        resized(once, again, twice),
    ensures
        twice.present_images@.len() == once.present_images@.len(),
        twice.surface_data.resolution == once.surface_data.resolution,
        twice.image_states@ == once.image_states@,
        twice.surface == first.surface,
        twice.use_vsync == first.use_vsync,
{
    assert(twice.image_states@ =~= once.image_states@);
}

/// The recording that readies a depth image moves it exactly once: it is one
/// pipeline barrier with one image barrier, on that image, from the undefined
/// layout to the depth attachment layout, and the stages that wait for it
/// are all those that read or write depth.
pub proof fn lemma_one_depth_transition(depth_image: Image)
    ensures
        depth_commands(depth_image).len() == 1,
        depth_commands(depth_image)[0] == (CommandView::PipelineBarrier {
            src_stage: PipelineStages::BottomOfPipe.mask(),
            dst_stage: depth_test_stages(),
            dependency_flags: 0,
            image_barriers: seq![depth_barrier(depth_image)],
        }),
        depth_barrier(depth_image).image == depth_image.image,
        depth_barrier(depth_image).old_layout == ImageLayout::Undefined,
        depth_barrier(depth_image).new_layout == ImageLayout::DepthStencil,
        depth_test_stages() & PipelineStages::EarlyFragmentTests.mask()
            == PipelineStages::EarlyFragmentTests.mask(),
        depth_test_stages() & PipelineStages::LateFragmentTests.mask()
            == PipelineStages::LateFragmentTests.mask(),
{
    assert((0x100u32 | 0x200u32) & 0x100u32 == 0x100u32) by (bit_vector);
    assert((0x100u32 | 0x200u32) & 0x200u32 == 0x200u32) by (bit_vector);
}

/// The swapchain with its images, the state of each, and its depth image.
#[derive(Debug, PartialEq, Eq)]
pub struct Swapchain {
    pub surface: Surface,
    pub surface_data: SurfaceData,
    pub swapchain: u64,
    pub present_images: Vec<u64>,
    pub present_image_views: Vec<u64>,
    /// Where each image stands in its cycle, by image index.
    pub image_states: Vec<PresentImageState>,
    pub depth_image: Image,
    pub use_vsync: bool,
}

/// What the driver is asked to create the view of the presentable image
/// `image` with.
pub open spec fn present_view_info(image: u64, format: i32) -> ImageViewCreateInfo {
    ImageViewCreateInfo {
        image,
        view_type: IMAGE_VIEW_TYPE_2D,
        format,
        components: ComponentMapping::Rgba,
        subresource_range: ImageSubresourceRange::whole(IMAGE_ASPECT_COLOR),
    }
}

/// What a request for the next image gives, for the answer `reply` of the
/// presentation engine: the index that it names where the swapchain has that
/// image and it is not held; a refusal of any other index; the engine's own
/// failure.
pub open spec fn acquire_outcome(
    states: Seq<PresentImageState>,
    reply: Result<(u32, bool), i32>,
) -> Result<u32, Error> {
    match reply {
        Ok((image, _)) => if image < states.len() && states[image as int]
            != PresentImageState::ColorAttachment {
            Ok(image)
        } else {
            Err(Error::ImageNotAvailable { index: image })
        },
        Err(code) => Err(Error::Driver { code }),
    }
}

/// While every image of the swapchain is held, no request for the next
/// image hands one out, whatever the presentation engine answers: an image
/// in use is never given out again.
pub proof fn lemma_no_image_while_all_are_held(
    states: Seq<PresentImageState>,
    reply: Result<(u32, bool), i32>,
)
    requires
        forall|i: int|
            0 <= i < states.len() ==> #[trigger] states[i] == PresentImageState::ColorAttachment,
    ensures
        acquire_outcome(states, reply) is Err,
{
}

/// The states of the images after those of `indices` were presented.
pub open spec fn states_after_present(
    states: Seq<PresentImageState>,
    indices: Seq<u32>,
) -> Seq<PresentImageState> {
    Seq::new(
        states.len(),
        |i: int|
            if exists|k: int| 0 <= k < indices.len() && indices[k] == i {
                PresentImageState::Presentable
            } else {
                states[i]
            },
    )
}

/// Whether the images of `indices` can be presented: each index names an
/// image that is held, and none is named twice.
pub open spec fn can_present(states: Seq<PresentImageState>, indices: Seq<u32>) -> bool {
    &&& forall|k: int|
        0 <= k < indices.len() ==> (#[trigger] indices[k]) < states.len()
            && states[indices[k] as int] == PresentImageState::ColorAttachment
    &&& forall|k: int, l: int| 0 <= k < l < indices.len() ==> indices[k] != indices[l]
}

/// The one barrier that readies a new depth image: from the undefined layout
/// to the depth attachment layout, for the reads and writes of a depth
/// attachment.
pub open spec fn depth_barrier(depth_image: Image) -> ImageMemoryBarrier {
    ImageMemoryBarrier::describe(
        depth_image,
        AccessMask::DepthStencil,
        ImageLayout::Undefined,
        ImageLayout::DepthStencil,
    )
}

/// The stages that read and write depth, and so wait for a depth image to
/// reach its layout: the early and the late fragment tests.
pub open spec fn depth_test_stages() -> u32 {
    PipelineStages::EarlyFragmentTests.mask() | PipelineStages::LateFragmentTests.mask()
}

/// The calls that destroy the image views `views`, in order.
pub open spec fn view_destroys(views: Seq<u64>) -> Seq<DriverCall> {
    Seq::new(views.len(), |i: int| DriverCall::DestroyImageView { view: views[i] })
}

/// The calls that release what was made for a swapchain that is not taken
/// up: they destroy the image views, in order, then the depth image, its view
/// and its memory where it was made, then the swapchain.
pub open spec fn release_sequence(
    swapchain: u64,
    views: Seq<u64>,
    depth_image: Option<Image>,
) -> Seq<DriverCall> {
    view_destroys(views) + match depth_image {
        Some(depth) => seq![
            DriverCall::DestroyImage { image: depth.image },
            DriverCall::DestroyImageView { view: depth.view },
            DriverCall::FreeMemory { memory: depth.memory },
        ],
        None => Seq::<DriverCall>::empty(),
    } + seq![DriverCall::DestroySwapchain { swapchain }]
}

/// The one command that readies a new depth image: one pipeline barrier, from
/// the end of the pipe to the stages that read and write depth, that holds
/// the one barrier of `depth_barrier`.
pub open spec fn depth_commands(depth_image: Image) -> Seq<CommandView> {
    seq![
        CommandView::PipelineBarrier {
            src_stage: PipelineStages::BottomOfPipe.mask(),
            dst_stage: depth_test_stages(),
            dependency_flags: 0,
            image_barriers: seq![depth_barrier(depth_image)],
        },
    ]
}

impl Swapchain {
    /// Each image has its view and its state, and an image index fits the
    /// driver's 32 bits.
    pub open spec fn wf(&self) -> bool {
        &&& self.present_images@.len() == self.present_image_views@.len()
        &&& self.present_images@.len() == self.image_states@.len()
        &&& self.present_images@.len() <= u32::MAX
    }

    /// The transform to present with: none where the surface supports that,
    /// else the surface's current one.
    pub fn pre_transform(capabilities: SurfaceCapabilities) -> (transform: u32)
        ensures
            transform == if capabilities.supported_transforms & SURFACE_TRANSFORM_IDENTITY
                == SURFACE_TRANSFORM_IDENTITY {
                SURFACE_TRANSFORM_IDENTITY
            } else {
                capabilities.current_transform
            },
    {
        if capabilities.supported_transforms & SURFACE_TRANSFORM_IDENTITY
            == SURFACE_TRANSFORM_IDENTITY {
            SURFACE_TRANSFORM_IDENTITY
        } else {
            capabilities.current_transform
        }
    }

    /// The presentation mode that is wanted: in step with the refresh where
    /// `use_vsync` is set, else the newest image first.
    pub open spec fn wanted_mode(use_vsync: bool) -> i32 {
        if use_vsync {
            PRESENT_MODE_FIFO
        } else {
            PRESENT_MODE_MAILBOX
        }
    }

    /// The presentation mode to create the swapchain with: the wanted one
    /// where the surface offers it, else the one that every surface has.
    pub fn present_mode(present_modes: &Vec<i32>, use_vsync: bool) -> (mode: i32)
        ensures
            mode == if present_modes@.contains(Swapchain::wanted_mode(use_vsync)) {
                Swapchain::wanted_mode(use_vsync)
            } else {
                PRESENT_MODE_FIFO
            },
    {
        let wanted: i32 = if use_vsync {
            PRESENT_MODE_FIFO
        } else {
            PRESENT_MODE_MAILBOX
        };
        let mut i: usize = 0;
        while i < present_modes.len()
            invariant
                i <= present_modes@.len(),
                wanted == Swapchain::wanted_mode(use_vsync),
                forall|j: int| 0 <= j < i ==> present_modes@[j] != wanted,
            decreases present_modes@.len() - i,
        {
            if present_modes[i] == wanted {
                assert(present_modes@.contains(wanted));
                return wanted;
            }
            i += 1;
        }
        assert(!present_modes@.contains(wanted));
        PRESENT_MODE_FIFO
    }

    /// What the driver is asked to create the swapchain with: as many images
    /// as `surface_data` settled, in its format and resolution, drawn to as
    /// colour, owned by one queue family, opaque, clipped, of one layer, in
    /// place of `old_swapchain` where there is one.
    pub open spec fn spec_create_info(
        surface: Surface,
        surface_data: SurfaceData,
        present_modes: Seq<i32>,
        old_swapchain: Option<u64>,
        use_vsync: bool,
    ) -> SwapchainCreateInfo {
        SwapchainCreateInfo {
            surface: surface.raw,
            min_image_count: surface_data.desired_image_count,
            image_color_space: surface_data.format.color_space,
            image_format: surface_data.format.format,
            image_extent: surface_data.resolution,
            image_usage: IMAGE_USAGE_COLOR_ATTACHMENT,
            image_sharing_mode: SHARING_MODE_EXCLUSIVE,
            pre_transform: if surface_data.capabilities.supported_transforms
                & SURFACE_TRANSFORM_IDENTITY == SURFACE_TRANSFORM_IDENTITY {
                SURFACE_TRANSFORM_IDENTITY
            } else {
                surface_data.capabilities.current_transform
            },
            composite_alpha: COMPOSITE_ALPHA_OPAQUE,
            present_mode: if present_modes.contains(Swapchain::wanted_mode(use_vsync)) {
                Swapchain::wanted_mode(use_vsync)
            } else {
                PRESENT_MODE_FIFO
            },
            clipped: true,
            image_array_layers: 1,
            old_swapchain: match old_swapchain {
                Some(old) => old,
                None => NULL_HANDLE,
            },
        }
    }

    /// What the driver is asked to create the swapchain with.
    pub fn create_info(
        surface: &Surface,
        surface_data: &SurfaceData,
        present_modes: &Vec<i32>,
        old_swapchain: Option<u64>,
        use_vsync: bool,
    ) -> (info: SwapchainCreateInfo)
        ensures
            info == Swapchain::spec_create_info(
                *surface,
                *surface_data,
                present_modes@,
                old_swapchain,
                use_vsync,
            ),
    {
        SwapchainCreateInfo {
            surface: surface.raw,
            min_image_count: surface_data.desired_image_count,
            image_color_space: surface_data.format.color_space,
            image_format: surface_data.format.format,
            image_extent: surface_data.resolution,
            image_usage: IMAGE_USAGE_COLOR_ATTACHMENT,
            image_sharing_mode: SHARING_MODE_EXCLUSIVE,
            pre_transform: Swapchain::pre_transform(surface_data.capabilities),
            composite_alpha: COMPOSITE_ALPHA_OPAQUE,
            present_mode: Swapchain::present_mode(present_modes, use_vsync),
            clipped: true,
            image_array_layers: 1,
            old_swapchain: match old_swapchain {
                Some(old) => old,
                None => NULL_HANDLE,
            },
        }
    }

    /// What the driver is asked to create the view of the presentable image
    /// `image` with: a flat view of the whole image, as colour, in the
    /// surface's format, each channel named.
    pub fn view_info(image: u64, format: i32) -> (info: ImageViewCreateInfo)
        ensures
            info == present_view_info(image, format),
    {
        ImageViewCreateInfo {
            image,
            view_type: IMAGE_VIEW_TYPE_2D,
            format,
            components: ComponentMapping::Rgba,
            subresource_range: ImageSubresourceRange::single(IMAGE_ASPECT_COLOR),
        }
    }

    /// What the driver is asked to create the views of the presentable images
    /// with, one for each image and in their order: a flat view of the whole
    /// image, as colour, in the surface's format, each channel named.
    pub fn view_infos(present_images: &Vec<u64>, format: i32) -> (infos: Vec<ImageViewCreateInfo>)
        ensures
            infos@.len() == present_images@.len(),
            forall|i: int|
                0 <= i < infos@.len() ==> #[trigger] infos@[i] == present_view_info(
                    present_images@[i],
                    format,
                ),
    {
        let mut infos: Vec<ImageViewCreateInfo> = Vec::new();
        let mut i: usize = 0;
        while i < present_images.len()
            invariant
                i <= present_images@.len(),
                infos@.len() == i,
                forall|j: int|
                    0 <= j < i ==> #[trigger] infos@[j] == present_view_info(
                        present_images@[j],
                        format,
                    ),
            decreases present_images@.len() - i,
        {
            infos.push(Swapchain::view_info(present_images[i], format));
            i += 1;
        }
        infos
    }

    /// The call that destroys the swapchain which the new one replaced, where
    /// there was one.
    pub fn retire_call(old_swapchain: Option<u64>) -> (call: Option<DriverCall>)
        ensures
            call == match old_swapchain {
                Some(old) => Some(DriverCall::DestroySwapchain { swapchain: old }),
                None => None,
            },
    {
        match old_swapchain {
            Some(old) => Some(DriverCall::DestroySwapchain { swapchain: old }),
            None => None,
        }
    }

    /// What the driver is asked to create the depth image with: a depth image
    /// of the resolution of the swapchain's images, and of depth one.
    pub open spec fn spec_depth_image_info(surface_data: SurfaceData) -> ImageCreateInfo {
        Image::spec_create_info(
            ImageResolution {
                width: surface_data.resolution.width,
                height: surface_data.resolution.height,
                depth: 1,
            },
            ImageType::Depth,
        )
    }

    /// What the driver is asked to create the depth image with.
    pub fn depth_image_info(surface_data: &SurfaceData) -> (info: ImageCreateInfo)
        ensures
            info == Swapchain::spec_depth_image_info(*surface_data),
    {
        Image::create_info(
            ImageResolution::from_width_height(
                surface_data.resolution.width,
                surface_data.resolution.height,
            ),
            ImageType::Depth,
        )
    }

    /// The calls that release what was made for a swapchain that is not
    /// taken up: see `release_sequence`.
    pub fn release_calls(
        swapchain: u64,
        present_image_views: &Vec<u64>,
        depth_image: Option<&Image>,
    ) -> (calls: Vec<DriverCall>)
        ensures
            calls@ == release_sequence(
                swapchain,
                present_image_views@,
                match depth_image {
                    Some(depth) => Some(*depth),
                    None => None,
                },
            ),
    {
        let mut calls: Vec<DriverCall> = Vec::new();
        let mut i: usize = 0;
        while i < present_image_views.len()
            invariant
                i <= present_image_views@.len(),
                calls@ == view_destroys(present_image_views@.take(i as int)),
            decreases present_image_views@.len() - i,
        {
            calls.push(DriverCall::DestroyImageView { view: present_image_views[i] });
            i += 1;
            assert(calls@ =~= view_destroys(present_image_views@.take(i as int)));
        }
        assert(present_image_views@.take(i as int) =~= present_image_views@);
        match depth_image {
            Some(depth) => {
                calls.push(DriverCall::DestroyImage { image: depth.image });
                calls.push(DriverCall::DestroyImageView { view: depth.view });
                calls.push(DriverCall::FreeMemory { memory: depth.memory });
            },
            None => {},
        }
        calls.push(DriverCall::DestroySwapchain { swapchain });
        assert(calls@ =~= release_sequence(
            swapchain,
            present_image_views@,
            match depth_image {
                Some(depth) => Some(*depth),
                None => None,
            },
        ));
        calls
    }

    /// Puts together what the driver made for one size of the surface. Fails
    /// where the views are not as many as the images, or the images more than
    /// an index can name; the failure names the calls that release all that
    /// was handed in.
    ///
    /// The depth image must be a new depth image, made with
    /// `depth_image_info`: in the undefined layout.
    pub fn create_swapchain_structures(
        surface_data: SurfaceData,
        swapchain: u64,
        present_images: Vec<u64>,
        present_image_views: Vec<u64>,
        depth_image: Image,
    ) -> (structures: Result<SwapchainStructures, Failure>)
        requires
            depth_image.ty == ImageType::Depth,
            depth_image.layout == ImageLayout::Undefined,
        ensures
            match structures {
                Ok(made) => {
                    &&& made.wf()
                    &&& made.surface_data == surface_data
                    &&& made.swapchain == swapchain
                    &&& made.present_images == present_images
                    &&& made.present_image_views == present_image_views
                    &&& made.depth_image == depth_image
                },
                Err(failure) => {
                    &&& failure.error == Error::UnexpectedCount
                    &&& failure.release@ == release_sequence(
                        swapchain,
                        present_image_views@,
                        Some(depth_image),
                    )
                },
            },
            structures is Ok <==> present_images@.len() == present_image_views@.len()
                && present_images@.len() <= u32::MAX,
    {
        if present_images.len() != present_image_views.len() || present_images.len()
            > u32::MAX as usize {
            let release = Swapchain::release_calls(
                swapchain,
                &present_image_views,
                Some(&depth_image),
            );
            return Err(Failure { error: Error::UnexpectedCount, release });
        }
        Ok(
            SwapchainStructures {
                surface_data,
                swapchain,
                present_images,
                present_image_views,
                depth_image,
            },
        )
    }

    /// The swapchain on `surface` made of `structures`. No image of a new
    /// swapchain was ever acquired.
    pub fn new(surface: Surface, structures: SwapchainStructures, use_vsync: bool) -> (made:
        Swapchain)
        requires
            structures.wf(),
        ensures
            made.wf(),
            made.surface == surface,
            made.surface_data == structures.surface_data,
            made.swapchain == structures.swapchain,
            made.present_images == structures.present_images,
            made.present_image_views == structures.present_image_views,
            made.depth_image == structures.depth_image,
            made.use_vsync == use_vsync,
            forall|i: int|
                0 <= i < made.image_states@.len() ==> #[trigger] made.image_states@[i]
                    == PresentImageState::Undefined,
    {
        let image_states = undefined_states(structures.present_images.len());
        Swapchain {
            surface,
            surface_data: structures.surface_data,
            swapchain: structures.swapchain,
            present_images: structures.present_images,
            present_image_views: structures.present_image_views,
            image_states,
            depth_image: structures.depth_image,
            use_vsync,
        }
    }

    /// The resolution of the images.
    pub fn resolution(&self) -> (resolution: Extent2D)
        ensures
            resolution == self.surface_data.resolution,
    {
        self.surface_data.resolution
    }

    /// The width of the images.
    pub fn width(&self) -> (width: u32)
        ensures
            width == self.surface_data.resolution.width,
    {
        self.surface_data.resolution.width
    }

    /// The height of the images.
    pub fn height(&self) -> (height: u32)
        ensures
            height == self.surface_data.resolution.height,
    {
        self.surface_data.resolution.height
    }

    /// The scissor rectangle that covers the images.
    pub fn scissor(&self) -> (rect: Rect2D)
        ensures
            rect == Rect2D::covering(self.surface_data.resolution),
    {
        Rect2D::from_extent(self.surface_data.resolution)
    }

    /// The calls that destroy what depends on the size: each image view, in
    /// order, then the depth image, its view and its memory.
    pub fn clean_images(&self) -> (calls: Vec<DriverCall>)
        ensures
            calls@.len() == self.present_image_views@.len() + 3,
            forall|i: int|
                0 <= i < self.present_image_views@.len() ==> #[trigger] calls@[i]
                    == (DriverCall::DestroyImageView { view: self.present_image_views@[i] }),
            calls@.subrange(self.present_image_views@.len() as int, calls@.len() as int)
                == seq![
                DriverCall::DestroyImage { image: self.depth_image.image },
                DriverCall::DestroyImageView { view: self.depth_image.view },
                DriverCall::FreeMemory { memory: self.depth_image.memory },
            ],
    {
        let mut calls: Vec<DriverCall> = Vec::new();
        let mut i: usize = 0;
        while i < self.present_image_views.len()
            invariant
                i <= self.present_image_views@.len(),
                calls@.len() == i,
                forall|j: int|
                    0 <= j < i ==> #[trigger] calls@[j] == (DriverCall::DestroyImageView {
                        view: self.present_image_views@[j],
                    }),
            decreases self.present_image_views@.len() - i,
        {
            calls.push(DriverCall::DestroyImageView { view: self.present_image_views[i] });
            i += 1;
        }
        let mut depth = self.depth_image.clean();
        let ghost views = calls@;
        let ghost tail = depth@;
        calls.append(&mut depth);
        assert(calls@ == views + tail);
        assert(calls@.subrange(views.len() as int, calls@.len() as int) =~= tail);
        assert forall|j: int| 0 <= j < views.len() implies #[trigger] calls@[j]
            == (DriverCall::DestroyImageView { view: self.present_image_views@[j] }) by {
            assert(calls@[j] == views[j]);
        }
        calls
    }

    /// Takes up what the driver made for the new size of the surface, in
    /// place of what `clean_images` destroyed, and moves the new depth image
    /// to its layout, once: it records the body of `depth_transition` into
    /// `context` and submits it with `fence`, as `transition_depth_image`
    /// does. Takes the outcome of the calls of that recording and
    /// submission.
    ///
    /// The surface and the choice of presentation mode stay, and no image of
    /// the new set was ever acquired. After a success the depth image is in
    /// the depth attachment layout and the context is pending under the
    /// fence. A failure is handed on: the structures are taken up all the
    /// same, and the depth image is still in the undefined layout.
    ///
    /// What the context's `begin` asks of the context and the fence is asked
    /// here too.
    pub fn resize(
        &mut self,
        device: &Device,
        context: &mut Context,
        fence: &mut Fence,
        structures: SwapchainStructures,
        outcome: Result<(), CallFailure>,
    ) -> (done: Result<(), Error>)
        requires
            structures.wf(),
            old(context).may_begin(old(fence)),
        ensures
            resized(*old(self), structures, *final(self)),
            final(context).state != ContextState::Recording,
            match outcome {
                Ok(_) => {
                    &&& done is Ok
                    &&& final(self).depth_image.layout == ImageLayout::DepthStencil
                    &&& final(context).command_buffer == old(context).command_buffer
                    &&& final(context).state == ContextState::Pending
                    &&& final(context).fence == old(fence).fence
                    &&& final(fence).fence == old(fence).fence
                    &&& final(fence).state == FenceState::InFlight
                    &&& views_of(final(context).commands@) == depth_commands(
                        structures.depth_image,
                    )
                },
                Err(failure) => {
                    &&& done == Err::<(), Error>(Error::Driver { code: failure.code })
                    &&& final(self).depth_image.layout == ImageLayout::Undefined
                    &&& Device::record_and_submit_failed(
                        old(context),
                        old(fence),
                        final(context),
                        final(fence),
                        depth_commands(structures.depth_image),
                        failure.index,
                    )
                },
            },
    {
        self.image_states = undefined_states(structures.present_images.len());
        self.surface_data = structures.surface_data;
        self.swapchain = structures.swapchain;
        self.present_images = structures.present_images;
        self.present_image_views = structures.present_image_views;
        self.depth_image = structures.depth_image;
        self.transition_depth_image(device, context, fence, outcome)
    }

    /// What the presentation engine is asked for the next image with: no
    /// bound on the wait, `semaphore` to signal once the image can be written
    /// to, and no fence.
    pub fn acquire_info(&self, semaphore: &Semaphore) -> (info: AcquireInfo)
        ensures
            info == (AcquireInfo {
                swapchain: self.swapchain,
                timeout: NO_TIMEOUT,
                semaphore: semaphore.semaphore,
                fence: NULL_HANDLE,
            }),
    {
        AcquireInfo {
            swapchain: self.swapchain,
            timeout: NO_TIMEOUT,
            semaphore: semaphore.semaphore,
            fence: NULL_HANDLE,
        }
    }

    /// Takes the presentation engine's answer to the request of
    /// `acquire_info`: an image index, with the note whether the swapchain
    /// still suits the surface well, or a result code.
    ///
    /// An index is handed out only for an image that the swapchain has and
    /// that is not held: that image is held from now on, and `semaphore` has
    /// a signal outstanding. Any other index is refused, and a failure is
    /// handed on; both leave the swapchain and the semaphore as they were.
    ///
    /// `semaphore` must be idle.
    pub fn acquire_next_image_index(
        &mut self,
        semaphore: &mut Semaphore,
        reply: Result<(u32, bool), i32>,
    ) -> (index: Result<u32, Error>)
        requires
            old(self).wf(),
            old(semaphore).state == SemaphoreState::Idle,
        ensures
            final(self).wf(),
            final(semaphore).semaphore == old(semaphore).semaphore,
            index == acquire_outcome(old(self).image_states@, reply),
            match reply {
                Ok((image, _)) => if image < old(self).image_states@.len()
                    && old(self).image_states@[image as int]
                    != PresentImageState::ColorAttachment {
                    &&& index == Ok::<u32, Error>(image)
                    &&& *final(self) == (Swapchain {
                        image_states: final(self).image_states,
                        ..*old(self)
                    })
                    &&& final(self).image_states@ == old(self).image_states@.update(
                        image as int,
                        PresentImageState::ColorAttachment,
                    )
                    &&& Some(final(self).image_states@[image as int])
                        == old(self).image_states@[image as int].step(PresentImageOp::Acquire)
                    &&& final(semaphore).state == SemaphoreState::Signaling
                } else {
                    &&& index == Err::<u32, Error>(Error::ImageNotAvailable { index: image })
                    &&& *final(self) == *old(self)
                    &&& *final(semaphore) == *old(semaphore)
                },
                Err(code) => {
                    &&& index == Err::<u32, Error>(Error::Driver { code })
                    &&& *final(self) == *old(self)
                    &&& *final(semaphore) == *old(semaphore)
                },
            },
    {
        match reply {
            Ok((image, _)) => {
                if (image as usize) < self.image_states.len() {
                    match self.image_states[image as usize] {
                        PresentImageState::ColorAttachment => Err(
                            Error::ImageNotAvailable { index: image },
                        ),
                        _ => {
                            self.image_states.set(
                                image as usize,
                                PresentImageState::ColorAttachment,
                            );
                            semaphore.signal();
                            Ok(image)
                        },
                    }
                } else {
                    Err(Error::ImageNotAvailable { index: image })
                }
            },
            Err(code) => Err(Error::Driver { code }),
        }
    }

    /// What the presentation engine is handed the images of `image_indices`
    /// with: it shows them only after every semaphore of `wait_semaphores` is
    /// signaled.
    pub fn present_info(
        &self,
        device: &Device,
        wait_semaphores: &Vec<Semaphore>,
        image_indices: &[u32],
    ) -> (info: PresentInfo)
        ensures
            info.queue == device.present_queue,
            info.wait_semaphores@ == handles_of(wait_semaphores@),
            info.swapchains@ == seq![self.swapchain],
            info.image_indices@ == image_indices@,
    {
        let swapchains = vec![self.swapchain];
        PresentInfo {
            queue: device.present_queue,
            wait_semaphores: semaphore_handles(wait_semaphores),
            swapchains,
            image_indices: vstd::slice::slice_to_vec(image_indices),
        }
    }

    /// Takes the presentation engine's answer to the request of
    /// `present_info`. After a success each image of `image_indices` is with
    /// the presentation engine, and the signal of every wait semaphore is
    /// consumed. A failure is handed on and leaves everything as it was.
    ///
    /// Each index must name an image that is held, none of them twice, and
    /// every wait semaphore must have a signal outstanding: an image is
    /// presented only after the work that draws it was submitted.
    pub fn present(
        &mut self,
        wait_semaphores: &mut Vec<Semaphore>,
        image_indices: &[u32],
        reply: Result<bool, i32>,
    ) -> (done: Result<(), Error>)
        requires
            old(self).wf(),
            can_present(old(self).image_states@, image_indices@),
            all_in_state(old(wait_semaphores)@, SemaphoreState::Signaling),
        ensures
            final(self).wf(),
            final(wait_semaphores)@.len() == old(wait_semaphores)@.len(),
            handles_of(final(wait_semaphores)@) == handles_of(old(wait_semaphores)@),
            match reply {
                Ok(_) => {
                    &&& done is Ok
                    &&& *final(self) == (Swapchain {
                        image_states: final(self).image_states,
                        ..*old(self)
                    })
                    &&& final(self).image_states@ == states_after_present(
                        old(self).image_states@,
                        image_indices@,
                    )
                    &&& forall|k: int|
                        0 <= k < image_indices@.len() ==> Some(
                            final(self).image_states@[(#[trigger] image_indices@[k]) as int],
                        ) == old(self).image_states@[image_indices@[k] as int].step(
                            PresentImageOp::Present,
                        )
                    &&& all_in_state(final(wait_semaphores)@, SemaphoreState::Idle)
                },
                Err(code) => {
                    &&& done == Err::<(), Error>(Error::Driver { code })
                    &&& *final(self) == *old(self)
                    &&& *final(wait_semaphores) == *old(wait_semaphores)
                },
            },
    {
        match reply {
            Ok(_) => {
                mark_presented(&mut self.image_states, image_indices);
                consume_all(wait_semaphores);
                Ok(())
            },
            Err(code) => Err(Error::Driver { code }),
        }
    }

    /// The body of the recording that readies the new depth image
    /// `depth_image`: the one command of `depth_commands`.
    pub fn depth_transition_of(depth_image: &Image) -> (body: Vec<Command>)
        ensures
            views_of(body@) == depth_commands(*depth_image),
    {
        let barrier = ImageMemoryBarrier::new(
            depth_image,
            AccessMask::DepthStencil,
            ImageLayout::Undefined,
            ImageLayout::DepthStencil,
        );
        let image_barriers = vec![barrier];
        assert(image_barriers@ =~= seq![depth_barrier(*depth_image)]);
        let body = vec![
            Command::PipelineBarrier {
                src_stage: PipelineStages::BottomOfPipe.bits(),
                dst_stage: PipelineStages::EarlyFragmentTests.bits()
                    | PipelineStages::LateFragmentTests.bits(),
                dependency_flags: 0,
                image_barriers,
            },
        ];
        assert(views_of(body@) =~= depth_commands(*depth_image));
        body
    }

    /// The body of the recording that readies the swapchain's depth image:
    /// the one command of `depth_commands`.
    pub fn depth_transition(&self) -> (body: Vec<Command>)
        ensures
            views_of(body@) == depth_commands(self.depth_image),
    {
        Swapchain::depth_transition_of(&self.depth_image)
    }

    /// Moves the depth image to the depth attachment layout: records the body
    /// of `depth_transition` into `context` and submits it, with no semaphore
    /// and with `fence`. Takes the outcome of the calls, in order: those of
    /// the context's `record_calls`, then the submission of the device's
    /// `submit_info`.
    ///
    /// After a success the context is pending under the fence, the fence is
    /// in flight, and the depth image counts as being in its new layout. A
    /// failure is handed on; the depth image stays in the layout it had, and
    /// the context is never left recording.
    ///
    /// What the context's `begin` asks of the context and the fence is asked
    /// here too.
    pub fn transition_depth_image(
        &mut self,
        device: &Device,
        context: &mut Context,
        fence: &mut Fence,
        outcome: Result<(), CallFailure>,
    ) -> (done: Result<(), Error>)
        requires
            old(context).may_begin(old(fence)),
        ensures
            final(context).state != ContextState::Recording,
            match outcome {
                Ok(_) => {
                    &&& done is Ok
                    &&& *final(self) == (Swapchain {
                        depth_image: Image {
                            layout: ImageLayout::DepthStencil,
                            ..old(self).depth_image
                        },
                        ..*old(self)
                    })
                    &&& final(context).command_buffer == old(context).command_buffer
                    &&& final(context).state == ContextState::Pending
                    &&& final(context).fence == old(fence).fence
                    &&& final(fence).fence == old(fence).fence
                    &&& final(fence).state == FenceState::InFlight
                    &&& views_of(final(context).commands@) == depth_commands(
                        old(self).depth_image,
                    )
                },
                Err(failure) => {
                    &&& done == Err::<(), Error>(Error::Driver { code: failure.code })
                    &&& *final(self) == *old(self)
                    &&& Device::record_and_submit_failed(
                        old(context),
                        old(fence),
                        final(context),
                        final(fence),
                        depth_commands(old(self).depth_image),
                        failure.index,
                    )
                },
            },
    {
        let body = self.depth_transition();
        match device.record_and_submit(context, fence, body, outcome) {
            Err(e) => {
                return Err(e);
            },
            Ok(_) => {},
        }
        let barrier = ImageMemoryBarrier::new(
            &self.depth_image,
            AccessMask::DepthStencil,
            ImageLayout::Undefined,
            ImageLayout::DepthStencil,
        );
        self.depth_image.transition(&barrier);
        Ok(())
    }

    /// Gives the swapchain up: the calls of `clean_images`, then the ones
    /// that destroy the swapchain and the surface.
    pub fn clean(&self) -> (calls: Vec<DriverCall>)
        ensures
            calls@.len() == self.present_image_views@.len() + 5,
            forall|i: int|
                0 <= i < self.present_image_views@.len() ==> #[trigger] calls@[i]
                    == (DriverCall::DestroyImageView { view: self.present_image_views@[i] }),
            calls@.subrange(self.present_image_views@.len() as int, calls@.len() as int)
                == seq![
                DriverCall::DestroyImage { image: self.depth_image.image },
                DriverCall::DestroyImageView { view: self.depth_image.view },
                DriverCall::FreeMemory { memory: self.depth_image.memory },
                DriverCall::DestroySwapchain { swapchain: self.swapchain },
                DriverCall::DestroySurface { surface: self.surface.raw },
            ],
    {
        let mut calls = self.clean_images();
        let ghost images = calls@;
        let ghost views = self.present_image_views@.len() as int;
        calls.push(DriverCall::DestroySwapchain { swapchain: self.swapchain });
        calls.push(self.surface.clean());
        assert(calls@.subrange(views, calls@.len() as int) =~= images.subrange(
            views,
            images.len() as int,
        ).push(DriverCall::DestroySwapchain { swapchain: self.swapchain }).push(
            DriverCall::DestroySurface { surface: self.surface.raw },
        ));
        assert forall|i: int| 0 <= i < views implies #[trigger] calls@[i]
            == (DriverCall::DestroyImageView { view: self.present_image_views@[i] }) by {
            assert(calls@[i] == images[i]);
        }
        calls
    }
}

/// The states of `count` images of which none was ever acquired.
fn undefined_states(count: usize) -> (states: Vec<PresentImageState>)
    ensures
        states@.len() == count,
        forall|i: int| 0 <= i < count ==> #[trigger] states@[i] == PresentImageState::Undefined,
{
    let mut states: Vec<PresentImageState> = Vec::new();
    let mut i: usize = 0;
    while i < count
        invariant
            i <= count,
            states@.len() == i,
            forall|j: int| 0 <= j < i ==> #[trigger] states@[j] == PresentImageState::Undefined,
        decreases count - i,
    {
        states.push(PresentImageState::Undefined);
        i += 1;
    }
    states
}


/// Marks the images of `indices` as presented.
fn mark_presented(states: &mut Vec<PresentImageState>, indices: &[u32])
    requires
        can_present(old(states)@, indices@),
    ensures
        final(states)@ == states_after_present(old(states)@, indices@),
{
    let mut k: usize = 0;
    while k < indices.len()
        invariant
            k <= indices@.len(),
            can_present(old(states)@, indices@),
            states@ == states_after_present(old(states)@, indices@.take(k as int)),
        decreases indices@.len() - k,
    {
        let ghost before = states@;
        let ghost done = indices@.take(k as int);
        let ghost next = indices@.take(k + 1);
        let index: u32 = indices[k];
        assert(index < old(states)@.len());
        states.set(index as usize, PresentImageState::Presentable);
        assert forall|i: int| 0 <= i < states@.len() implies states@[i] == states_after_present(
            old(states)@,
            next,
        )[i] by {
            if exists|l: int| 0 <= l < next.len() && next[l] == i {
                let l = choose|l: int| 0 <= l < next.len() && next[l] == i;
                if l < k {
                    assert(done[l] == i);
                }
            } else {
                assert(next[k as int] == index);
                if exists|l: int| 0 <= l < done.len() && done[l] == i {
                    let l = choose|l: int| 0 <= l < done.len() && done[l] == i;
                    assert(next[l] == i);
                }
            }
        }
        assert(states@ =~= states_after_present(old(states)@, next));
        k += 1;
    }
    assert(indices@.take(k as int) =~= indices@);
}

} // verus!
