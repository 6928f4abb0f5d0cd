//! The making of a swapchain's structures, step by step: which call comes
//! next, and what is released when one of them fails.
use crate::driver::{DriverCall, NULL_HANDLE};
use crate::error::{Error, Failure};
use crate::resources::image::{Image, ImageCreateInfo, ImageLayout, ImageType, ImageViewCreateInfo};
use crate::surface::{Surface, SurfaceData};
use crate::swapchain::{
    present_view_info, release_sequence, Swapchain, SwapchainCreateInfo, SwapchainStructures,
};
use vstd::prelude::*;

verus! {

/// How far the making of the structures has come.
#[derive(Debug, Copy, Clone, PartialEq, Eq, Structural)]
pub enum BuildStage {
    /// Nothing is made: the swapchain is created next.
    Creating,
    /// The swapchain exists: its images are asked for next.
    Listing,
    /// The images are known: the view of the next image is created next.
    Viewing,
    /// Every image has its view: the swapchain that is replaced is destroyed
    /// next.
    Retiring,
    /// The depth image is created next.
    Depth,
    /// A call failed: nothing more is made.
    Failed,
}

/// What is asked of the driver next.
#[derive(Debug, Copy, Clone, PartialEq, Eq, Structural)]
pub enum BuildAction {
    CreateSwapchain(SwapchainCreateInfo),
    GetSwapchainImages { swapchain: u64 },
    CreateImageView(ImageViewCreateInfo),
    /// The call that destroys the swapchain that is replaced.
    Retire(DriverCall),
    CreateDepthImage(ImageCreateInfo),
    Nothing,
}

/// The structures of a swapchain while they are made.
#[derive(Debug, PartialEq, Eq)]
pub struct SwapchainBuild {
    pub surface_data: SurfaceData,
    pub create_info: SwapchainCreateInfo,
    /// The swapchain that the new one replaces, where there is one.
    pub old_swapchain: Option<u64>,
    pub stage: BuildStage,
    pub swapchain: u64,
    pub present_images: Vec<u64>,
    pub present_image_views: Vec<u64>,
}

/// The stage that follows once every image has its view: the swapchain that
/// is replaced is retired where there is one, else the depth image is made.
pub open spec fn stage_after_views(old_swapchain: Option<u64>) -> BuildStage {
    if old_swapchain is Some {
        BuildStage::Retiring
    } else {
        BuildStage::Depth
    }
}

impl SwapchainBuild {
    /// What holds of the build at each stage: before the images are known
    /// there are none, while views are made some image lacks its view, and
    /// from then on every image has one.
    pub open spec fn wf(&self) -> bool {
        &&& self.create_info.old_swapchain == match self.old_swapchain {
            Some(old) => old,
            None => NULL_HANDLE,
        }
        &&& match self.stage {
            BuildStage::Creating => self.present_images@.len() == 0
                && self.present_image_views@.len() == 0,
            BuildStage::Listing => self.present_images@.len() == 0
                && self.present_image_views@.len() == 0,
            BuildStage::Viewing => self.present_image_views@.len() < self.present_images@.len()
                <= u32::MAX,
            BuildStage::Retiring => self.present_image_views@.len() == self.present_images@.len()
                <= u32::MAX && self.old_swapchain is Some,
            BuildStage::Depth => self.present_image_views@.len() == self.present_images@.len()
                <= u32::MAX,
            BuildStage::Failed => true,
        }
    }

    /// Starts the making of the structures of a swapchain on `surface`, in
    /// place of `old_swapchain` where there is one.
    pub fn start(
        surface: &Surface,
        surface_data: SurfaceData,
        present_modes: &Vec<i32>,
        old_swapchain: Option<u64>,
        use_vsync: bool,
    ) -> (build: SwapchainBuild)
        ensures
            build.wf(),
            build.stage == BuildStage::Creating,
            build.surface_data == surface_data,
            build.old_swapchain == old_swapchain,
            build.swapchain == NULL_HANDLE,
            build.create_info == Swapchain::spec_create_info(
                *surface,
                surface_data,
                present_modes@,
                old_swapchain,
                use_vsync,
            ),
    {
        let create_info = Swapchain::create_info(
            surface,
            &surface_data,
            present_modes,
            old_swapchain,
            use_vsync,
        );
        SwapchainBuild {
            surface_data,
            create_info,
            old_swapchain,
            stage: BuildStage::Creating,
            swapchain: NULL_HANDLE,
            present_images: Vec::new(),
            present_image_views: Vec::new(),
        }
    }

    /// What is asked of the driver next: the swapchain, then its images,
    /// then the view of each image in order, then the end of the swapchain
    /// that is replaced, and the depth image last.
    pub open spec fn spec_action(&self) -> BuildAction {
        match self.stage {
            BuildStage::Creating => BuildAction::CreateSwapchain(self.create_info),
            BuildStage::Listing => BuildAction::GetSwapchainImages { swapchain: self.swapchain },
            BuildStage::Viewing => BuildAction::CreateImageView(
                present_view_info(
                    self.present_images@[self.present_image_views@.len() as int],
                    self.surface_data.format.format,
                ),
            ),
            BuildStage::Retiring => BuildAction::Retire(
                DriverCall::DestroySwapchain { swapchain: self.old_swapchain->Some_0 },
            ),
            BuildStage::Depth => BuildAction::CreateDepthImage(
                Swapchain::spec_depth_image_info(self.surface_data),
            ),
            BuildStage::Failed => BuildAction::Nothing,
        }
    }

    /// What is asked of the driver next.
    pub fn action(&self) -> (action: BuildAction)
        requires
            self.wf(),
        ensures
            action == self.spec_action(),
    {
        match self.stage {
            BuildStage::Creating => BuildAction::CreateSwapchain(self.create_info),
            BuildStage::Listing => BuildAction::GetSwapchainImages { swapchain: self.swapchain },
            BuildStage::Viewing => {
                let infos = Swapchain::view_info(
                    self.present_images[self.present_image_views.len()],
                    self.surface_data.format.format,
                );
                BuildAction::CreateImageView(infos)
            },
            BuildStage::Retiring => match Swapchain::retire_call(self.old_swapchain) {
                Some(call) => BuildAction::Retire(call),
                None => BuildAction::Nothing,
            },
            BuildStage::Depth => BuildAction::CreateDepthImage(
                Swapchain::depth_image_info(&self.surface_data),
            ),
            BuildStage::Failed => BuildAction::Nothing,
        }
    }

    /// Takes the driver's answer to the creation of the swapchain. A failure
    /// is handed on with nothing to release: nothing was made, and the
    /// swapchain that was to be replaced stays.
    pub fn created(&mut self, reply: Result<u64, i32>) -> (done: Result<(), Failure>)
        requires
            old(self).wf(),
            old(self).stage == BuildStage::Creating,
        ensures
            final(self).wf(),
            match reply {
                Ok(swapchain) => {
                    &&& done is Ok
                    &&& *final(self) == (SwapchainBuild {
                        stage: BuildStage::Listing,
                        swapchain,
                        ..*old(self)
                    })
                },
                Err(code) => {
                    &&& done matches Err(failure)
                    &&& failure.error == (Error::Driver { code })
                    &&& failure.release@.len() == 0
                    &&& *final(self) == (SwapchainBuild { stage: BuildStage::Failed, ..*old(self) })
                },
            },
    {
        match reply {
            Ok(swapchain) => {
                self.swapchain = swapchain;
                self.stage = BuildStage::Listing;
                Ok(())
            },
            Err(code) => {
                self.stage = BuildStage::Failed;
                Err(Failure { error: Error::Driver { code }, release: Vec::new() })
            },
        }
    }

    /// Takes the driver's answer to the request for the swapchain's images.
    /// A failure, or more images than an index can name, is handed on with
    /// the call that destroys the new swapchain.
    pub fn listed(&mut self, reply: Result<Vec<u64>, i32>) -> (done: Result<(), Failure>)
        requires
            old(self).wf(),
            old(self).stage == BuildStage::Listing,
        ensures
            final(self).wf(),
            match reply {
                Ok(images) => if images@.len() <= u32::MAX {
                    &&& done is Ok
                    &&& *final(self) == (SwapchainBuild {
                        stage: if images@.len() == 0 {
                            stage_after_views(old(self).old_swapchain)
                        } else {
                            BuildStage::Viewing
                        },
                        present_images: images,
                        ..*old(self)
                    })
                } else {
                    &&& done matches Err(failure)
                    &&& failure.error == Error::UnexpectedCount
                    &&& failure.release@ == release_sequence(
                        old(self).swapchain,
                        Seq::<u64>::empty(),
                        None,
                    )
                    &&& *final(self) == (SwapchainBuild { stage: BuildStage::Failed, ..*old(self) })
                },
                Err(code) => {
                    &&& done matches Err(failure)
                    &&& failure.error == (Error::Driver { code })
                    &&& failure.release@ == release_sequence(
                        old(self).swapchain,
                        Seq::<u64>::empty(),
                        None,
                    )
                    &&& *final(self) == (SwapchainBuild { stage: BuildStage::Failed, ..*old(self) })
                },
            },
    {
        let error = match reply {
            Ok(images) => {
                if images.len() <= u32::MAX as usize {
                    self.stage = if images.len() == 0 {
                        match self.old_swapchain {
                            Some(_) => BuildStage::Retiring,
                            None => BuildStage::Depth,
                        }
                    } else {
                        BuildStage::Viewing
                    };
                    self.present_images = images;
                    return Ok(());
                }
                Error::UnexpectedCount
            },
            Err(code) => Error::Driver { code },
        };
        self.stage = BuildStage::Failed;
        let release = Swapchain::release_calls(self.swapchain, &self.present_image_views, None);
        assert(self.present_image_views@ =~= Seq::<u64>::empty());
        Err(Failure { error, release })
    }

    /// Takes the driver's answer to the creation of the next view. A failure
    /// is handed on with the calls that destroy the views made so far, then
    /// the new swapchain.
    pub fn viewed(&mut self, reply: Result<u64, i32>) -> (done: Result<(), Failure>)
        requires
            old(self).wf(),
            old(self).stage == BuildStage::Viewing,
        ensures
            final(self).wf(),
            match reply {
                Ok(view) => {
                    &&& done is Ok
                    &&& final(self).present_image_views@ == old(self).present_image_views@.push(
                        view,
                    )
                    &&& *final(self) == (SwapchainBuild {
                        stage: if final(self).present_image_views@.len()
                            == old(self).present_images@.len() {
                            stage_after_views(old(self).old_swapchain)
                        } else {
                            BuildStage::Viewing
                        },
                        present_image_views: final(self).present_image_views,
                        ..*old(self)
                    })
                },
                Err(code) => {
                    &&& done matches Err(failure)
                    &&& failure.error == (Error::Driver { code })
                    &&& failure.release@ == release_sequence(
                        old(self).swapchain,
                        old(self).present_image_views@,
                        None,
                    )
                    &&& *final(self) == (SwapchainBuild { stage: BuildStage::Failed, ..*old(self) })
                },
            },
    {
        match reply {
            Ok(view) => {
                self.present_image_views.push(view);
                if self.present_image_views.len() == self.present_images.len() {
                    self.stage = match self.old_swapchain {
                        Some(_) => BuildStage::Retiring,
                        None => BuildStage::Depth,
                    };
                }
                Ok(())
            },
            Err(code) => {
                self.stage = BuildStage::Failed;
                let release = Swapchain::release_calls(
                    self.swapchain,
                    &self.present_image_views,
                    None,
                );
                Err(Failure { error: Error::Driver { code }, release })
            },
        }
    }

    /// Notes that the swapchain that is replaced was destroyed.
    pub fn retired(&mut self)
        requires
            old(self).wf(),
            old(self).stage == BuildStage::Retiring,
        ensures
            final(self).wf(),
            *final(self) == (SwapchainBuild { stage: BuildStage::Depth, ..*old(self) }),
    {
        self.stage = BuildStage::Depth;
    }

    /// Takes the depth image, or the reason why it could not be made, and
    /// puts the structures together. A failure is handed on with the calls
    /// that destroy the views, then the new swapchain.
    ///
    /// The depth image must be a new depth image, made with the create info
    /// of the last action.
    pub fn finish(self, depth_image: Result<Image, Error>) -> (structures: Result<
        SwapchainStructures,
        Failure,
    >)
        requires
            self.wf(),
            self.stage == BuildStage::Depth,
            depth_image matches Ok(image) ==> image.ty == ImageType::Depth && image.layout
                == ImageLayout::Undefined,
        ensures
            match depth_image {
                Ok(image) => {
                    &&& structures matches Ok(made)
                    &&& made.wf()
                    &&& made.surface_data == self.surface_data
                    &&& made.swapchain == self.swapchain
                    &&& made.present_images == self.present_images
                    &&& made.present_image_views == self.present_image_views
                    &&& made.depth_image == image
                },
                Err(error) => {
                    &&& structures matches Err(failure)
                    &&& failure.error == error
                    &&& failure.release@ == release_sequence(
                        self.swapchain,
                        self.present_image_views@,
                        None,
                    )
                },
            },
    {
        match depth_image {
            Ok(image) => Swapchain::create_swapchain_structures(
                self.surface_data,
                self.swapchain,
                self.present_images,
                self.present_image_views,
                image,
            ),
            Err(error) => {
                let release = Swapchain::release_calls(
                    self.swapchain,
                    &self.present_image_views,
                    None,
                );
                Err(Failure { error, release })
            },
        }
    }
}

/// The swapchain that is replaced is destroyed only once the new swapchain
/// and the view of each of its images exist: the one stage whose action
/// retires it is reached with every view made. It stays where the making
/// fails before: no failure names it among the calls to release.
pub proof fn lemma_retire_comes_after_views(build: SwapchainBuild)
    requires
        build.wf(),
        build.spec_action() is Retire,
    ensures
        build.stage == BuildStage::Retiring,
        build.old_swapchain matches Some(old) && build.spec_action() == BuildAction::Retire(
            DriverCall::DestroySwapchain { swapchain: old },
        ),
        build.present_image_views@.len() == build.present_images@.len(),
{
}

} // verus!
