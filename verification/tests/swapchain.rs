use easy_ash::command::Command;
use easy_ash::context::{Context, ContextState};
use easy_ash::device::Device;
use easy_ash::driver::{CallFailure, DriverCall, Extent2D, Rect2D};
use easy_ash::error::Error;
use easy_ash::mem::PhysicalDeviceMemoryProperties;
use easy_ash::driver::Extent3D;
use easy_ash::resources::image::{
    ComponentMapping, Image, ImageCreateInfo, ImageCreationError, ImageLayout, ImageResolution,
    ImageSubresourceRange, ImageType, ImageViewCreateInfo,
};
use easy_ash::swapchain::creation::{BuildAction, BuildStage, SwapchainBuild};
use easy_ash::surface::{Surface, SurfaceCapabilities, SurfaceData, SurfaceFormat};
use easy_ash::swapchain::{
    AcquireInfo, PresentImageState, Swapchain, SwapchainCreateInfo, SwapchainStructures,
};
use easy_ash::sync::fence::{Fence, FenceState};
use easy_ash::sync::memory_barrier::ImageMemoryBarrier;
use easy_ash::sync::semaphore::{Semaphore, SemaphoreState};

fn capabilities(min: u32, max: u32, width: u32, height: u32) -> SurfaceCapabilities {
    SurfaceCapabilities {
        min_image_count: min,
        max_image_count: max,
        current_extent: Extent2D { width, height },
        supported_transforms: 0x1 | 0x4,
        current_transform: 0x4,
    }
}

fn formats() -> Vec<SurfaceFormat> {
    vec![SurfaceFormat { format: 44, color_space: 0 }, SurfaceFormat { format: 50, color_space: 1 }]
}

fn structures(width: u32, height: u32, swapchain: u64, first_image: u64) -> SwapchainStructures {
    let data = SurfaceData::new(&formats(), capabilities(2, 3, u32::MAX, 0), width, height).unwrap();
    Swapchain::create_swapchain_structures(
        data,
        swapchain,
        vec![first_image, first_image + 1, first_image + 2],
        vec![first_image + 100, first_image + 101, first_image + 102],
        Image::new(first_image + 200, first_image + 201, first_image + 202, ImageType::Depth),
    )
    .unwrap()
}

fn swapchain() -> Swapchain {
    Swapchain::new(Surface::new(Ok(7)).unwrap(), structures(640, 480, 50, 100), false)
}

fn device() -> Device {
    Device::new(1, PhysicalDeviceMemoryProperties { memory_types: Vec::new() }, 2, 0, 3, 4)
}

#[test]
fn surface_data_asks_for_one_image_more_than_the_minimum() {
    let data = SurfaceData::new(&formats(), capabilities(2, 0, 800, 600), 1, 1).unwrap();
    assert_eq!(data.desired_image_count, 3);
    let data = SurfaceData::new(&formats(), capabilities(2, 8, 800, 600), 1, 1).unwrap();
    assert_eq!(data.desired_image_count, 3);
    let data = SurfaceData::new(&formats(), capabilities(0, 0, 800, 600), 1, 1).unwrap();
    assert_eq!(data.desired_image_count, 1);
}

#[test]
fn surface_data_stays_within_the_maximum() {
    let data = SurfaceData::new(&formats(), capabilities(2, 2, 800, 600), 1, 1).unwrap();
    assert_eq!(data.desired_image_count, 2);
    let data = SurfaceData::new(&formats(), capabilities(3, 3, 800, 600), 1, 1).unwrap();
    assert_eq!(data.desired_image_count, 3);
    let data = SurfaceData::new(&formats(), capabilities(5, 1, 800, 600), 1, 1).unwrap();
    assert_eq!(data.desired_image_count, 1);
}

#[test]
fn surface_data_takes_the_surfaces_size_where_it_has_one() {
    let data = SurfaceData::new(&formats(), capabilities(2, 3, 800, 600), 640, 480).unwrap();
    assert_eq!(data.resolution, Extent2D { width: 800, height: 600 });
    let data = SurfaceData::new(&formats(), capabilities(2, 3, u32::MAX, 7), 640, 480).unwrap();
    assert_eq!(data.resolution, Extent2D { width: 640, height: 480 });
    assert_eq!(data.format, SurfaceFormat { format: 44, color_space: 0 });
    assert_eq!(data.capabilities, capabilities(2, 3, u32::MAX, 7));
}

#[test]
fn surface_data_needs_a_format() {
    assert_eq!(
        SurfaceData::new(&Vec::new(), capabilities(2, 3, 800, 600), 1, 1),
        Err(Error::NoSurfaceFormat)
    );
}

#[test]
fn surface_is_created_and_destroyed() {
    let surface = Surface::new(Ok(7)).unwrap();
    assert_eq!(surface.raw, 7);
    assert_eq!(surface.clean(), DriverCall::DestroySurface { surface: 7 });
    assert_eq!(Surface::new(Err(-3)).unwrap_err(), Error::Driver { code: -3 });
}

#[test]
fn pre_transform_prefers_identity() {
    assert_eq!(Swapchain::pre_transform(capabilities(2, 3, 1, 1)), 0x1);
    let mut rotated = capabilities(2, 3, 1, 1);
    rotated.supported_transforms = 0x4 | 0x8;
    assert_eq!(Swapchain::pre_transform(rotated), 0x4);
}

#[test]
fn present_mode_falls_back_to_fifo() {
    // Immediate is 0, mailbox 1, fifo 2, relaxed fifo 3.
    assert_eq!(Swapchain::present_mode(&vec![0, 1, 2], true), 2);
    assert_eq!(Swapchain::present_mode(&vec![0, 1, 2], false), 1);
    assert_eq!(Swapchain::present_mode(&vec![0, 2, 3], false), 2);
    assert_eq!(Swapchain::present_mode(&vec![0, 1], true), 2);
    assert_eq!(Swapchain::present_mode(&Vec::new(), false), 2);
    assert_eq!(Swapchain::present_mode(&vec![1], false), 1);
}

#[test]
fn swapchain_is_created_with_what_the_surface_settled() {
    let surface = Surface::new(Ok(7)).unwrap();
    let data = SurfaceData::new(&formats(), capabilities(2, 3, 800, 600), 1, 1).unwrap();
    let info = Swapchain::create_info(&surface, &data, &vec![0, 1, 2], None, false);
    assert_eq!(
        info,
        SwapchainCreateInfo {
            surface: 7,
            min_image_count: 3,
            image_color_space: 0,
            image_format: 44,
            image_extent: Extent2D { width: 800, height: 600 },
            image_usage: 0x10,
            image_sharing_mode: 0,
            pre_transform: 0x1,
            composite_alpha: 0x1,
            present_mode: 1,
            clipped: true,
            image_array_layers: 1,
            old_swapchain: 0,
        }
    );
    let info = Swapchain::create_info(&surface, &data, &vec![0, 1, 2], Some(50), true);
    assert_eq!(info.old_swapchain, 50);
    assert_eq!(info.present_mode, 2);
}

#[test]
fn each_image_gets_a_colour_view() {
    let infos = Swapchain::view_infos(&vec![100, 101], 44);
    assert_eq!(infos.len(), 2);
    for (info, image) in infos.iter().zip([100u64, 101]) {
        assert_eq!(
            *info,
            ImageViewCreateInfo {
                image,
                view_type: 1,
                format: 44,
                components: ComponentMapping::Rgba,
                subresource_range: ImageSubresourceRange {
                    aspect_mask: 1,
                    base_mip_level: 0,
                    level_count: 1,
                    base_array_layer: 0,
                    layer_count: 1,
                },
            }
        );
    }
    assert!(Swapchain::view_infos(&Vec::new(), 44).is_empty());
}

#[test]
fn old_swapchain_is_retired() {
    assert_eq!(
        Swapchain::retire_call(Some(50)),
        Some(DriverCall::DestroySwapchain { swapchain: 50 })
    );
    assert_eq!(Swapchain::retire_call(None), None);
}

#[test]
fn structures_need_a_view_for_each_image() {
    let data = SurfaceData::new(&formats(), capabilities(2, 3, 800, 600), 1, 1).unwrap();
    let made = Swapchain::create_swapchain_structures(
        data,
        50,
        vec![100, 101, 102],
        vec![200, 201],
        Image::new(10, 11, 12, ImageType::Depth),
    );
    let failure = made.unwrap_err();
    assert_eq!(failure.error, Error::UnexpectedCount);
    // All that was handed in is released: the views, the depth image, the swapchain.
    assert_eq!(
        failure.release,
        vec![
            DriverCall::DestroyImageView { view: 200 },
            DriverCall::DestroyImageView { view: 201 },
            DriverCall::DestroyImage { image: 10 },
            DriverCall::DestroyImageView { view: 12 },
            DriverCall::FreeMemory { memory: 11 },
            DriverCall::DestroySwapchain { swapchain: 50 },
        ]
    );
}

#[test]
fn depth_image_has_the_size_of_the_swapchain() {
    let data = SurfaceData::new(&formats(), capabilities(2, 3, 800, 600), 1, 1).unwrap();
    assert_eq!(
        Swapchain::depth_image_info(&data),
        ImageCreateInfo {
            image_type: 1,
            format: 124,
            extent: Extent3D { width: 800, height: 600, depth: 1 },
            mip_levels: 1,
            array_layers: 1,
            samples: 1,
            tiling: 0,
            usage: 0x20,
            sharing_mode: 0,
        }
    );
    assert_eq!(
        Swapchain::depth_image_info(&data),
        Image::create_info(ImageResolution::from_width_height(800, 600), ImageType::Depth)
    );
}

#[test]
fn release_names_views_then_depth_image_then_swapchain() {
    assert_eq!(
        Swapchain::release_calls(50, &Vec::new(), None),
        vec![DriverCall::DestroySwapchain { swapchain: 50 }]
    );
    assert_eq!(
        Swapchain::release_calls(50, &vec![200, 201], None),
        vec![
            DriverCall::DestroyImageView { view: 200 },
            DriverCall::DestroyImageView { view: 201 },
            DriverCall::DestroySwapchain { swapchain: 50 },
        ]
    );
    let depth = Image::new(10, 11, 12, ImageType::Depth);
    assert_eq!(
        Swapchain::release_calls(50, &vec![200], Some(&depth)),
        vec![
            DriverCall::DestroyImageView { view: 200 },
            DriverCall::DestroyImage { image: 10 },
            DriverCall::DestroyImageView { view: 12 },
            DriverCall::FreeMemory { memory: 11 },
            DriverCall::DestroySwapchain { swapchain: 50 },
        ]
    );
}

fn start(old_swapchain: Option<u64>) -> SwapchainBuild {
    let surface = Surface::new(Ok(7)).unwrap();
    let data = SurfaceData::new(&formats(), capabilities(2, 3, 800, 600), 1, 1).unwrap();
    SwapchainBuild::start(&surface, data, &vec![0, 1, 2], old_swapchain, true)
}

fn colour_view(image: u64) -> ImageViewCreateInfo {
    ImageViewCreateInfo {
        image,
        view_type: 1,
        format: 44,
        components: ComponentMapping::Rgba,
        subresource_range: ImageSubresourceRange {
            aspect_mask: 1,
            base_mip_level: 0,
            level_count: 1,
            base_array_layer: 0,
            layer_count: 1,
        },
    }
}

#[test]
fn structures_are_made_in_order_and_the_old_swapchain_goes_after_the_views() {
    let mut build = start(Some(40));
    assert_eq!(build.stage, BuildStage::Creating);
    let surface = Surface::new(Ok(7)).unwrap();
    let info =
        Swapchain::create_info(&surface, &build.surface_data, &vec![0, 1, 2], Some(40), true);
    assert_eq!(info.old_swapchain, 40);
    assert_eq!(build.action(), BuildAction::CreateSwapchain(info));

    build.created(Ok(50)).unwrap();
    assert_eq!(build.action(), BuildAction::GetSwapchainImages { swapchain: 50 });
    build.listed(Ok(vec![100, 101])).unwrap();
    assert_eq!(build.action(), BuildAction::CreateImageView(colour_view(100)));
    build.viewed(Ok(200)).unwrap();
    // A view is still missing: the old swapchain is not touched yet.
    assert_eq!(build.stage, BuildStage::Viewing);
    assert_eq!(build.action(), BuildAction::CreateImageView(colour_view(101)));
    build.viewed(Ok(201)).unwrap();
    assert_eq!(
        build.action(),
        BuildAction::Retire(DriverCall::DestroySwapchain { swapchain: 40 })
    );
    build.retired();
    assert_eq!(
        build.action(),
        BuildAction::CreateDepthImage(Swapchain::depth_image_info(&build.surface_data))
    );
    let made = build.finish(Ok(Image::new(10, 11, 12, ImageType::Depth))).unwrap();
    assert_eq!(made.swapchain, 50);
    assert_eq!(made.present_images, vec![100, 101]);
    assert_eq!(made.present_image_views, vec![200, 201]);
    assert_eq!(made.depth_image, Image::new(10, 11, 12, ImageType::Depth));
}

#[test]
fn without_an_old_swapchain_nothing_is_retired() {
    let mut build = start(None);
    match build.action() {
        BuildAction::CreateSwapchain(info) => assert_eq!(info.old_swapchain, 0),
        other => panic!("unexpected action {:?}", other),
    }
    build.created(Ok(50)).unwrap();
    build.listed(Ok(vec![100])).unwrap();
    build.viewed(Ok(200)).unwrap();
    assert_eq!(build.stage, BuildStage::Depth);
    assert!(matches!(build.action(), BuildAction::CreateDepthImage(_)));
    // A swapchain without images goes on to its depth image at once.
    let mut empty = start(None);
    empty.created(Ok(50)).unwrap();
    empty.listed(Ok(Vec::new())).unwrap();
    assert_eq!(empty.stage, BuildStage::Depth);
    let mut replaced = start(Some(40));
    replaced.created(Ok(50)).unwrap();
    replaced.listed(Ok(Vec::new())).unwrap();
    assert_eq!(replaced.stage, BuildStage::Retiring);
}

#[test]
fn failed_creation_releases_nothing_and_keeps_the_old_swapchain() {
    let mut build = start(Some(40));
    let failure = build.created(Err(-3)).unwrap_err();
    assert_eq!(failure.error, Error::Driver { code: -3 });
    assert!(failure.release.is_empty());
    assert_eq!(build.stage, BuildStage::Failed);
    assert_eq!(build.action(), BuildAction::Nothing);
}

#[test]
fn failure_after_creation_releases_what_was_made() {
    let old = DriverCall::DestroySwapchain { swapchain: 40 };

    let mut build = start(Some(40));
    build.created(Ok(50)).unwrap();
    let failure = build.listed(Err(-1)).unwrap_err();
    assert_eq!(failure.error, Error::Driver { code: -1 });
    assert_eq!(failure.release, vec![DriverCall::DestroySwapchain { swapchain: 50 }]);
    assert_eq!(build.stage, BuildStage::Failed);

    let mut build = start(Some(40));
    build.created(Ok(50)).unwrap();
    build.listed(Ok(vec![100, 101, 102])).unwrap();
    build.viewed(Ok(200)).unwrap();
    build.viewed(Ok(201)).unwrap();
    let failure = build.viewed(Err(-2)).unwrap_err();
    assert_eq!(failure.error, Error::Driver { code: -2 });
    assert_eq!(
        failure.release,
        vec![
            DriverCall::DestroyImageView { view: 200 },
            DriverCall::DestroyImageView { view: 201 },
            DriverCall::DestroySwapchain { swapchain: 50 },
        ]
    );
    // The old swapchain stays: the views were not complete.
    assert!(!failure.release.contains(&old));
    assert_eq!(build.stage, BuildStage::Failed);

    let mut build = start(None);
    build.created(Ok(50)).unwrap();
    build.listed(Ok(vec![100])).unwrap();
    build.viewed(Ok(200)).unwrap();
    let error = Error::ImageCreation(ImageCreationError::CouldNotFindMemoryIndex);
    let failure = build.finish(Err(error)).unwrap_err();
    assert_eq!(failure.error, error);
    assert_eq!(
        failure.release,
        vec![
            DriverCall::DestroyImageView { view: 200 },
            DriverCall::DestroySwapchain { swapchain: 50 },
        ]
    );
}

#[test]
fn new_swapchain_holds_no_image() {
    let swapchain = swapchain();
    assert_eq!(swapchain.swapchain, 50);
    assert_eq!(swapchain.present_images, vec![100, 101, 102]);
    assert_eq!(swapchain.present_image_views, vec![200, 201, 202]);
    assert_eq!(swapchain.image_states, vec![PresentImageState::Undefined; 3]);
    assert_eq!(swapchain.depth_image.layout, ImageLayout::Undefined);
    assert_eq!(swapchain.resolution(), Extent2D { width: 640, height: 480 });
    assert_eq!(swapchain.width(), 640);
    assert_eq!(swapchain.height(), 480);
    assert_eq!(
        swapchain.scissor(),
        Rect2D { x: 0, y: 0, extent: Extent2D { width: 640, height: 480 } }
    );
    assert!(!swapchain.use_vsync);
}

#[test]
fn acquire_asks_without_a_bound() {
    let swapchain = swapchain();
    let semaphore = Semaphore::new(Ok(20)).unwrap();
    assert_eq!(
        swapchain.acquire_info(&semaphore),
        AcquireInfo { swapchain: 50, timeout: u64::MAX, semaphore: 20, fence: 0 }
    );
}

#[test]
fn acquire_holds_the_image_and_signals_the_semaphore() {
    let mut swapchain = swapchain();
    let mut semaphore = Semaphore::new(Ok(20)).unwrap();
    assert_eq!(swapchain.acquire_next_image_index(&mut semaphore, Ok((1, false))), Ok(1));
    assert_eq!(
        swapchain.image_states,
        vec![
            PresentImageState::Undefined,
            PresentImageState::ColorAttachment,
            PresentImageState::Undefined,
        ]
    );
    assert_eq!(semaphore.state, SemaphoreState::Signaling);
    // A swapchain that no longer suits the surface well still hands out its image.
    let mut other = Semaphore::new(Ok(21)).unwrap();
    assert_eq!(swapchain.acquire_next_image_index(&mut other, Ok((2, true))), Ok(2));
}

#[test]
fn acquire_refuses_an_image_that_is_held_or_unknown() {
    let mut swapchain = swapchain();
    let mut first = Semaphore::new(Ok(20)).unwrap();
    swapchain.acquire_next_image_index(&mut first, Ok((1, false))).unwrap();
    let before = swapchain.image_states.clone();
    let mut second = Semaphore::new(Ok(21)).unwrap();
    assert_eq!(
        swapchain.acquire_next_image_index(&mut second, Ok((1, false))),
        Err(Error::ImageNotAvailable { index: 1 })
    );
    assert_eq!(second.state, SemaphoreState::Idle);
    assert_eq!(swapchain.image_states, before);
    assert_eq!(
        swapchain.acquire_next_image_index(&mut second, Ok((3, false))),
        Err(Error::ImageNotAvailable { index: 3 })
    );
    assert_eq!(
        swapchain.acquire_next_image_index(&mut second, Ok((u32::MAX, false))),
        Err(Error::ImageNotAvailable { index: u32::MAX })
    );
    assert_eq!(swapchain.image_states, before);
}

#[test]
fn acquire_hands_an_out_of_date_swapchain_on_as_recoverable() {
    let mut swapchain = swapchain();
    let mut semaphore = Semaphore::new(Ok(20)).unwrap();
    let error = swapchain
        .acquire_next_image_index(&mut semaphore, Err(-1000001004))
        .unwrap_err();
    assert_eq!(error, Error::Driver { code: -1000001004 });
    assert!(error.is_out_of_date());
    assert!(!Error::Driver { code: -4 }.is_out_of_date());
    assert!(!Error::UnexpectedCount.is_out_of_date());
    assert_eq!(semaphore.state, SemaphoreState::Idle);
    assert_eq!(swapchain.image_states, vec![PresentImageState::Undefined; 3]);
}

#[test]
fn present_hands_the_images_over() {
    let device = device();
    let mut swapchain = swapchain();
    let mut a = Semaphore::new(Ok(20)).unwrap();
    let mut b = Semaphore::new(Ok(21)).unwrap();
    swapchain.acquire_next_image_index(&mut a, Ok((2, false))).unwrap();
    swapchain.acquire_next_image_index(&mut b, Ok((0, false))).unwrap();
    let mut waits = vec![a, b];
    let info = swapchain.present_info(&device, &waits, &[2, 0]);
    assert_eq!(info.queue, 3);
    assert_eq!(info.wait_semaphores, vec![20, 21]);
    assert_eq!(info.swapchains, vec![50]);
    assert_eq!(info.image_indices, vec![2, 0]);
    assert_eq!(swapchain.present(&mut waits, &[2, 0], Ok(false)), Ok(()));
    assert_eq!(
        swapchain.image_states,
        vec![
            PresentImageState::Presentable,
            PresentImageState::Undefined,
            PresentImageState::Presentable,
        ]
    );
    assert!(waits.iter().all(|s| s.state == SemaphoreState::Idle));
    // A presented image can be acquired again.
    let mut c = Semaphore::new(Ok(22)).unwrap();
    assert_eq!(swapchain.acquire_next_image_index(&mut c, Ok((2, false))), Ok(2));
}

#[test]
fn failed_present_keeps_the_image_held() {
    let mut swapchain = swapchain();
    let mut a = Semaphore::new(Ok(20)).unwrap();
    swapchain.acquire_next_image_index(&mut a, Ok((1, false))).unwrap();
    let mut waits = vec![a];
    assert_eq!(
        swapchain.present(&mut waits, &[1], Err(-1000001004)),
        Err(Error::Driver { code: -1000001004 })
    );
    assert_eq!(swapchain.image_states[1], PresentImageState::ColorAttachment);
    assert_eq!(waits[0].state, SemaphoreState::Signaling);
}

#[test]
fn depth_transition_is_one_barrier() {
    let swapchain = swapchain();
    let body = swapchain.depth_transition();
    assert_eq!(
        body,
        vec![Command::PipelineBarrier {
            src_stage: 0x2000,
            dst_stage: 0x100 | 0x200,
            dependency_flags: 0,
            image_barriers: vec![ImageMemoryBarrier {
                image: 300,
                src_access_mask: 0,
                dst_access_mask: 0x600,
                old_layout: ImageLayout::Undefined,
                new_layout: ImageLayout::DepthStencil,
                subresource_range: ImageSubresourceRange {
                    aspect_mask: 2,
                    base_mip_level: 0,
                    level_count: 1,
                    base_array_layer: 0,
                    layer_count: 1,
                },
            }],
        }]
    );
}

#[test]
fn depth_image_is_moved_by_a_submitted_recording() {
    let device = device();
    let mut swapchain = swapchain();
    let mut context = Context::new(Ok(vec![40])).unwrap();
    let mut fence = Fence::new(Ok(30)).unwrap();
    let body = swapchain.depth_transition();
    let done = swapchain.transition_depth_image(&device, &mut context, &mut fence, Ok(()));
    assert_eq!(done, Ok(()));
    assert_eq!(swapchain.depth_image.layout, ImageLayout::DepthStencil);
    assert_eq!(context.state, ContextState::Pending);
    assert_eq!(context.fence, 30);
    assert_eq!(context.commands, body);
    assert_eq!(fence.state, FenceState::InFlight);
}

#[test]
fn failed_depth_transition_leaves_the_layout() {
    let device = device();
    for index in 0..7 {
        let mut swapchain = swapchain();
        let mut context = Context::new(Ok(vec![40])).unwrap();
        let mut fence = Fence::new(Ok(30)).unwrap();
        let done = swapchain.transition_depth_image(
            &device,
            &mut context,
            &mut fence,
            Err(CallFailure { index, code: -4 }),
        );
        assert_eq!(done, Err(Error::Driver { code: -4 }));
        assert_eq!(swapchain.depth_image.layout, ImageLayout::Undefined);
        assert_ne!(context.state, ContextState::Recording);
        assert_ne!(context.state, ContextState::Pending);
    }
}

#[test]
fn clean_images_destroys_views_then_the_depth_image() {
    let swapchain = swapchain();
    assert_eq!(
        swapchain.clean_images(),
        vec![
            DriverCall::DestroyImageView { view: 200 },
            DriverCall::DestroyImageView { view: 201 },
            DriverCall::DestroyImageView { view: 202 },
            DriverCall::DestroyImage { image: 300 },
            DriverCall::DestroyImageView { view: 302 },
            DriverCall::FreeMemory { memory: 301 },
        ]
    );
    let mut calls = swapchain.clean_images();
    calls.push(DriverCall::DestroySwapchain { swapchain: 50 });
    calls.push(DriverCall::DestroySurface { surface: 7 });
    assert_eq!(swapchain.clean(), calls);
}

#[test]
fn depth_barrier_waits_in_every_stage_that_touches_depth() {
    let swapchain = swapchain();
    match &swapchain.depth_transition()[0] {
        Command::PipelineBarrier { dst_stage, .. } => {
            let early = ash::vk::PipelineStageFlags::EARLY_FRAGMENT_TESTS.as_raw();
            let late = ash::vk::PipelineStageFlags::LATE_FRAGMENT_TESTS.as_raw();
            assert_eq!(*dst_stage, early | late);
            assert_eq!(*dst_stage & early, early);
            assert_eq!(*dst_stage & late, late);
        }
        other => panic!("unexpected command {:?}", other),
    }
}

#[test]
fn resize_twice_gives_the_same_images_and_one_transition_each() {
    let device = device();
    let mut swapchain = swapchain();
    let mut context = Context::new(Ok(vec![40])).unwrap();
    let mut fence = Fence::new(Ok(30)).unwrap();
    swapchain.transition_depth_image(&device, &mut context, &mut fence, Ok(())).unwrap();
    let mut semaphore = Semaphore::new(Ok(20)).unwrap();
    swapchain.acquire_next_image_index(&mut semaphore, Ok((0, false))).unwrap();

    let mut seen = Vec::new();
    let mut transitions = 0;
    for round in 0..2u64 {
        let next = structures(1024, 768, 60 + round, 400 + 10 * round);
        let depth = next.depth_image.image;
        let done = swapchain.resize(&device, &mut context, &mut fence, next, Ok(()));
        assert_eq!(done, Ok(()));
        assert_eq!(swapchain.swapchain, 60 + round);
        assert_eq!(swapchain.image_states, vec![PresentImageState::Undefined; 3]);
        // The new depth image was moved to its layout, by exactly one barrier.
        assert_eq!(swapchain.depth_image.image, depth);
        assert_eq!(swapchain.depth_image.layout, ImageLayout::DepthStencil);
        assert_eq!(context.state, ContextState::Pending);
        assert_eq!(fence.state, FenceState::InFlight);
        assert_eq!(context.commands.len(), 1);
        match &context.commands[0] {
            Command::PipelineBarrier { image_barriers, .. } => {
                assert_eq!(image_barriers.len(), 1);
                assert_eq!(image_barriers[0].image, depth);
                assert_eq!(image_barriers[0].old_layout, ImageLayout::Undefined);
                assert_eq!(image_barriers[0].new_layout, ImageLayout::DepthStencil);
                transitions += image_barriers.len();
            }
            other => panic!("unexpected command {:?}", other),
        }
        assert_eq!(transitions as u64, round + 1);
        seen.push((swapchain.present_images.len(), swapchain.resolution()));
        // The surface and the choice of presentation mode stay.
        assert_eq!(swapchain.surface.raw, 7);
        assert!(!swapchain.use_vsync);
    }
    assert_eq!(seen[0], seen[1]);
    assert_eq!(seen[0], (3, Extent2D { width: 1024, height: 768 }));
}

#[test]
fn failed_transition_of_a_resize_leaves_the_new_depth_image_undefined() {
    let device = device();
    for index in 0..7 {
        let mut swapchain = swapchain();
        let mut context = Context::new(Ok(vec![40])).unwrap();
        let mut fence = Fence::new(Ok(30)).unwrap();
        let done = swapchain.resize(
            &device,
            &mut context,
            &mut fence,
            structures(1024, 768, 60, 400),
            Err(CallFailure { index, code: -4 }),
        );
        assert_eq!(done, Err(Error::Driver { code: -4 }));
        // The structures are taken up all the same.
        assert_eq!(swapchain.swapchain, 60);
        assert_eq!(swapchain.present_images, vec![400, 401, 402]);
        assert_eq!(swapchain.resolution(), Extent2D { width: 1024, height: 768 });
        assert_eq!(swapchain.depth_image.image, 600);
        assert_eq!(swapchain.depth_image.layout, ImageLayout::Undefined);
        assert_ne!(context.state, ContextState::Recording);
        assert_ne!(context.state, ContextState::Pending);
    }
}
