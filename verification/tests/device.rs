use easy_ash::command::Command;
use easy_ash::context::{Context, ContextState};
use easy_ash::descriptors::ShaderStage;
use easy_ash::device::{Device, DeviceCreationError, PhysicalDevice, QueueFamily};
use easy_ash::driver::{CallFailure, DriverCall, Extent2D, Rect2D};
use easy_ash::error::Error;
use easy_ash::mem::{
    find_memory_type_index, size_of_slice, MemoryRequirements, MemoryType,
    PhysicalDeviceMemoryProperties,
};
use easy_ash::pipeline::graphics_pipeline::GraphicsPipeline;
use easy_ash::pipeline::PipelineStages;
use easy_ash::push_constant::PushConstant;
use easy_ash::resources::buffer::Buffer;
use easy_ash::resources::image::{Image, ImageLayout, ImageType};
use easy_ash::surface::{Surface, SurfaceCapabilities, SurfaceData, SurfaceFormat};
use easy_ash::swapchain::Swapchain;
use easy_ash::sync::fence::{Fence, FenceState};
use easy_ash::sync::memory_barrier::{AccessMask, ImageMemoryBarrier};
use easy_ash::sync::semaphore::{Semaphore, SemaphoreState};

fn device() -> Device {
    Device::new(1, PhysicalDeviceMemoryProperties { memory_types: Vec::new() }, 2, 0, 3, 4)
}

fn recording() -> (Context, Fence) {
    let mut context = Context::new(Ok(vec![40])).unwrap();
    let mut fence = Fence::new(Ok(30)).unwrap();
    context.begin(&mut fence, Ok(())).unwrap();
    (context, fence)
}

fn family(queue_flags: u32, supports_surface: bool) -> QueueFamily {
    QueueFamily { queue_flags, supports_surface }
}

#[test]
fn picks_the_first_family_that_draws_and_presents() {
    let devices = vec![
        PhysicalDevice { p_device: 100, queue_families: vec![family(2, true), family(1, false)] },
        PhysicalDevice {
            p_device: 200,
            queue_families: vec![family(4, true), family(3, true), family(1, true)],
        },
        PhysicalDevice { p_device: 300, queue_families: vec![family(1, true)] },
    ];
    assert_eq!(Device::pick(&devices), Ok((200, 1)));
}

#[test]
fn a_family_suits_that_draws_and_presents() {
    assert!(QueueFamily::draws(1));
    assert!(QueueFamily::draws(0xf));
    assert!(!QueueFamily::draws(2));
    assert!(!QueueFamily::draws(0));
    assert!(family(1, true).is_suitable());
    assert!(family(7, true).is_suitable());
    assert!(!family(1, false).is_suitable());
    assert!(!family(6, true).is_suitable());
}

#[test]
fn picks_nothing_where_no_family_suits() {
    let devices = vec![
        PhysicalDevice { p_device: 100, queue_families: vec![family(2, true), family(1, false)] },
        PhysicalDevice { p_device: 200, queue_families: Vec::new() },
    ];
    assert_eq!(
        Device::pick(&devices),
        Err(Error::DeviceCreation(DeviceCreationError::NoSuitableDevice))
    );
    assert_eq!(
        Device::pick(&Vec::new()),
        Err(Error::DeviceCreation(DeviceCreationError::NoSuitableDevice))
    );
    assert_eq!(
        DeviceCreationError::NoSuitableDevice.message(),
        "no device found that fullfills all requirements"
    );
}

#[test]
fn device_is_created_with_one_queue_and_the_swapchain_extension() {
    let info = Device::create_info(3);
    assert_eq!(info.queue_family_index, 3);
    assert_eq!(info.queue_count, 1);
    assert_eq!(info.queue_index, 0);
    assert!(info.shader_clip_distance);
    assert_eq!(Device::extension_names(), vec!["VK_KHR_swapchain".to_string()]);
    assert_eq!(
        Device::extension_names()[0].as_bytes(),
        ash::extensions::khr::Swapchain::name().to_bytes()
    );
    let pool = Device::pool_create_info(3);
    assert_eq!(pool.flags, 2);
    assert_eq!(pool.queue_family_index, 3);
}

#[test]
fn device_keeps_what_it_is_made_of() {
    let device = device();
    assert_eq!(device.p_device, 1);
    assert_eq!(device.device, 2);
    assert_eq!(device.queue_family_index, 0);
    assert_eq!(device.present_queue, 3);
    assert_eq!(device.command_pool, 4);
    assert_eq!(
        device.clean(),
        vec![DriverCall::DestroyCommandPool { command_pool: 4 }, DriverCall::DestroyDevice]
    );
    assert_eq!(device.wait_idle_call(), DriverCall::DeviceWaitIdle);
    assert_eq!(device.wait_idle(Ok(())), Ok(()));
    assert_eq!(device.wait_idle(Err(-4)), Err(Error::Driver { code: -4 }));
}

#[test]
fn finds_the_first_memory_type_that_suits() {
    let properties = PhysicalDeviceMemoryProperties {
        memory_types: vec![
            MemoryType { property_flags: 0x1, heap_index: 0 },
            MemoryType { property_flags: 0x6, heap_index: 1 },
            MemoryType { property_flags: 0x7, heap_index: 1 },
            MemoryType { property_flags: 0xe, heap_index: 1 },
        ],
    };
    let requirements = |bits| MemoryRequirements { size: 64, alignment: 16, memory_type_bits: bits };
    // Host visible and coherent: types 1, 2 and 3 have both.
    assert_eq!(find_memory_type_index(&requirements(0b1111), &properties, 0x6), Some(1));
    assert_eq!(find_memory_type_index(&requirements(0b1100), &properties, 0x6), Some(2));
    assert_eq!(find_memory_type_index(&requirements(0b1000), &properties, 0x6), Some(3));
    // Device local: types 0 and 2.
    assert_eq!(find_memory_type_index(&requirements(0b1111), &properties, 0x1), Some(0));
    assert_eq!(find_memory_type_index(&requirements(0b1110), &properties, 0x1), Some(2));
    assert_eq!(find_memory_type_index(&requirements(0b1010), &properties, 0x1), None);
    assert_eq!(find_memory_type_index(&requirements(0), &properties, 0), None);
    // A bit beyond the types that the device has names nothing.
    assert_eq!(find_memory_type_index(&requirements(0b1_0000), &properties, 0), None);
    // No flag asked for: the first accepted type.
    assert_eq!(find_memory_type_index(&requirements(0b0100), &properties, 0), Some(2));
}

#[test]
fn finds_a_memory_type_at_the_last_index() {
    let mut memory_types = vec![MemoryType { property_flags: 0, heap_index: 0 }; 32];
    memory_types[31].property_flags = 0x1;
    let properties = PhysicalDeviceMemoryProperties { memory_types };
    let requirements = MemoryRequirements { size: 1, alignment: 1, memory_type_bits: u32::MAX };
    assert_eq!(find_memory_type_index(&requirements, &properties, 0x1), Some(31));
}

#[test]
fn size_of_slice_counts_bytes() {
    assert_eq!(size_of_slice(&[1u32, 2, 3]), 12);
    assert_eq!(size_of_slice(&[0u8; 13]), 13);
    assert_eq!(size_of_slice::<u64>(&[]), 0);
    assert_eq!(size_of_slice(&[(1u8, 2u32); 2]), 16);
}

#[test]
fn recorders_append_their_commands() {
    let device = device();
    let (mut context, _fence) = recording();
    let buffer = Buffer::with_size(9, 10, 64);
    device.bind_index_buffer(&mut context, &buffer);
    device.draw_indexed(&mut context, 6, 3);
    assert_eq!(
        context.commands,
        vec![
            Command::BindIndexBuffer { buffer: 9, buffer_offset: 0, index_type: 1 },
            Command::DrawIndexed {
                index_count: 3,
                instance_count: 1,
                first_index: 6,
                vertex_offset: 0,
                first_instance: 1,
            },
        ]
    );
    assert_eq!(context.state, ContextState::Recording);
}

#[test]
fn push_constant_carries_its_data() {
    let device = device();
    let (mut context, _fence) = recording();
    let pipeline = GraphicsPipeline { layout: 70, pipeline: 71 };
    let constant = PushConstant { stage: ShaderStage::Fragment, offset: 16, size: 4 };
    device.push_constant(&mut context, &pipeline, &constant, &[1, 2, 3, 4]);
    assert_eq!(
        context.commands,
        vec![Command::PushConstants {
            layout: 70,
            stage_flags: 0x10,
            offset: 16,
            data: vec![1, 2, 3, 4],
        }]
    );
}

#[test]
fn barriers_are_batched_into_one_command() {
    let device = device();
    let (mut context, _fence) = recording();
    let first = Image::new(1, 2, 3, ImageType::Color);
    let second = Image::new(4, 5, 6, ImageType::Depth);
    let barriers = [
        ImageMemoryBarrier::new(
            &first,
            AccessMask::Transfer,
            ImageLayout::Undefined,
            ImageLayout::TransferDest,
        ),
        ImageMemoryBarrier::new(
            &second,
            AccessMask::DepthStencil,
            ImageLayout::Undefined,
            ImageLayout::DepthStencil,
        ),
    ];
    device.pipeline_image_barrier(
        &mut context,
        PipelineStages::BottomOfPipe,
        PipelineStages::Transfer,
        &barriers,
    );
    assert_eq!(
        context.commands,
        vec![Command::PipelineBarrier {
            src_stage: 0x2000,
            dst_stage: 0x1000,
            dependency_flags: 0,
            image_barriers: barriers.to_vec(),
        }]
    );
}

fn executable() -> (Context, Fence) {
    let (mut context, fence) = recording();
    context.end(Ok(())).unwrap();
    (context, fence)
}

#[test]
fn submit_info_names_everything_in_order() {
    let device = device();
    let (context, fence) = executable();
    let waits = vec![
        Semaphore { semaphore: 20, state: SemaphoreState::Signaling },
        Semaphore { semaphore: 21, state: SemaphoreState::Signaling },
    ];
    let signals = vec![Semaphore::new(Ok(22)).unwrap()];
    let masks = vec![PipelineStages::ColorAttachmentOutput, PipelineStages::VertexInput];
    let info = device.submit_info(&context, &waits, &signals, &fence, &masks);
    assert_eq!(info.queue, 3);
    assert_eq!(info.wait_semaphores, vec![20, 21]);
    assert_eq!(info.wait_dst_stage_mask, vec![0x400, 0x4]);
    assert_eq!(info.command_buffers, vec![40]);
    assert_eq!(info.signal_semaphores, vec![22]);
    assert_eq!(info.fence, 30);
}

#[test]
fn submit_moves_context_fence_and_semaphores() {
    let device = device();
    let (mut context, mut fence) = executable();
    let mut waits = vec![Semaphore { semaphore: 20, state: SemaphoreState::Signaling }];
    let mut signals = vec![Semaphore::new(Ok(22)).unwrap(), Semaphore::new(Ok(23)).unwrap()];
    let masks = vec![PipelineStages::ColorAttachmentOutput];
    let done =
        device.queue_submit(&mut context, &mut waits, &mut signals, &mut fence, &masks, Ok(()));
    assert_eq!(done, Ok(()));
    assert_eq!(context.state, ContextState::Pending);
    assert_eq!(context.fence, 30);
    assert_eq!(fence.state, FenceState::InFlight);
    assert_eq!(waits[0].state, SemaphoreState::Idle);
    assert_eq!(waits[0].semaphore, 20);
    assert_eq!(signals[0].state, SemaphoreState::Signaling);
    assert_eq!(signals[1].state, SemaphoreState::Signaling);
    assert_eq!(signals[1].semaphore, 23);
}

#[test]
fn failed_submit_moves_nothing() {
    let device = device();
    let (mut context, mut fence) = executable();
    let mut waits = vec![Semaphore { semaphore: 20, state: SemaphoreState::Signaling }];
    let mut signals = vec![Semaphore::new(Ok(22)).unwrap()];
    let masks = vec![PipelineStages::ColorAttachmentOutput];
    let done =
        device.queue_submit(&mut context, &mut waits, &mut signals, &mut fence, &masks, Err(-4));
    assert_eq!(done, Err(Error::Driver { code: -4 }));
    assert_eq!(context.state, ContextState::Executable);
    assert_eq!(context.fence, 0);
    assert_eq!(fence.state, FenceState::Unsignaled);
    assert_eq!(waits[0].state, SemaphoreState::Signaling);
    assert_eq!(signals[0].state, SemaphoreState::Idle);
}

#[test]
fn record_and_submit_goes_all_the_way() {
    let device = device();
    let mut context = Context::new(Ok(vec![40])).unwrap();
    let mut fence = Fence::new(Ok(30)).unwrap();
    let body = vec![Command::EndRenderPass];
    let done = device.record_and_submit(&mut context, &mut fence, body.clone(), Ok(()));
    assert_eq!(done, Ok(()));
    assert_eq!(context.state, ContextState::Pending);
    assert_eq!(context.commands, body);
    assert_eq!(context.fence, 30);
    assert_eq!(fence.state, FenceState::InFlight);
}

#[test]
fn record_and_submit_stops_at_the_first_failure() {
    let device = device();
    for index in 0..8 {
        let mut context = Context::new(Ok(vec![40])).unwrap();
        let mut fence = Fence::new(Ok(30)).unwrap();
        let done = device.record_and_submit(
            &mut context,
            &mut fence,
            vec![Command::EndRenderPass],
            Err(CallFailure { index, code: -9 }),
        );
        assert_eq!(done, Err(Error::Driver { code: -9 }));
        assert_ne!(context.state, ContextState::Recording);
        assert_ne!(context.state, ContextState::Pending);
        if index >= 5 {
            assert_eq!(context.state, ContextState::Executable);
            assert_eq!(fence.state, FenceState::Unsignaled);
        } else {
            assert_eq!(context.state, ContextState::Initial);
        }
    }
}

#[test]
fn viewport_and_scissor_cover_the_swapchain() {
    let capabilities = SurfaceCapabilities {
        min_image_count: 2,
        max_image_count: 0,
        current_extent: Extent2D { width: 800, height: 600 },
        supported_transforms: 1,
        current_transform: 1,
    };
    let data =
        SurfaceData::new(&vec![SurfaceFormat { format: 44, color_space: 0 }], capabilities, 1, 1)
            .unwrap();
    let structures = Swapchain::create_swapchain_structures(
        data,
        50,
        vec![100, 101],
        vec![200, 201],
        Image::new(10, 11, 12, ImageType::Depth),
    )
    .unwrap();
    let swapchain = Swapchain::new(Surface::new(Ok(7)).unwrap(), structures, true);
    let device = device();
    let (mut context, _fence) = recording();
    device.set_viewport_and_scissor(&mut context, &swapchain);
    assert_eq!(
        context.commands,
        vec![
            Command::SetViewport { extent: Extent2D { width: 800, height: 600 } },
            Command::SetScissor {
                rect: Rect2D { x: 0, y: 0, extent: Extent2D { width: 800, height: 600 } },
            },
        ]
    );
}
