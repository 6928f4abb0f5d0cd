//! The device: the choice of its queue family, what is recorded through it,
//! and the one path by which work reaches its queue.
use crate::command::{views_of, Command, CommandView, INDEX_TYPE_UINT32};
use crate::context::{Context, ContextOp, ContextState};
use crate::driver::{
    CallFailure, DriverCall, Rect2D, COMMAND_POOL_CREATE_RESET_COMMAND_BUFFER, NULL_HANDLE,
};
use crate::error::Error;
use crate::mem::PhysicalDeviceMemoryProperties;
use crate::pipeline::graphics_pipeline::GraphicsPipeline;
use crate::pipeline::PipelineStages;
use crate::push_constant::PushConstant;
use crate::resources::buffer::Buffer;
use crate::swapchain::Swapchain;
use crate::sync::fence::{Fence, FenceState};
use crate::sync::memory_barrier::ImageMemoryBarrier;
use crate::sync::semaphore::{
    all_in_state, consume_all, handles_of, semaphore_handles, signal_all, Semaphore, SemaphoreState,
};
use vstd::prelude::*;
use vstd::slice::slice_to_vec;

verus! {

/// A queue family that draws.
pub const QUEUE_GRAPHICS: u32 = 0x1;

/// Why no device could be chosen.
#[derive(Debug, Copy, Clone, PartialEq, Eq, Structural)]
pub enum DeviceCreationError {
    /// No physical device has a queue family that draws and presents to the
    /// surface.
    NoSuitableDevice,
}

impl DeviceCreationError {
    /// The error in words.
    pub fn message(&self) -> (message: String)
        ensures
            message@ == "no device found that fullfills all requirements"@,
    {
        match self {
            DeviceCreationError::NoSuitableDevice => {
                "no device found that fullfills all requirements".to_owned()
            },
        }
    }
}

/// One queue family of a physical device.
#[derive(Debug, Copy, Clone, PartialEq, Eq, Structural)]
pub struct QueueFamily {
    pub queue_flags: u32,
    /// Whether the family presents to the surface.
    pub supports_surface: bool,
}

impl QueueFamily {
    /// Whether a family with the flags `queue_flags` draws.
    pub open spec fn spec_draws(queue_flags: u32) -> bool {
        queue_flags & QUEUE_GRAPHICS == QUEUE_GRAPHICS
    }

    /// Whether the family both draws and presents to the surface.
    pub open spec fn suits(self) -> bool {
        QueueFamily::spec_draws(self.queue_flags) && self.supports_surface
    }

    /// Whether a family with the flags `queue_flags` draws. Only of such a
    /// family need the surface be asked whether it presents to it.
    #[verifier::when_used_as_spec(spec_draws)]
    pub fn draws(queue_flags: u32) -> (b: bool)
        ensures
            b == QueueFamily::spec_draws(queue_flags),
    {
        queue_flags & QUEUE_GRAPHICS == QUEUE_GRAPHICS
    }

    /// Whether the family both draws and presents to the surface: where it
    /// does, the search for a device ends with it.
    pub fn is_suitable(&self) -> (b: bool)
        ensures
            b == self.suits(),
    {
        QueueFamily::draws(self.queue_flags) && self.supports_surface
    }
}

/// A physical device with its queue families, in the driver's order.
#[derive(Debug, PartialEq, Eq)]
pub struct PhysicalDevice {
    pub p_device: u64,
    pub queue_families: Vec<QueueFamily>,
}

/// Whether family `family` of device `device` of `devices` both draws and
/// presents to the surface.
pub open spec fn family_suits(devices: Seq<PhysicalDevice>, device: int, family: int) -> bool {
    &&& 0 <= device < devices.len()
    &&& 0 <= family < devices[device].queue_families@.len()
    &&& devices[device].queue_families@[family].suits()
}

/// Whether `choice` names device `device` of `devices` by its handle, with a
/// family of it that suits, where no earlier device has a family that suits,
/// and no earlier family of this device does.
pub open spec fn is_first_choice(
    devices: Seq<PhysicalDevice>,
    device: int,
    choice: (u64, u32),
) -> bool {
    &&& family_suits(devices, device, choice.1 as int)
    &&& devices[device].p_device == choice.0
    &&& forall|e: int, f: int| e < device ==> !family_suits(devices, e, f)
    &&& forall|f: int| f < choice.1 ==> !family_suits(devices, device, f)
}

/// The name of the swapchain extension, from
/// `ash::extensions::khr::Swapchain::name`, which holds it as a C string.
#[verifier::external_body]
fn swapchain_extension_name() -> (name: String)
    ensures
        name@ == "VK_KHR_swapchain"@,
{
    ash::extensions::khr::Swapchain::name().to_string_lossy().into_owned()
}

/// What the driver is asked to create the device with, beside its
/// extensions: one queue of the family, at the highest priority, and clip
/// distances in shaders. The queue that work is submitted to and images are
/// presented on is the one at `queue_index` of the family.
#[derive(Debug, Copy, Clone, PartialEq, Eq, Structural)]
pub struct DeviceCreateInfo {
    pub queue_family_index: u32,
    pub queue_count: u32,
    pub queue_index: u32,
    pub shader_clip_distance: bool,
}

/// What the driver is asked to create the command pool with.
#[derive(Debug, Copy, Clone, PartialEq, Eq, Structural)]
pub struct CommandPoolCreateInfo {
    pub flags: u32,
    pub queue_family_index: u32,
}

/// One batch for the queue.
#[derive(Debug, PartialEq, Eq)]
pub struct SubmitInfo {
    pub queue: u64,
    pub wait_semaphores: Vec<u64>,
    pub wait_dst_stage_mask: Vec<u32>,
    pub command_buffers: Vec<u64>,
    pub signal_semaphores: Vec<u64>,
    pub fence: u64,
}

/// The stage masks of `stages`, in order.
pub open spec fn masks_of(stages: Seq<PipelineStages>) -> Seq<u32> {
    Seq::new(stages.len(), |i: int| stages[i].mask())
}

/// The logical device with its one queue and its command pool.
#[derive(Debug, PartialEq, Eq)]
pub struct Device {
    pub p_device: u64,
    pub memory_properties: PhysicalDeviceMemoryProperties,
    pub device: u64,
    pub queue_family_index: u32,
    pub present_queue: u64,
    pub command_pool: u64,
}

/// The first family of `families` that both draws and presents to the
/// surface.
fn first_family(families: &Vec<QueueFamily>) -> (found: Option<u32>)
    requires
        families@.len() <= u32::MAX,
    ensures
        match found {
            Some(family) => {
                &&& family < families@.len()
                &&& families@[family as int].suits()
                &&& forall|g: int| 0 <= g < family ==> !(#[trigger] families@[g]).suits()
            },
            None => forall|g: int| 0 <= g < families@.len() ==> !(#[trigger] families@[g]).suits(),
        },
{
    let mut f: usize = 0;
    while f < families.len()
        invariant
            families@.len() <= u32::MAX,
            f <= families@.len(),
            forall|g: int| 0 <= g < f ==> !(#[trigger] families@[g]).suits(),
        decreases families@.len() - f,
    {
        let family = families[f];
        if family.is_suitable() {
            return Some(f as u32);
        }
        f += 1;
    }
    None
}

impl Device {
    /// Chooses the physical device and its queue family: the first device, in
    /// the driver's order, that has a family which both draws and presents to
    /// the surface, and the first such family of it. Fails where no device
    /// has one.
    pub fn pick(devices: &Vec<PhysicalDevice>) -> (choice: Result<(u64, u32), Error>)
        requires
            forall|d: int|
                0 <= d < devices@.len() ==> (#[trigger] devices@[d]).queue_families@.len()
                    <= u32::MAX,
        ensures
            choice matches Ok(chosen) ==> exists|at: int| is_first_choice(devices@, at, chosen),
            choice matches Err(error) ==> {
                &&& error == Error::DeviceCreation(DeviceCreationError::NoSuitableDevice)
                &&& forall|at: int, of: int| !family_suits(devices@, at, of)
            },
    {
        let mut d: usize = 0;
        while d < devices.len()
            invariant
                d <= devices@.len(),
                forall|e: int|
                    0 <= e < devices@.len() ==> (#[trigger] devices@[e]).queue_families@.len()
                        <= u32::MAX,
                forall|e: int, f: int| e < d ==> !family_suits(devices@, e, f),
            decreases devices@.len() - d,
        {
            match first_family(&devices[d].queue_families) {
                Some(family) => {
                    let p_device: u64 = devices[d].p_device;
                    let pair: (u64, u32) = (p_device, family);
                    let choice: Result<(u64, u32), Error> = Ok(pair);
                    assert(is_first_choice(devices@, d as int, choice->Ok_0));
                    return choice;
                },
                None => {},
            }
            d += 1;
        }
        Err(Error::DeviceCreation(DeviceCreationError::NoSuitableDevice))
    }

    /// What the driver is asked to create the device with.
    pub fn create_info(queue_family_index: u32) -> (info: DeviceCreateInfo)
        ensures
            info == (DeviceCreateInfo {
                queue_family_index,
                queue_count: 1,
                queue_index: 0,
                shader_clip_distance: true,
            }),
    {
        DeviceCreateInfo {
            queue_family_index,
            queue_count: 1,
            queue_index: 0,
            shader_clip_distance: true,
        }
    }

    /// The extensions to create the device with: the one of the swapchain.
    pub fn extension_names() -> (names: Vec<String>)
        ensures
            names@.len() == 1,
            names@[0]@ == "VK_KHR_swapchain"@,
    {
        let names = vec![swapchain_extension_name()];
        names
    }

    /// What the driver is asked to create the command pool with: each buffer
    /// of the pool can be reset by itself.
    pub fn pool_create_info(queue_family_index: u32) -> (info: CommandPoolCreateInfo)
        ensures
            info == (CommandPoolCreateInfo {
                flags: COMMAND_POOL_CREATE_RESET_COMMAND_BUFFER,
                queue_family_index,
            }),
    {
        CommandPoolCreateInfo {
            flags: COMMAND_POOL_CREATE_RESET_COMMAND_BUFFER,
            queue_family_index,
        }
    }

    /// The device made of what the driver created.
    pub fn new(
        p_device: u64,
        memory_properties: PhysicalDeviceMemoryProperties,
        device: u64,
        queue_family_index: u32,
        present_queue: u64,
        command_pool: u64,
    ) -> (made: Device)
        ensures
            made == (Device {
                p_device,
                memory_properties,
                device,
                queue_family_index,
                present_queue,
                command_pool,
            }),
    {
        Device {
            p_device,
            memory_properties,
            device,
            queue_family_index,
            present_queue,
            command_pool,
        }
    }

    /// Records the viewport and the scissor rectangle that cover the images of
    /// `swapchain`, in this order.
    pub fn set_viewport_and_scissor(&self, context: &mut Context, swapchain: &Swapchain)
        requires
            old(context).state == ContextState::Recording,
        ensures
            final(context).commands@ =~= old(context).commands@.push(
                Command::SetViewport { extent: swapchain.surface_data.resolution },
            ).push(
                Command::SetScissor { rect: Rect2D::covering(swapchain.surface_data.resolution) },
            ),
            final(context).command_buffer == old(context).command_buffer,
            final(context).state == ContextState::Recording,
            final(context).fence == old(context).fence,
    {
        context.push(Command::SetViewport { extent: swapchain.resolution() });
        context.push(Command::SetScissor { rect: swapchain.scissor() });
    }

    /// Records the binding of `buffer` as the index buffer, from its start,
    /// with indices of 32 bits.
    pub fn bind_index_buffer(&self, context: &mut Context, buffer: &Buffer)
        requires
            old(context).state == ContextState::Recording,
        ensures
            final(context).commands@ =~= old(context).commands@.push(
                Command::BindIndexBuffer {
                    buffer: buffer.buffer,
                    buffer_offset: 0,
                    index_type: INDEX_TYPE_UINT32,
                },
            ),
            final(context).command_buffer == old(context).command_buffer,
            final(context).state == ContextState::Recording,
            final(context).fence == old(context).fence,
    {
        context.push(
            Command::BindIndexBuffer {
                buffer: buffer.buffer,
                buffer_offset: 0,
                index_type: INDEX_TYPE_UINT32,
            },
        );
    }

    /// Records one indexed draw of `index_count` indices from `first_index`
    /// on: one instance, numbered one, with no offset added to the indices.
    pub fn draw_indexed(&self, context: &mut Context, first_index: u32, index_count: u32)
        requires
            old(context).state == ContextState::Recording,
        ensures
            final(context).commands@ =~= old(context).commands@.push(
                Command::DrawIndexed {
                    index_count,
                    instance_count: 1,
                    first_index,
                    vertex_offset: 0,
                    first_instance: 1,
                },
            ),
            final(context).command_buffer == old(context).command_buffer,
            final(context).state == ContextState::Recording,
            final(context).fence == old(context).fence,
    {
        context.push(
            Command::DrawIndexed {
                index_count,
                instance_count: 1,
                first_index,
                vertex_offset: 0,
                first_instance: 1,
            },
        );
    }

    /// Records the update of the push constants of `push_constant` with
    /// `data`, for the layout of `pipeline`.
    pub fn push_constant(
        &self,
        context: &mut Context,
        pipeline: &GraphicsPipeline,
        push_constant: &PushConstant,
        data: &[u8],
    )
        requires
            old(context).state == ContextState::Recording,
        ensures
            final(context).commands@.len() == old(context).commands@.len() + 1,
            final(context).commands@.drop_last() == old(context).commands@,
            final(context).commands@.last()@ == (CommandView::PushConstants {
                layout: pipeline.layout,
                stage_flags: push_constant.stage.spec_bits(),
                offset: push_constant.offset,
                data: data@,
            }),
            final(context).command_buffer == old(context).command_buffer,
            final(context).state == ContextState::Recording,
            final(context).fence == old(context).fence,
    {
        let bytes: Vec<u8> = slice_to_vec(data);
        context.push(
            Command::PushConstants {
                layout: pipeline.layout,
                stage_flags: push_constant.stage.bits(),
                offset: push_constant.offset,
                data: bytes,
            },
        );
        assert(context.commands@.drop_last() =~= old(context).commands@);
    }

    /// Records one pipeline barrier that holds all of `image_barriers`, from
    /// the stages of `src_stage` to those of `dst_stage`, with no dependency
    /// flag.
    pub fn pipeline_image_barrier(
        &self,
        context: &mut Context,
        src_stage: PipelineStages,
        dst_stage: PipelineStages,
        image_barriers: &[ImageMemoryBarrier],
    )
        requires
            old(context).state == ContextState::Recording,
        ensures
            final(context).commands@.len() == old(context).commands@.len() + 1,
            final(context).commands@.drop_last() == old(context).commands@,
            final(context).commands@.last()@ == (CommandView::PipelineBarrier {
                src_stage: src_stage.mask(),
                dst_stage: dst_stage.mask(),
                dependency_flags: 0,
                image_barriers: image_barriers@,
            }),
            final(context).command_buffer == old(context).command_buffer,
            final(context).state == ContextState::Recording,
            final(context).fence == old(context).fence,
    {
        let barriers: Vec<ImageMemoryBarrier> = slice_to_vec(image_barriers);
        context.push(
            Command::PipelineBarrier {
                src_stage: src_stage.bits(),
                dst_stage: dst_stage.bits(),
                dependency_flags: 0,
                image_barriers: barriers,
            },
        );
        assert(context.commands@.drop_last() =~= old(context).commands@);
    }

    /// The batch that `queue_submit` hands to the queue: the context's
    /// command buffer, the semaphores to wait on, each with the stage of this
    /// batch that waits for it, the semaphores to signal, and the fence.
    pub fn submit_info(
        &self,
        context: &Context,
        wait_semaphores: &Vec<Semaphore>,
        signal_semaphores: &Vec<Semaphore>,
        fence: &Fence,
        wait_mask: &Vec<PipelineStages>,
    ) -> (info: SubmitInfo)
        ensures
            info.queue == self.present_queue,
            info.wait_semaphores@ == handles_of(wait_semaphores@),
            info.wait_dst_stage_mask@ == masks_of(wait_mask@),
            info.command_buffers@ == seq![context.command_buffer],
            info.signal_semaphores@ == handles_of(signal_semaphores@),
            info.fence == fence.fence,
    {
        let mut masks: Vec<u32> = Vec::new();
        let mut i: usize = 0;
        while i < wait_mask.len()
            invariant
                i <= wait_mask@.len(),
                masks@ == masks_of(wait_mask@.take(i as int)),
            decreases wait_mask@.len() - i,
        {
            masks.push(wait_mask[i].bits());
            i += 1;
            assert(masks@ =~= masks_of(wait_mask@.take(i as int)));
        }
        assert(wait_mask@.take(i as int) =~= wait_mask@);
        let command_buffers = vec![context.command_buffer];
        SubmitInfo {
            queue: self.present_queue,
            wait_semaphores: semaphore_handles(wait_semaphores),
            wait_dst_stage_mask: masks,
            command_buffers,
            signal_semaphores: semaphore_handles(signal_semaphores),
            fence: fence.fence,
        }
    }

    /// Whether `queue_submit` may be called: the context is executable, each
    /// wait semaphore has its stage and a signal outstanding, each signal
    /// semaphore is idle, and the fence is unsignaled and unattached.
    pub open spec fn may_submit(
        context: &Context,
        wait_semaphores: &Vec<Semaphore>,
        signal_semaphores: &Vec<Semaphore>,
        fence: &Fence,
        wait_mask: &Vec<PipelineStages>,
    ) -> bool {
        &&& context.state == ContextState::Executable
        &&& wait_mask@.len() == wait_semaphores@.len()
        &&& all_in_state(wait_semaphores@, SemaphoreState::Signaling)
        &&& all_in_state(signal_semaphores@, SemaphoreState::Idle)
        &&& fence.state == FenceState::Unsignaled
    }

    /// Takes the driver's answer to the submission of `submit_info`. After a
    /// success the context is pending under `fence`, the fence is in flight,
    /// every wait semaphore's signal is consumed, and every signal semaphore
    /// has a signal outstanding. A failure is handed on and leaves all of
    /// them as they were: nothing went to the queue.
    ///
    /// See `may_submit` for what must hold before.
    pub fn queue_submit(
        &self,
        context: &mut Context,
        wait_semaphores: &mut Vec<Semaphore>,
        signal_semaphores: &mut Vec<Semaphore>,
        fence: &mut Fence,
        wait_mask: &Vec<PipelineStages>,
        reply: Result<(), i32>,
    ) -> (done: Result<(), Error>)
        requires
            Device::may_submit(
                old(context),
                old(wait_semaphores),
                old(signal_semaphores),
                old(fence),
                wait_mask,
            ),
        ensures
            final(context).command_buffer == old(context).command_buffer,
            final(context).commands == old(context).commands,
            final(fence).fence == old(fence).fence,
            final(wait_semaphores)@.len() == old(wait_semaphores)@.len(),
            final(signal_semaphores)@.len() == old(signal_semaphores)@.len(),
            handles_of(final(wait_semaphores)@) == handles_of(old(wait_semaphores)@),
            handles_of(final(signal_semaphores)@) == handles_of(old(signal_semaphores)@),
            match reply {
                Ok(_) => {
                    &&& done is Ok
                    &&& Some(final(context).state) == old(context).state.step(ContextOp::Submit)
                    &&& final(context).fence == old(fence).fence
                    &&& final(fence).state == FenceState::InFlight
                    &&& all_in_state(final(wait_semaphores)@, SemaphoreState::Idle)
                    &&& all_in_state(final(signal_semaphores)@, SemaphoreState::Signaling)
                },
                Err(code) => {
                    &&& done == Err::<(), Error>(Error::Driver { code })
                    &&& *final(context) == *old(context)
                    &&& *final(fence) == *old(fence)
                    &&& *final(wait_semaphores) == *old(wait_semaphores)
                    &&& *final(signal_semaphores) == *old(signal_semaphores)
                },
            },
    {
        match reply {
            Ok(_) => {
                context.submitted(fence.fence);
                fence.attach();
                consume_all(wait_semaphores);
                signal_all(signal_semaphores);
                Ok(())
            },
            Err(code) => Err(Error::Driver { code }),
        }
    }

    /// The context and the fence after a recording and submission of `body`
    /// whose call `index` failed: as after a failed recording where the
    /// recording failed; else the submission failed, nothing went to the
    /// queue, and the context holds the body and is executable.
    pub open spec fn record_and_submit_failed(
        before: &Context,
        fence_before: &Fence,
        after: &Context,
        fence_after: &Fence,
        body: Seq<CommandView>,
        index: usize,
    ) -> bool {
        if index < 5 {
            Context::record_failed(before, fence_before, after, fence_after, body, index)
        } else {
            &&& after.command_buffer == before.command_buffer
            &&& after.state == ContextState::Executable
            &&& views_of(after.commands@) == body
            &&& after.fence == NULL_HANDLE
            &&& fence_after.fence == fence_before.fence
            &&& fence_after.state == FenceState::Unsignaled
        }
    }

    /// Records `body` into `context` and submits it at once, with no
    /// semaphore and with `fence`. Takes the outcome of the calls, in order:
    /// those of the context's `record_calls`, then the submission of
    /// `submit_info`. An index beyond the last call counts as the last.
    ///
    /// After a success the context is pending under the fence and holds
    /// exactly `body`, and the fence is in flight. A failure is handed on: a
    /// failure while recording leaves context and fence as the context's
    /// `record` does, a failure of the submission leaves the context
    /// executable. On no path is the context left recording.
    ///
    /// What the context's `begin` asks of the context and the fence is asked
    /// here too.
    pub fn record_and_submit(
        &self,
        context: &mut Context,
        fence: &mut Fence,
        body: Vec<Command>,
        outcome: Result<(), CallFailure>,
    ) -> (done: Result<(), Error>)
        requires
            old(context).may_begin(old(fence)),
        ensures
            final(context).state != ContextState::Recording,
            match outcome {
                Ok(_) => {
                    &&& done is Ok
                    &&& final(context).command_buffer == old(context).command_buffer
                    &&& final(context).state == ContextState::Pending
                    &&& final(context).fence == old(fence).fence
                    &&& final(context).commands == body
                    &&& final(fence).fence == old(fence).fence
                    &&& final(fence).state == FenceState::InFlight
                },
                Err(failure) => {
                    &&& done == Err::<(), Error>(Error::Driver { code: failure.code })
                    &&& Device::record_and_submit_failed(
                        old(context),
                        old(fence),
                        final(context),
                        final(fence),
                        views_of(body@),
                        failure.index,
                    )
                },
            },
    {
        let record_outcome: Result<(), CallFailure> = match outcome {
            Err(failure) => if failure.index < 5 {
                Err(failure)
            } else {
                Ok(())
            },
            Ok(_) => Ok(()),
        };
        match context.record(fence, body, record_outcome) {
            Err(e) => {
                return Err(e);
            },
            Ok(_) => {},
        }
        let submit_reply: Result<(), i32> = match outcome {
            Err(failure) => Err(failure.code),
            Ok(_) => Ok(()),
        };
        let mut wait_semaphores: Vec<Semaphore> = Vec::new();
        let mut signal_semaphores: Vec<Semaphore> = Vec::new();
        let wait_mask: Vec<PipelineStages> = Vec::new();
        self.queue_submit(
            context,
            &mut wait_semaphores,
            &mut signal_semaphores,
            fence,
            &wait_mask,
            submit_reply,
        )
    }

    /// The call that blocks until the device is idle.
    pub fn wait_idle_call(&self) -> (call: DriverCall)
        ensures
            call == DriverCall::DeviceWaitIdle,
    {
        DriverCall::DeviceWaitIdle
    }

    /// Takes the driver's answer to `wait_idle_call`: a failure is handed on.
    pub fn wait_idle(&self, reply: Result<(), i32>) -> (done: Result<(), Error>)
        ensures
            match reply {
                Ok(_) => done is Ok,
                Err(code) => done == Err::<(), Error>(Error::Driver { code }),
            },
    {
        match reply {
            Ok(_) => Ok(()),
            Err(code) => Err(Error::Driver { code }),
        }
    }

    /// Gives the device up: the calls that destroy its command pool, then the
    /// device itself.
    pub fn clean(&self) -> (calls: Vec<DriverCall>)
        ensures
            calls@ == seq![
                DriverCall::DestroyCommandPool { command_pool: self.command_pool },
                DriverCall::DestroyDevice,
            ],
    {
        let calls = vec![
            DriverCall::DestroyCommandPool { command_pool: self.command_pool },
            DriverCall::DestroyDevice,
        ];
        calls
    }
}

} // verus!
