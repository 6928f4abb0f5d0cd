use easy_ash::command::Command;
use easy_ash::context::{Context, ContextState};
use easy_ash::driver::{CallFailure, DriverCall};
use easy_ash::error::Error;
use easy_ash::sync::fence::{Fence, FenceState};

fn new_context() -> Context {
    Context::new(Ok(vec![40])).unwrap()
}

fn draw(first_index: u32) -> Command {
    Command::DrawIndexed {
        index_count: 3,
        instance_count: 1,
        first_index,
        vertex_offset: 0,
        first_instance: 1,
    }
}

#[test]
fn context_allocates_one_primary_buffer() {
    let info = Context::allocate_info(17);
    assert_eq!(info.command_pool, 17);
    assert_eq!(info.level, 0);
    assert_eq!(info.command_buffer_count, 1);
}

#[test]
fn new_context_is_initial() {
    let context = Context::new(Ok(vec![40, 41])).unwrap();
    assert_eq!(context.command_buffer, 40);
    assert_eq!(context.state, ContextState::Initial);
    assert!(context.commands.is_empty());
    assert_eq!(context.fence, 0);
}

#[test]
fn context_creation_fails_with_the_driver_or_without_a_buffer() {
    assert_eq!(Context::new(Err(-2)).unwrap_err(), Error::Driver { code: -2 });
    assert_eq!(Context::new(Ok(Vec::new())).unwrap_err(), Error::UnexpectedCount);
}

#[test]
fn begin_waits_on_the_fence_before_it_touches_the_buffer() {
    let context = new_context();
    let fence = Fence::new(Ok(30)).unwrap();
    let calls = context.begin_calls(&fence);
    assert_eq!(
        calls,
        vec![
            DriverCall::WaitForFences { fence: 30, wait_all: true, timeout: u64::MAX },
            DriverCall::ResetFences { fence: 30 },
            DriverCall::ResetCommandBuffer { command_buffer: 40, flags: 1 },
            DriverCall::BeginCommandBuffer { command_buffer: 40, flags: 1 },
        ]
    );
    let wait = calls
        .iter()
        .position(|call| matches!(call, DriverCall::WaitForFences { .. }))
        .unwrap();
    let first_on_buffer = calls
        .iter()
        .position(|call| {
            matches!(
                call,
                DriverCall::ResetCommandBuffer { .. } | DriverCall::BeginCommandBuffer { .. }
            )
        })
        .unwrap();
    assert!(wait < first_on_buffer);
}

#[test]
fn begin_starts_the_recording_and_resets_the_fence() {
    let mut context = new_context();
    let mut fence = Fence::new(Ok(30)).unwrap();
    assert_eq!(context.begin(&mut fence, Ok(())), Ok(()));
    assert_eq!(context.state, ContextState::Recording);
    assert_eq!(fence.state, FenceState::Unsignaled);
    assert!(context.commands.is_empty());
    assert_eq!(context.command_buffer, 40);
}

#[test]
fn failed_wait_leaves_a_pending_context_pending() {
    let mut context = Context {
        command_buffer: 40,
        state: ContextState::Pending,
        commands: vec![draw(0)],
        fence: 30,
    };
    let mut fence = Fence { fence: 30, state: FenceState::InFlight };
    let done = context.begin(&mut fence, Err(CallFailure { index: 0, code: -4 }));
    assert_eq!(done, Err(Error::Driver { code: -4 }));
    assert_eq!(context.state, ContextState::Pending);
    assert_eq!(context.commands, vec![draw(0)]);
    assert_eq!(context.fence, 30);
    assert_eq!(fence.state, FenceState::InFlight);
}

#[test]
fn failed_fence_reset_leaves_the_context_initial() {
    let mut context = Context {
        command_buffer: 40,
        state: ContextState::Pending,
        commands: vec![draw(0)],
        fence: 30,
    };
    let mut fence = Fence { fence: 30, state: FenceState::InFlight };
    let done = context.begin(&mut fence, Err(CallFailure { index: 1, code: -1 }));
    assert_eq!(done, Err(Error::Driver { code: -1 }));
    assert_eq!(context.state, ContextState::Initial);
    assert_eq!(context.commands, vec![draw(0)]);
    assert_eq!(context.fence, 0);
    assert_eq!(fence.state, FenceState::Signaled);
}

#[test]
fn failed_buffer_reset_keeps_an_executable_context() {
    let mut context = Context {
        command_buffer: 40,
        state: ContextState::Executable,
        commands: vec![draw(1)],
        fence: 0,
    };
    let mut fence = Fence::new(Ok(30)).unwrap();
    let done = context.begin(&mut fence, Err(CallFailure { index: 2, code: -2 }));
    assert_eq!(done, Err(Error::Driver { code: -2 }));
    assert_eq!(context.state, ContextState::Executable);
    assert_eq!(context.commands, vec![draw(1)]);
    assert_eq!(fence.state, FenceState::Unsignaled);
}

#[test]
fn failed_buffer_begin_leaves_the_context_initial_and_empty() {
    let mut context = Context {
        command_buffer: 40,
        state: ContextState::Executable,
        commands: vec![draw(1)],
        fence: 0,
    };
    let mut fence = Fence::new(Ok(30)).unwrap();
    let done = context.begin(&mut fence, Err(CallFailure { index: 3, code: -3 }));
    assert_eq!(done, Err(Error::Driver { code: -3 }));
    assert_eq!(context.state, ContextState::Initial);
    assert!(context.commands.is_empty());
    assert_eq!(fence.state, FenceState::Unsignaled);
    // An index beyond the last call counts as the last.
    let mut context = new_context();
    let mut fence = Fence::new(Ok(30)).unwrap();
    let done = context.begin(&mut fence, Err(CallFailure { index: 9, code: -3 }));
    assert_eq!(done, Err(Error::Driver { code: -3 }));
    assert_eq!(context.state, ContextState::Initial);
}

#[test]
fn commands_are_buffered_in_order() {
    let mut context = new_context();
    let mut fence = Fence::new(Ok(30)).unwrap();
    context.begin(&mut fence, Ok(())).unwrap();
    context.push(draw(0));
    context.push(draw(3));
    context.extend(vec![draw(6), Command::EndRenderPass]);
    assert_eq!(context.commands, vec![draw(0), draw(3), draw(6), Command::EndRenderPass]);
    assert_eq!(context.state, ContextState::Recording);
}

#[test]
fn end_closes_the_recording() {
    let mut context = new_context();
    let mut fence = Fence::new(Ok(30)).unwrap();
    context.begin(&mut fence, Ok(())).unwrap();
    context.push(draw(0));
    assert_eq!(context.end_call(), DriverCall::EndCommandBuffer { command_buffer: 40 });
    assert_eq!(context.end(Ok(())), Ok(()));
    assert_eq!(context.state, ContextState::Executable);
    assert_eq!(context.commands, vec![draw(0)]);
}

#[test]
fn failed_end_puts_the_context_back() {
    let mut context = new_context();
    let mut fence = Fence::new(Ok(30)).unwrap();
    context.begin(&mut fence, Ok(())).unwrap();
    assert_eq!(context.end(Err(-1)), Err(Error::Driver { code: -1 }));
    assert_eq!(context.state, ContextState::Initial);
}

#[test]
fn begins_and_ends_are_as_many() {
    let mut context = new_context();
    let mut fence = Fence::new(Ok(30)).unwrap();
    let mut begins = 0;
    let mut ends = 0;
    for round in 0..4 {
        context.begin(&mut fence, Ok(())).unwrap();
        begins += 1;
        assert_eq!(begins, ends + 1);
        context.push(draw(round));
        context.end(Ok(())).unwrap();
        ends += 1;
        assert_eq!(begins, ends);
        assert_ne!(context.state, ContextState::Recording);
        context.submitted(fence.fence);
        fence.attach();
        assert_eq!(context.state, ContextState::Pending);
        assert_eq!(context.fence, 30);
    }
    assert_eq!(begins, 4);
    assert_eq!(ends, 4);
}

#[test]
fn record_runs_begin_body_end() {
    let mut context = new_context();
    let mut fence = Fence::new(Ok(30)).unwrap();
    let calls = context.record_calls(&fence);
    assert_eq!(calls.len(), 5);
    assert_eq!(&calls[..4], &context.begin_calls(&fence)[..]);
    assert_eq!(calls[4], DriverCall::EndCommandBuffer { command_buffer: 40 });
    let done = context.record(&mut fence, vec![draw(0), draw(3)], Ok(()));
    assert_eq!(done, Ok(()));
    assert_eq!(context.state, ContextState::Executable);
    assert_eq!(context.commands, vec![draw(0), draw(3)]);
    assert_eq!(fence.state, FenceState::Unsignaled);
}

#[test]
fn record_never_leaves_the_context_recording() {
    for index in 0..7 {
        let mut context = new_context();
        let mut fence = Fence::new(Ok(30)).unwrap();
        let done = context.record(&mut fence, vec![draw(0)], Err(CallFailure { index, code: -7 }));
        assert_eq!(done, Err(Error::Driver { code: -7 }));
        assert_ne!(context.state, ContextState::Recording, "failure at {}", index);
        assert_eq!(context.state, ContextState::Initial);
        if index >= 4 {
            assert_eq!(context.commands, vec![draw(0)]);
        } else {
            assert!(context.commands.is_empty());
        }
        let expected = match index {
            0 | 1 => FenceState::Signaled,
            _ => FenceState::Unsignaled,
        };
        assert_eq!(fence.state, expected, "failure at {}", index);
    }
}
