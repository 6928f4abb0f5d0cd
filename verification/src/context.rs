//! The command context: one reusable command buffer, its begin, record, end
//! lifecycle, and the fence that gates its reuse.
use crate::command::{views_of, Command, CommandView};
use crate::driver::{
    performed, CallFailure, DriverCall, COMMAND_BUFFER_LEVEL_PRIMARY,
    COMMAND_BUFFER_RESET_RELEASE_RESOURCES, COMMAND_BUFFER_USAGE_ONE_TIME_SUBMIT, NO_TIMEOUT,
    NULL_HANDLE,
};
use crate::error::Error;
use crate::sync::fence::{Fence, FenceState};
use vstd::prelude::*;

verus! {

/// Where a context stands in its lifecycle.
#[derive(Debug, Copy, Clone, PartialEq, Eq, Structural)]
pub enum ContextState {
    /// Nothing is recorded, and the device holds no work of the context.
    Initial,
    /// Commands are being recorded.
    Recording,
    /// The recording is closed and may be submitted.
    Executable,
    /// The recording went to the queue, and the device may still read it.
    Pending,
}

/// One of the operations that move a context through its lifecycle.
#[derive(Debug, Copy, Clone, PartialEq, Eq, Structural)]
pub enum ContextOp {
    Begin,
    End,
    Submit,
}

impl ContextState {
    /// The state after `op`, where `op` is legal in this state. A context
    /// that is recording cannot begin again; only a recording can be ended;
    /// only a closed recording can be submitted.
    pub open spec fn step(self, op: ContextOp) -> Option<ContextState> {
        match (self, op) {
            (ContextState::Recording, ContextOp::Begin) => None,
            (_, ContextOp::Begin) => Some(ContextState::Recording),
            (ContextState::Recording, ContextOp::End) => Some(ContextState::Executable),
            (ContextState::Executable, ContextOp::Submit) => Some(ContextState::Pending),
            _ => None,
        }
    }

    /// The state after the operations of `ops`, one after the other, where
    /// all of them are legal.
    pub open spec fn run(self, ops: Seq<ContextOp>) -> Option<ContextState>
        decreases ops.len(),
    {
        if ops.len() == 0 {
            Some(self)
        } else {
            match self.run(ops.drop_last()) {
                Some(state) => state.step(ops.last()),
                None => None,
            }
        }
    }
}

/// How many operations of `ops` are `op`.
pub open spec fn count_context_ops(ops: Seq<ContextOp>, op: ContextOp) -> nat
    decreases ops.len(),
{
    if ops.len() == 0 {
        0
    } else {
        count_context_ops(ops.drop_last(), op) + if ops.last() == op {
            1nat
        } else {
            0nat
        }
    }
}

/// Over any legal history of a new context, every begin is followed by its
/// end before the next begin: the ends are as many as the begins, or one
/// fewer exactly while the context is recording. And no recording is
/// submitted that was not ended.
pub proof fn lemma_begins_pair_with_ends(ops: Seq<ContextOp>)
    requires
        ContextState::Initial.run(ops) is Some,
    ensures
        count_context_ops(ops, ContextOp::Begin) == count_context_ops(ops, ContextOp::End)
            + if ContextState::Initial.run(ops) == Some(ContextState::Recording) {
            1nat
        } else {
            0nat
        },
        count_context_ops(ops, ContextOp::Submit) <= count_context_ops(ops, ContextOp::End),
{
    lemma_history_counts(ContextState::Initial, ops);
}

/// The counts of a legal history, with the state that it ends in: a submit
/// follows an end, and leaves the context pending.
proof fn lemma_history_counts(start: ContextState, ops: Seq<ContextOp>)
    requires
        start != ContextState::Recording,
        start.run(ops) is Some,
    ensures
        count_context_ops(ops, ContextOp::Begin) == count_context_ops(ops, ContextOp::End)
            + if start.run(ops) == Some(ContextState::Recording) {
            1nat
        } else {
            0nat
        },
        count_context_ops(ops, ContextOp::Submit) + if start.run(ops) == Some(
            ContextState::Executable,
        ) && start != ContextState::Executable {
            1nat
        } else {
            0nat
        } <= count_context_ops(ops, ContextOp::End) + if start == ContextState::Executable
            && start.run(ops) != Some(ContextState::Executable) {
            1nat
        } else {
            0nat
        },
        count_context_ops(ops, ContextOp::Submit) <= count_context_ops(ops, ContextOp::End)
            + if start == ContextState::Executable {
            1nat
        } else {
            0nat
        },
    decreases ops.len(),
{
    if ops.len() > 0 {
        lemma_history_counts(start, ops.drop_last());
    }
}

/// What the driver is asked to allocate a context's command buffer with.
#[derive(Debug, Copy, Clone, PartialEq, Eq, Structural)]
pub struct CommandBufferAllocateInfo {
    pub command_pool: u64,
    pub level: i32,
    pub command_buffer_count: u32,
}

/// A recording unit around one command buffer.
#[derive(Debug, PartialEq, Eq)]
pub struct Context {
    pub command_buffer: u64,
    pub state: ContextState,
    /// The commands recorded since the last begin, in order.
    pub commands: Vec<Command>,
    /// The fence that went to the queue with the context's last submission,
    /// while the context is pending.
    pub fence: u64,
}

/// The calls of a begin on the command buffer `command_buffer`, gated by the
/// fence `fence`: wait for the fence without bound, reset it, reset the
/// buffer, start the recording.
pub open spec fn begin_sequence(command_buffer: u64, fence: u64) -> Seq<DriverCall> {
    seq![
        DriverCall::WaitForFences { fence, wait_all: true, timeout: NO_TIMEOUT },
        DriverCall::ResetFences { fence },
        DriverCall::ResetCommandBuffer {
            command_buffer,
            flags: COMMAND_BUFFER_RESET_RELEASE_RESOURCES,
        },
        DriverCall::BeginCommandBuffer {
            command_buffer,
            flags: COMMAND_BUFFER_USAGE_ONE_TIME_SUBMIT,
        },
    ]
}

/// Whether `call` names the command buffer `command_buffer`.
pub open spec fn names_command_buffer(call: DriverCall, command_buffer: u64) -> bool {
    match call {
        DriverCall::ResetCommandBuffer { command_buffer: named, .. } => named == command_buffer,
        DriverCall::BeginCommandBuffer { command_buffer: named, .. } => named == command_buffer,
        DriverCall::EndCommandBuffer { command_buffer: named } => named == command_buffer,
        _ => false,
    }
}

/// A begin never reaches the command buffer while its fence is unsignaled:
/// the first call of a begin is the wait on the fence, without a bound on the
/// time, and every call that names the command buffer comes after it.
pub proof fn lemma_begin_waits_first(command_buffer: u64, fence: u64)
    ensures
        begin_sequence(command_buffer, fence)[0] == (DriverCall::WaitForFences {
            fence,
            wait_all: true,
            timeout: NO_TIMEOUT,
        }),
        forall|i: int|
            0 <= i < begin_sequence(command_buffer, fence).len() && names_command_buffer(
                #[trigger] begin_sequence(command_buffer, fence)[i],
                command_buffer,
            ) ==> i > 0,
{
}

/// A begin whose wait fails reaches the command buffer with no call: the wait
/// is the only call that was made.
pub proof fn lemma_failed_wait_reaches_no_buffer(command_buffer: u64, fence: u64, code: i32)
    ensures
        performed(
            begin_sequence(command_buffer, fence),
            Err(CallFailure { index: 0, code }),
        ) == seq![DriverCall::WaitForFences { fence, wait_all: true, timeout: NO_TIMEOUT }],
        forall|i: int|
            0 <= i < performed(
                begin_sequence(command_buffer, fence),
                Err(CallFailure { index: 0, code }),
            ).len() ==> !names_command_buffer(
                #[trigger] performed(
                    begin_sequence(command_buffer, fence),
                    Err(CallFailure { index: 0, code }),
                )[i],
                command_buffer,
            ),
{
    let made = performed(
        begin_sequence(command_buffer, fence),
        Err(CallFailure { index: 0, code }),
    );
    assert(made =~= seq![
        DriverCall::WaitForFences { fence, wait_all: true, timeout: NO_TIMEOUT },
    ]);
}

/// The calls of a whole recording: those of a begin, then the one that
/// closes the recording.
pub open spec fn record_sequence(command_buffer: u64, fence: u64) -> Seq<DriverCall> {
    begin_sequence(command_buffer, fence).push(DriverCall::EndCommandBuffer { command_buffer })
}

/// A recording ends what it begins, and nothing else: however its calls go,
/// the buffer is ended at most once, only after it was begun, and it is
/// ended exactly where every call went well or the end itself failed. So a
/// recording whose begin fails makes no end.
pub proof fn lemma_record_ends_what_it_begins(
    command_buffer: u64,
    fence: u64,
    outcome: Result<(), CallFailure>,
)
    ensures
        ({
            let made = performed(record_sequence(command_buffer, fence), outcome);
            let begin = DriverCall::BeginCommandBuffer {
                command_buffer,
                flags: COMMAND_BUFFER_USAGE_ONE_TIME_SUBMIT,
            };
            let end = DriverCall::EndCommandBuffer { command_buffer };
            &&& forall|i: int| 0 <= i < made.len() && made[i] == begin ==> i == 3
            &&& forall|i: int| 0 <= i < made.len() && made[i] == end ==> i == 4
            &&& made.len() == 5 <==> (outcome is Ok || outcome->Err_0.index >= 4)
            &&& made.len() == 5 ==> made[3] == begin && made[4] == end
        }),
{
    let calls = record_sequence(command_buffer, fence);
    let made = performed(calls, outcome);
    assert(calls.len() == 5);
    assert forall|i: int| 0 <= i < made.len() implies made[i] == calls[i] by {}
}

impl Context {
    /// Whether `begin` may be called with `fence`: the context is not
    /// recording, the fence is one that will be signaled, and where the
    /// context is pending, it is the fence that went out with its submission.
    pub open spec fn may_begin(&self, fence: &Fence) -> bool {
        &&& self.state != ContextState::Recording
        &&& fence.state != FenceState::Unsignaled
        &&& self.state == ContextState::Pending ==> fence.fence == self.fence
    }

    /// The context and the fence right after a begin that went well: the
    /// context is recording, with nothing recorded, and the fence is
    /// unsignaled, ready to go out with the next submission.
    pub open spec fn begun(
        before: &Context,
        fence_before: &Fence,
        after: &Context,
        fence_after: &Fence,
    ) -> bool {
        &&& after.command_buffer == before.command_buffer
        &&& Some(after.state) == before.state.step(ContextOp::Begin)
        &&& after.commands@.len() == 0
        &&& after.fence == NULL_HANDLE
        &&& fence_after.fence == fence_before.fence
        &&& fence_after.state == FenceState::Unsignaled
    }

    /// The context and the fence after a begin whose call `index` failed, an
    /// index beyond the last call counting as the last. A failed wait leaves
    /// both as they were. Once the wait has returned, the fence is signaled
    /// until it is reset, and a pending context is back in its initial
    /// state. Once the buffer is reset, its commands are gone, and the
    /// context is in its initial state.
    pub open spec fn begin_failed(
        before: &Context,
        fence_before: &Fence,
        after: &Context,
        fence_after: &Fence,
        index: usize,
    ) -> bool {
        &&& after.command_buffer == before.command_buffer
        &&& fence_after.fence == fence_before.fence
        &&& after.state != ContextState::Recording
        &&& if index == 0 {
            *after == *before && fence_after.state == fence_before.state
        } else {
            &&& after.fence == NULL_HANDLE
            &&& fence_after.state == if index == 1 {
                FenceState::Signaled
            } else {
                FenceState::Unsignaled
            }
            &&& if index <= 2 {
                after.commands == before.commands && after.state == if before.state
                    == ContextState::Pending {
                    ContextState::Initial
                } else {
                    before.state
                }
            } else {
                after.commands@.len() == 0 && after.state == ContextState::Initial
            }
        }
    }

    /// The context and the fence after a recording of `body` whose call
    /// `index` failed: as after a failed begin where the begin failed; else
    /// the end failed, and the context holds the body and is back in its
    /// initial state.
    pub open spec fn record_failed(
        before: &Context,
        fence_before: &Fence,
        after: &Context,
        fence_after: &Fence,
        body: Seq<CommandView>,
        index: usize,
    ) -> bool {
        if index < 4 {
            Context::begin_failed(before, fence_before, after, fence_after, index)
        } else {
            &&& after.command_buffer == before.command_buffer
            &&& after.state == ContextState::Initial
            &&& views_of(after.commands@) == body
            &&& after.fence == NULL_HANDLE
            &&& fence_after.fence == fence_before.fence
            &&& fence_after.state == FenceState::Unsignaled
        }
    }

    /// What the driver is asked to allocate the context's buffer with: one
    /// primary command buffer of `command_pool`.
    pub fn allocate_info(command_pool: u64) -> (info: CommandBufferAllocateInfo)
        ensures
            info == (CommandBufferAllocateInfo {
                command_pool,
                level: COMMAND_BUFFER_LEVEL_PRIMARY,
                command_buffer_count: 1,
            }),
    {
        CommandBufferAllocateInfo {
            command_pool,
            level: COMMAND_BUFFER_LEVEL_PRIMARY,
            command_buffer_count: 1,
        }
    }

    /// The context around the command buffer that the driver allocated, or
    /// the error with which it refused. Fails too where the driver handed
    /// back no buffer.
    pub fn new(allocated: Result<Vec<u64>, i32>) -> (context: Result<Context, Error>)
        ensures
            match allocated {
                Ok(buffers) => if buffers@.len() > 0 {
                    &&& context matches Ok(c)
                    &&& c.command_buffer == buffers@[0]
                    &&& c.state == ContextState::Initial
                    &&& c.commands@.len() == 0
                    &&& c.fence == NULL_HANDLE
                } else {
                    context matches Err(e) && e == Error::UnexpectedCount
                },
                Err(code) => context matches Err(e) && e == (Error::Driver { code }),
            },
    {
        match allocated {
            Ok(buffers) => {
                if buffers.len() > 0 {
                    Ok(
                        Context {
                            command_buffer: buffers[0],
                            state: ContextState::Initial,
                            commands: Vec::new(),
                            fence: NULL_HANDLE,
                        },
                    )
                } else {
                    Err(Error::UnexpectedCount)
                }
            },
            Err(code) => Err(Error::Driver { code }),
        }
    }

    /// The calls of a begin, in order. The wait on the fence comes first, and
    /// has no bound: no call touches the command buffer before the device has
    /// signaled that it is done with it.
    pub fn begin_calls(&self, fence: &Fence) -> (calls: Vec<DriverCall>)
        ensures
            calls@ == begin_sequence(self.command_buffer, fence.fence),
    {
        let calls = vec![
            fence.wait_call(),
            fence.reset_call(),
            DriverCall::ResetCommandBuffer {
                command_buffer: self.command_buffer,
                flags: COMMAND_BUFFER_RESET_RELEASE_RESOURCES,
            },
            DriverCall::BeginCommandBuffer {
                command_buffer: self.command_buffer,
                flags: COMMAND_BUFFER_USAGE_ONE_TIME_SUBMIT,
            },
        ];
        calls
    }

    /// Takes the outcome of the calls of `begin_calls`: success, or the first
    /// call that failed. An index beyond the last call counts as the last.
    ///
    /// After a success the context is recording, with nothing recorded, and
    /// the fence is unsignaled, ready to go out with the next submission. A
    /// failure is handed on, and the context is not recording: once the wait
    /// has returned, a pending context is back in its initial state; once
    /// the buffer is reset, its commands are gone.
    ///
    /// The context must not be recording, and the fence must be one that
    /// will be signaled: see `may_begin`.
    pub fn begin(&mut self, fence: &mut Fence, outcome: Result<(), CallFailure>) -> (done: Result<
        (),
        Error,
    >)
        requires
            old(self).may_begin(old(fence)),
        ensures
            match outcome {
                Ok(_) => {
                    &&& done is Ok
                    &&& Context::begun(old(self), old(fence), final(self), final(fence))
                },
                Err(failure) => {
                    &&& done == Err::<(), Error>(Error::Driver { code: failure.code })
                    &&& Context::begin_failed(
                        old(self),
                        old(fence),
                        final(self),
                        final(fence),
                        failure.index,
                    )
                },
            },
    {
        let wait_reply: Result<(), i32> = match outcome {
            Err(failure) => if failure.index == 0 {
                Err(failure.code)
            } else {
                Ok(())
            },
            Ok(_) => Ok(()),
        };
        match fence.wait(wait_reply) {
            Err(e) => {
                return Err(e);
            },
            Ok(_) => {},
        }
        match self.state {
            ContextState::Pending => {
                self.state = ContextState::Initial;
            },
            _ => {},
        }
        self.fence = NULL_HANDLE;
        let reset_reply: Result<(), i32> = match outcome {
            Err(failure) => if failure.index == 1 {
                Err(failure.code)
            } else {
                Ok(())
            },
            Ok(_) => Ok(()),
        };
        match fence.reset(reset_reply) {
            Err(e) => {
                return Err(e);
            },
            Ok(_) => {},
        }
        match outcome {
            Err(failure) => {
                if failure.index == 2 {
                    return Err(Error::Driver { code: failure.code });
                }
                self.commands.clear();
                self.state = ContextState::Initial;
                Err(Error::Driver { code: failure.code })
            },
            Ok(_) => {
                self.commands.clear();
                self.state = ContextState::Recording;
                Ok(())
            },
        }
    }

    /// Adds `command` to the recording.
    ///
    /// The context must be recording: after an end, nothing is recorded
    /// without a new begin.
    pub fn push(&mut self, command: Command)
        requires
            old(self).state == ContextState::Recording,
        ensures
            final(self).commands@ == old(self).commands@.push(command),
            final(self).command_buffer == old(self).command_buffer,
            final(self).state == ContextState::Recording,
            final(self).fence == old(self).fence,
    {
        self.commands.push(command);
    }

    /// Adds the commands of `body` to the recording, in their order.
    ///
    /// The context must be recording.
    pub fn extend(&mut self, body: Vec<Command>)
        requires
            old(self).state == ContextState::Recording,
        ensures
            final(self).commands@ == old(self).commands@ + body@,
            final(self).command_buffer == old(self).command_buffer,
            final(self).state == ContextState::Recording,
            final(self).fence == old(self).fence,
    {
        let mut body = body;
        self.commands.append(&mut body);
    }

    /// The call that closes the recording. The commands recorded since the
    /// begin go into the command buffer before it, in their order.
    pub fn end_call(&self) -> (call: DriverCall)
        ensures
            call == (DriverCall::EndCommandBuffer { command_buffer: self.command_buffer }),
    {
        DriverCall::EndCommandBuffer { command_buffer: self.command_buffer }
    }

    /// Takes the driver's answer to `end_call`. After a success the context
    /// is executable, with its commands kept; a failure is handed on, and
    /// the context is back in its initial state, to be begun anew.
    ///
    /// The context must be recording.
    pub fn end(&mut self, reply: Result<(), i32>) -> (done: Result<(), Error>)
        requires
            old(self).state == ContextState::Recording,
        ensures
            final(self).command_buffer == old(self).command_buffer,
            final(self).commands == old(self).commands,
            final(self).fence == old(self).fence,
            match reply {
                Ok(_) => done is Ok && Some(final(self).state) == old(self).state.step(
                    ContextOp::End,
                ),
                Err(code) => done == Err::<(), Error>(Error::Driver { code }) && final(self).state
                    == ContextState::Initial,
            },
    {
        match reply {
            Ok(_) => {
                self.state = ContextState::Executable;
                Ok(())
            },
            Err(code) => {
                self.state = ContextState::Initial;
                Err(Error::Driver { code })
            },
        }
    }

    /// The calls of a whole recording, in order: those of a begin, then the
    /// one that closes the recording. The commands of the body go into the
    /// command buffer between the two.
    pub fn record_calls(&self, fence: &Fence) -> (calls: Vec<DriverCall>)
        ensures
            calls@ == record_sequence(self.command_buffer, fence.fence),
    {
        let mut calls = self.begin_calls(fence);
        calls.push(self.end_call());
        calls
    }

    /// Begins, records `body`, and ends, in this order, and takes the outcome
    /// of the calls of `record_calls`: success, or the first call that
    /// failed. An index beyond the last call counts as the last.
    ///
    /// After a success the context is executable and holds exactly `body`.
    /// On no path is the context left recording: a failure of the begin
    /// leaves it as `begin` does, and a failure of the end puts it back in
    /// its initial state.
    ///
    /// What `begin` asks of the context and the fence is asked here too.
    pub fn record(
        &mut self,
        fence: &mut Fence,
        body: Vec<Command>,
        outcome: Result<(), CallFailure>,
    ) -> (done: Result<(), Error>)
        requires
            old(self).may_begin(old(fence)),
        ensures
            final(self).state != ContextState::Recording,
            match outcome {
                Ok(_) => {
                    &&& done is Ok
                    &&& final(self).command_buffer == old(self).command_buffer
                    &&& final(self).state == ContextState::Executable
                    &&& final(self).commands == body
                    &&& final(self).fence == NULL_HANDLE
                    &&& final(fence).fence == old(fence).fence
                    &&& final(fence).state == FenceState::Unsignaled
                },
                Err(failure) => {
                    &&& done == Err::<(), Error>(Error::Driver { code: failure.code })
                    &&& Context::record_failed(
                        old(self),
                        old(fence),
                        final(self),
                        final(fence),
                        views_of(body@),
                        failure.index,
                    )
                },
            },
    {
        let begin_outcome: Result<(), CallFailure> = match outcome {
            Err(failure) => if failure.index < 4 {
                Err(failure)
            } else {
                Ok(())
            },
            Ok(_) => Ok(()),
        };
        match self.begin(fence, begin_outcome) {
            Err(e) => {
                return Err(e);
            },
            Ok(_) => {},
        }
        self.commands = body;
        let end_reply: Result<(), i32> = match outcome {
            Err(failure) => Err(failure.code),
            Ok(_) => Ok(()),
        };
        self.end(end_reply)
    }

    /// Notes that the recording went to the queue with the fence `fence`: the
    /// device may read it until that fence is signaled.
    pub fn submitted(&mut self, fence: u64)
        requires
            old(self).state == ContextState::Executable,
        ensures
            Some(final(self).state) == old(self).state.step(ContextOp::Submit),
            final(self).command_buffer == old(self).command_buffer,
            final(self).commands == old(self).commands,
            final(self).fence == fence,
    {
        self.state = ContextState::Pending;
        self.fence = fence;
    }
}

} // verus!
