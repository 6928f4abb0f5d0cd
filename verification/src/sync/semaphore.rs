//! A semaphore: an ordering edge between two queue operations, which the host
//! never observes.
use crate::driver::DriverCall;
use crate::error::Error;
use vstd::prelude::*;

verus! {

/// Where a semaphore stands between a signal and the wait that consumes it.
#[derive(Debug, Copy, Clone, PartialEq, Eq, Structural)]
pub enum SemaphoreState {
    /// No signal is outstanding: the next operation on it must signal it.
    Idle,
    /// One operation was told to signal it and no wait has consumed that yet.
    Signaling,
}

/// One operation on a semaphore.
#[derive(Debug, Copy, Clone, PartialEq, Eq, Structural)]
pub enum SemaphoreOp {
    Signal,
    Wait,
}

impl SemaphoreState {
    /// The state after `op`, where `op` is legal in this state: a signal
    /// needs an idle semaphore, a wait one that is being signaled.
    pub open spec fn step(self, op: SemaphoreOp) -> Option<SemaphoreState> {
        match (self, op) {
            (SemaphoreState::Idle, SemaphoreOp::Signal) => Some(SemaphoreState::Signaling),
            (SemaphoreState::Signaling, SemaphoreOp::Wait) => Some(SemaphoreState::Idle),
            _ => None,
        }
    }

    /// The state after the operations of `ops`, one after the other, where all
    /// of them are legal.
    pub open spec fn run(self, ops: Seq<SemaphoreOp>) -> Option<SemaphoreState>
        decreases ops.len(),
    {
        if ops.len() == 0 {
            Some(self)
        } else {
            match self.run(ops.drop_last()) {
                Some(state) => state.step(ops.last()),
                None => None,
            }
        }
    }
}

/// How many operations of `ops` are `op`.
pub open spec fn count_ops(ops: Seq<SemaphoreOp>, op: SemaphoreOp) -> nat
    decreases ops.len(),
{
    if ops.len() == 0 {
        0
    } else {
        count_ops(ops.drop_last(), op) + if ops.last() == op {
            1nat
        } else {
            0nat
        }
    }
}

/// A semaphore and where it stands between signal and wait.
#[derive(Debug, PartialEq, Eq)]
pub struct Semaphore {
    pub semaphore: u64,
    pub state: SemaphoreState,
}

impl Semaphore {
    /// The semaphore that the driver created, or the error with which it
    /// refused. A new semaphore is idle: its first operation must be a signal.
    pub fn new(created: Result<u64, i32>) -> (semaphore: Result<Semaphore, Error>)
        ensures
            match created {
                Ok(handle) => semaphore matches Ok(s) && s.semaphore == handle && s.state
                    == SemaphoreState::Idle,
                Err(code) => semaphore matches Err(e) && e == (Error::Driver { code }),
            },
    {
        match created {
            Ok(handle) => Ok(Semaphore { semaphore: handle, state: SemaphoreState::Idle }),
            Err(code) => Err(Error::Driver { code }),
        }
    }

    /// Notes that an operation was told to signal the semaphore.
    pub fn signal(&mut self)
        requires
            old(self).state == SemaphoreState::Idle,
        ensures
            final(self).semaphore == old(self).semaphore,
            Some(final(self).state) == old(self).state.step(SemaphoreOp::Signal),
    {
        self.state = SemaphoreState::Signaling;
    }

    /// Notes that an operation was told to wait on the semaphore, which
    /// consumes the outstanding signal.
    pub fn consume(&mut self)
        requires
            old(self).state == SemaphoreState::Signaling,
        ensures
            final(self).semaphore == old(self).semaphore,
            Some(final(self).state) == old(self).state.step(SemaphoreOp::Wait),
    {
        self.state = SemaphoreState::Idle;
    }

    /// Gives the semaphore up: the call that destroys it.
    pub fn clean(&self) -> (call: DriverCall)
        ensures
            call == (DriverCall::DestroySemaphore { semaphore: self.semaphore }),
    {
        DriverCall::DestroySemaphore { semaphore: self.semaphore }
    }
}

/// The handles of `semaphores`, in order.
pub open spec fn handles_of(semaphores: Seq<Semaphore>) -> Seq<u64> {
    Seq::new(semaphores.len(), |i: int| semaphores[i].semaphore)
}

/// Whether every semaphore of `semaphores` is in the state `state`.
pub open spec fn all_in_state(semaphores: Seq<Semaphore>, state: SemaphoreState) -> bool {
    forall|i: int| 0 <= i < semaphores.len() ==> (#[trigger] semaphores[i]).state == state
}

/// The handles of `semaphores`, in order.
pub fn semaphore_handles(semaphores: &Vec<Semaphore>) -> (handles: Vec<u64>)
    ensures
        handles@ == handles_of(semaphores@),
{
    let mut handles: Vec<u64> = Vec::new();
    let mut i: usize = 0;
    while i < semaphores.len()
        invariant
            i <= semaphores@.len(),
            handles@ == handles_of(semaphores@.take(i as int)),
        decreases semaphores@.len() - i,
    {
        handles.push(semaphores[i].semaphore);
        i += 1;
        assert(handles@ =~= handles_of(semaphores@.take(i as int)));
    }
    assert(semaphores@.take(i as int) =~= semaphores@);
    handles
}

/// Puts every semaphore of `semaphores` in the state `state`.
fn set_all(semaphores: &mut Vec<Semaphore>, state: SemaphoreState)
    ensures
        handles_of(final(semaphores)@) == handles_of(old(semaphores)@),
        final(semaphores)@.len() == old(semaphores)@.len(),
        all_in_state(final(semaphores)@, state),
{
    let mut i: usize = 0;
    while i < semaphores.len()
        invariant
            i <= semaphores@.len(),
            semaphores@.len() == old(semaphores)@.len(),
            handles_of(semaphores@) == handles_of(old(semaphores)@),
            forall|j: int| 0 <= j < i ==> (#[trigger] semaphores@[j]).state == state,
        decreases semaphores@.len() - i,
    {
        let ghost before = semaphores@;
        let handle: u64 = semaphores[i].semaphore;
        semaphores.set(i, Semaphore { semaphore: handle, state });
        assert(handles_of(semaphores@) =~= handles_of(before));
        i += 1;
    }
}

/// Notes that one operation was told to signal every semaphore of
/// `semaphores`, each of which must be idle.
pub fn signal_all(semaphores: &mut Vec<Semaphore>)
    requires
        all_in_state(old(semaphores)@, SemaphoreState::Idle),
    ensures
        handles_of(final(semaphores)@) == handles_of(old(semaphores)@),
        final(semaphores)@.len() == old(semaphores)@.len(),
        all_in_state(final(semaphores)@, SemaphoreState::Signaling),
{
    set_all(semaphores, SemaphoreState::Signaling);
}

/// Notes that one operation was told to wait on every semaphore of
/// `semaphores`, each of which must have a signal outstanding: the signals
/// are consumed.
pub fn consume_all(semaphores: &mut Vec<Semaphore>)
    requires
        all_in_state(old(semaphores)@, SemaphoreState::Signaling),
    ensures
        handles_of(final(semaphores)@) == handles_of(old(semaphores)@),
        final(semaphores)@.len() == old(semaphores)@.len(),
        all_in_state(final(semaphores)@, SemaphoreState::Idle),
{
    set_all(semaphores, SemaphoreState::Idle);
}

/// Every signal of a semaphore is consumed by exactly one wait, and by the
/// next operation on it: in a legal history signals and waits alternate,
/// starting with a signal. So the waits are as many as the signals, or one
/// fewer while the last signal is still outstanding.
pub proof fn lemma_signals_pair_with_waits(ops: Seq<SemaphoreOp>)
    requires
        SemaphoreState::Idle.run(ops) is Some,
    ensures
        forall|i: int|
            0 <= i < ops.len() ==> (#[trigger] ops[i] == if i % 2 == 0 {
                SemaphoreOp::Signal
            } else {
                SemaphoreOp::Wait
            }),
        SemaphoreState::Idle.run(ops) == Some(
            if ops.len() % 2 == 0 {
                SemaphoreState::Idle
            } else {
                SemaphoreState::Signaling
            },
        ),
        count_ops(ops, SemaphoreOp::Signal) == (ops.len() + 1) / 2,
        count_ops(ops, SemaphoreOp::Wait) == ops.len() / 2,
    decreases ops.len(),
{
    if ops.len() > 0 {
        let head = ops.drop_last();
        lemma_signals_pair_with_waits(head);
        assert forall|i: int| 0 <= i < ops.len() implies (#[trigger] ops[i] == if i % 2 == 0 {
            SemaphoreOp::Signal
        } else {
            SemaphoreOp::Wait
        }) by {
            if i < head.len() {
                assert(ops[i] == head[i]);
            }
        }
    }
}

} // verus!
