//! A fence: the one completion signal that the host can observe.
use crate::driver::{DriverCall, FENCE_CREATE_SIGNALED, NO_TIMEOUT};
use crate::error::Error;
use vstd::prelude::*;

verus! {

/// What the host knows of a fence.
#[derive(Debug, Copy, Clone, PartialEq, Eq, Structural)]
pub enum FenceState {
    /// Signaled: a wait returns at once.
    Signaled,
    /// Unsignaled and attached to no submitted work: a wait would never
    /// return.
    Unsignaled,
    /// Unsignaled and attached to a submission: the device signals it when
    /// that work is done.
    InFlight,
}

/// A fence and the state that the host last left it in.
#[derive(Debug, PartialEq, Eq)]
pub struct Fence {
    pub fence: u64,
    pub state: FenceState,
}

impl Fence {
    /// The flags that a fence is created with: it starts signaled, so that the
    /// first wait on it does not block.
    pub fn create_flags() -> (flags: u32)
        ensures
            flags == FENCE_CREATE_SIGNALED,
    {
        FENCE_CREATE_SIGNALED
    }

    /// The fence that the driver created with `create_flags`, or the error
    /// with which it refused.
    pub fn new(created: Result<u64, i32>) -> (fence: Result<Fence, Error>)
        ensures
            match created {
                Ok(handle) => fence matches Ok(f) && f.fence == handle && f.state
                    == FenceState::Signaled,
                Err(code) => fence matches Err(e) && e == (Error::Driver { code }),
            },
    {
        match created {
            Ok(handle) => Ok(Fence { fence: handle, state: FenceState::Signaled }),
            Err(code) => Err(Error::Driver { code }),
        }
    }

    /// Whether a wait on the fence returns at once.
    pub fn is_signaled(&self) -> (b: bool)
        ensures
            b == (self.state == FenceState::Signaled),
    {
        match self.state {
            FenceState::Signaled => true,
            _ => false,
        }
    }

    /// The call that blocks until the fence is signaled, without a bound on
    /// the time.
    pub fn wait_call(&self) -> (call: DriverCall)
        ensures
            call == (DriverCall::WaitForFences {
                fence: self.fence,
                wait_all: true,
                timeout: NO_TIMEOUT,
            }),
    {
        DriverCall::WaitForFences { fence: self.fence, wait_all: true, timeout: NO_TIMEOUT }
    }

    /// Takes the driver's answer to `wait_call`. After a success the fence is
    /// known to be signaled; a failure, a timeout among them, leaves the fence
    /// as it was and is handed on.
    ///
    /// A wait on a fence that is unsignaled and attached to no work returns
    /// only with an error, such as the loss of the device: nothing signals
    /// such a fence.
    pub fn wait(&mut self, reply: Result<(), i32>) -> (done: Result<(), Error>)
        ensures
            final(self).fence == old(self).fence,
            match reply {
                Ok(_) => done is Ok && final(self).state == FenceState::Signaled,
                Err(code) => {
                    &&& done == Err::<(), Error>(Error::Driver { code })
                    &&& final(self).state == old(self).state
                },
            },
    {
        match reply {
            Ok(_) => {
                self.state = FenceState::Signaled;
                Ok(())
            },
            Err(code) => Err(Error::Driver { code }),
        }
    }

    /// The call that takes the fence back to unsignaled.
    pub fn reset_call(&self) -> (call: DriverCall)
        ensures
            call == (DriverCall::ResetFences { fence: self.fence }),
    {
        DriverCall::ResetFences { fence: self.fence }
    }

    /// Takes the driver's answer to `reset_call`. After a success the fence is
    /// unsignaled and free to be attached to a submission; a failure leaves it
    /// signaled and is handed on.
    ///
    /// Only a signaled fence may be reset.
    pub fn reset(&mut self, reply: Result<(), i32>) -> (done: Result<(), Error>)
        requires
            old(self).state == FenceState::Signaled,
        ensures
            final(self).fence == old(self).fence,
            match reply {
                Ok(_) => done is Ok && final(self).state == FenceState::Unsignaled,
                Err(code) => {
                    &&& done == Err::<(), Error>(Error::Driver { code })
                    &&& final(self).state == FenceState::Signaled
                },
            },
    {
        match reply {
            Ok(_) => {
                self.state = FenceState::Unsignaled;
                Ok(())
            },
            Err(code) => Err(Error::Driver { code }),
        }
    }

    /// Notes that the fence went to the queue with a submission: the device
    /// will signal it.
    pub fn attach(&mut self)
        requires
            old(self).state == FenceState::Unsignaled,
        ensures
            final(self).fence == old(self).fence,
            final(self).state == FenceState::InFlight,
    {
        self.state = FenceState::InFlight;
    }

    /// Gives the fence up: the call that destroys it.
    pub fn clean(&self) -> (call: DriverCall)
        ensures
            call == (DriverCall::DestroyFence { fence: self.fence }),
    {
        DriverCall::DestroyFence { fence: self.fence }
    }
}

} // verus!
