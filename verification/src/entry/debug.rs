//! The debug messenger: which messages it is created for.
use crate::driver::DriverCall;
use crate::error::Error;
use vstd::prelude::*;

verus! {

/// Messages that inform.
pub const DEBUG_SEVERITY_INFO: u32 = 0x10;

/// Messages that warn.
pub const DEBUG_SEVERITY_WARNING: u32 = 0x100;

/// Messages of errors.
pub const DEBUG_SEVERITY_ERROR: u32 = 0x1000;

/// Messages of any kind: general, of the validation, of the performance.
pub const DEBUG_TYPE_ALL: u32 = 0x7;

/// The name of the extension that the debug messenger belongs to, from
/// `ash::extensions::ext::DebugUtils::name`, which holds it as a C string.
#[verifier::external_body]
pub(crate) fn extension_name() -> (name: String)
    ensures
        name@ == "VK_EXT_debug_utils"@,
{
    ash::extensions::ext::DebugUtils::name().to_string_lossy().into_owned()
}

/// What the driver is asked to create the debug messenger with.
#[derive(Debug, Copy, Clone, PartialEq, Eq, Structural)]
pub struct DebugMessengerCreateInfo {
    pub message_severity: u32,
    pub message_type: u32,
}

/// A debug messenger.
#[derive(Debug, Copy, Clone, PartialEq, Eq, Structural)]
pub struct DebugUtils {
    pub callback: u64,
}

impl DebugUtils {
    /// What the driver is asked to create the messenger with: messages of
    /// errors, warnings and information, of every kind.
    pub fn create_info() -> (info: DebugMessengerCreateInfo)
        ensures
            info == (DebugMessengerCreateInfo {
                message_severity: 0x1110,
                message_type: DEBUG_TYPE_ALL,
            }),
            info.message_severity == DEBUG_SEVERITY_ERROR | DEBUG_SEVERITY_WARNING
                | DEBUG_SEVERITY_INFO,
    {
        assert(0x1000u32 | 0x100u32 | 0x10u32 == 0x1110u32) by (bit_vector);
        DebugMessengerCreateInfo {
            message_severity: DEBUG_SEVERITY_ERROR | DEBUG_SEVERITY_WARNING | DEBUG_SEVERITY_INFO,
            message_type: DEBUG_TYPE_ALL,
        }
    }

    /// The messenger that the driver created, or the error with which it
    /// refused.
    pub fn new(created: Result<u64, i32>) -> (messenger: Result<DebugUtils, Error>)
        ensures
            match created {
                Ok(handle) => messenger == Ok::<DebugUtils, Error>(DebugUtils { callback: handle }),
                Err(code) => messenger == Err::<DebugUtils, Error>(Error::Driver { code }),
            },
    {
        match created {
            Ok(handle) => Ok(DebugUtils { callback: handle }),
            Err(code) => Err(Error::Driver { code }),
        }
    }

    /// Whether a message of the severity `message_severity` is an error, at
    /// which a debug build stops.
    pub fn is_error(message_severity: u32) -> (b: bool)
        ensures
            b == (message_severity & DEBUG_SEVERITY_ERROR == DEBUG_SEVERITY_ERROR),
    {
        message_severity & DEBUG_SEVERITY_ERROR == DEBUG_SEVERITY_ERROR
    }

    /// Gives the messenger up: the call that destroys it.
    pub fn clean(&self) -> (call: DriverCall)
        ensures
            call == (DriverCall::DestroyDebugMessenger { messenger: self.callback }),
    {
        DriverCall::DestroyDebugMessenger { messenger: self.callback }
    }
}

} // verus!
