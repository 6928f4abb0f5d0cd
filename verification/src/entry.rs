//! The instance: its layers and extensions, and its debug messenger.
pub mod debug;

use self::debug::DebugUtils;
use crate::driver::DriverCall;
use vstd::prelude::*;

verus! {

/// What an instance is created with, beyond the application's own data.
#[derive(Debug, PartialEq, Eq)]
pub struct InstanceInfo {
    pub debug_layers: bool,
}

impl Default for InstanceInfo {
    /// An instance with the debug layers.
    fn default() -> (info: InstanceInfo)
        ensures
            info.debug_layers,
    {
        Self { debug_layers: true }
    }
}

impl InstanceInfo {
    /// The same, with or without the debug layers.
    pub fn with_debug_layers(self, debug_layers: bool) -> (info: InstanceInfo)
        ensures
            info.debug_layers == debug_layers,
    {
        let mut info = self;
        info.debug_layers = debug_layers;
        info
    }

    /// The layers to enable: the validation layer where the debug layers are
    /// wanted, else none.
    pub fn layer_names(&self) -> (layers: Vec<String>)
        ensures
            self.debug_layers ==> layers@.len() == 1 && layers@[0]@
                == "VK_LAYER_KHRONOS_validation"@,
            !self.debug_layers ==> layers@.len() == 0,
    {
        let mut layers: Vec<String> = Vec::new();
        if self.debug_layers {
            layers.push("VK_LAYER_KHRONOS_validation".to_owned());
        }
        layers
    }

    /// The extensions to enable for the instance's own sake: the one of the
    /// debug messenger where the debug layers are wanted, else none.
    pub fn extensions(&self) -> (extensions: Vec<String>)
        ensures
            self.debug_layers ==> extensions@.len() == 1 && extensions@[0]@
                == "VK_EXT_debug_utils"@,
            !self.debug_layers ==> extensions@.len() == 0,
    {
        let mut extensions: Vec<String> = Vec::new();
        if self.debug_layers {
            extensions.push(debug::extension_name());
        }
        extensions
    }
}

/// The instance with its debug messenger, where it has one.
#[derive(Debug, PartialEq, Eq)]
pub struct Entry {
    pub instance: u64,
    pub debug_utils: Option<DebugUtils>,
}

impl Entry {
    /// The extensions to create the instance with: its own, then those that
    /// the window system requires, in their order.
    pub fn extension_names(instance_info: &InstanceInfo, required: Vec<String>) -> (names: Vec<
        String,
    >)
        ensures
            instance_info.debug_layers ==> names@.len() == required@.len() + 1 && names@[0]@
                == "VK_EXT_debug_utils"@ && names@.subrange(1, names@.len() as int) == required@,
            !instance_info.debug_layers ==> names@ == required@,
    {
        let mut names = instance_info.extensions();
        let mut required = required;
        let ghost own = names@;
        let ghost rest = required@;
        names.append(&mut required);
        assert(names@ == own + rest);
        if instance_info.debug_layers {
            assert(names@.subrange(1, names@.len() as int) =~= rest);
        } else {
            assert(names@ =~= rest);
        }
        names
    }

    /// The entry made of the instance that the driver created, and of its
    /// debug messenger where the debug layers were wanted.
    pub fn new(instance: u64, debug_utils: Option<DebugUtils>) -> (entry: Entry)
        ensures
            entry.instance == instance,
            entry.debug_utils == debug_utils,
    {
        Entry { instance, debug_utils }
    }

    /// Gives the instance up: the call that destroys the debug messenger,
    /// where there is one, then the call that destroys the instance.
    pub fn clean(&self) -> (calls: Vec<DriverCall>)
        ensures
            calls@ == match self.debug_utils {
                Some(debug_utils) => seq![
                    DriverCall::DestroyDebugMessenger { messenger: debug_utils.callback },
                    DriverCall::DestroyInstance,
                ],
                None => seq![DriverCall::DestroyInstance],
            },
    {
        let mut calls: Vec<DriverCall> = Vec::new();
        match &self.debug_utils {
            Some(debug_utils) => {
                calls.push(debug_utils.clean());
            },
            None => {},
        }
        calls.push(DriverCall::DestroyInstance);
        calls
    }
}

} // verus!
