//! A driver that does nothing, to show what a plug-in has to supply.
use crate::audio_object::{
    AudioClassID, AUDIO_OBJECT_PROPERTY_BASE_CLASS, AUDIO_OBJECT_PROPERTY_CLASS,
};
use crate::os_err::OSStatus;
use crate::plugin_driver_interface::AudioServerPluginDriverInterface;
use crate::property::Prop;
use crate::raw_plugin_driver_interface::PluginHostInterface;
use vstd::prelude::*;

verus! {

/// The state of the driver that does nothing.
pub struct TestPlugin {
    _value: u8,
}

impl TestPlugin {
    /// The one value that the state holds.
    pub closed spec fn spec_value(&self) -> u8 {
        self._value
    }
}

impl AudioServerPluginDriverInterface for TestPlugin {
    type DeviceConfigurationChangeInfo = ();

    /// The state is made with the value zero, whatever the allocator.
    open spec fn is_created(&self, cf_allocator: usize) -> bool {
        self.spec_value() == 0
    }

    /// Bringing the driver up always succeeds.
    open spec fn is_initialized(&self, host: PluginHostInterface, status: OSStatus) -> bool {
        status is Ok
    }

    fn name() -> (name: &'static str)
        ensures
            name@ == "test_plugin"@,
    {
        "test_plugin"
    }

    fn create(_cf_allocator: usize) -> (state: Self)
        ensures
            state.spec_value() == 0,
    {
        TestPlugin { _value: 0 }
    }

    fn init(&self, _host: PluginHostInterface) -> (status: OSStatus) {
        Ok(())
    }
}

/// A plug-in without any state.
pub struct Plugin {}

/// The two class properties of an object, on their own.
pub struct TestPluginBox {
    pub base_class: Prop<AudioClassID, AUDIO_OBJECT_PROPERTY_BASE_CLASS, false>,
    pub class: Prop<AudioClassID, AUDIO_OBJECT_PROPERTY_CLASS, false>,
}

} // verus!
