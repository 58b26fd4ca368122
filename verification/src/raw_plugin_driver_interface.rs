//! The calls that a driver makes back into the host.
//!
//! The host hands the driver a table of callbacks, any of which may be absent.
//! Every call through [`PluginHostInterface`] goes the same way: an absent
//! callback is an illegal operation; a present one is invoked, and the status
//! code that it answers with becomes a typed result.
//!
//! A callback is given as a closure that makes the call into the host; `None`
//! stands for an entry of the table that is empty. Its first argument is always
//! the address of the host's table.
use crate::os_err::{
    result_from_err_code, status_code, OSStatus, OSStatusError,
    AUDIO_HARDWARE_BAD_PROPERTY_SIZE_ERROR, AUDIO_HARDWARE_ILLEGAL_OPERATION_ERROR,
};
use crate::value::CFStringHandle;
use vstd::prelude::*;

verus! {

/// The address of one property of one object: its selector, its scope and its
/// element.
#[derive(Debug, Clone, Copy, PartialEq, Eq, Structural)]
pub struct PropertyAddress {
    pub selector: u32,
    pub scope: u32,
    pub element: u32,
}

/// The host's callback table, by its address, which is never null.
#[derive(Debug, Clone, Copy)]
pub struct PluginHostInterface {
    inner: usize,
}

/// Whether `status` is what the host's answer `code` means.
pub open spec fn answers(status: OSStatus, code: i32) -> bool {
    &&& status_code(status) == code
    &&& status is Ok <==> code == 0
}

/// Whether `status` is the error with the given code.
pub open spec fn fails_with(status: OSStatus, code: u32) -> bool {
    status matches Err(error) && error.spec_code() == code
}

impl PluginHostInterface {
    #[verifier::type_invariant]
    spec fn is_not_null(self) -> bool {
        self.inner != 0
    }

    /// The address of the host's table.
    pub closed spec fn spec_address(self) -> usize {
        self.inner
    }

    /// Wraps the address of the host's table, unless it is null.
    pub fn new(inner: usize) -> (host: Option<Self>)
        ensures
            inner == 0 <==> host is None,
            host matches Some(h) ==> h.spec_address() == inner,
    {
        if inner == 0 {
            None
        } else {
            Some(PluginHostInterface { inner })
        }
    }

    /// The address of the host's table; it is never null.
    #[verifier::when_used_as_spec(spec_address)]
    pub fn address(self) -> (address: usize)
        ensures
            address == self.spec_address(),
            address != 0,
    {
        proof {
            use_type_invariant(&self);
        }
        self.inner
    }

    /// Tells the host that the given properties of an object have changed.
    ///
    /// The callback takes the object and the number of properties. More
    /// properties than 32 bits can count are a bad property size, and the
    /// callback is not invoked.
    pub fn properties_changed<F: FnOnce(usize, u32, u32) -> i32>(
        &self,
        callback: Option<F>,
        in_object_id: u32,
        properties: &[PropertyAddress],
    ) -> (status: OSStatus)
        requires
            callback matches Some(f) ==> forall|count: u32|
                call_requires(f, (self.spec_address(), in_object_id, count)),
        ensures
            callback is None ==> fails_with(status, AUDIO_HARDWARE_ILLEGAL_OPERATION_ERROR),
            callback is Some && properties@.len() > u32::MAX ==> fails_with(
                status,
                AUDIO_HARDWARE_BAD_PROPERTY_SIZE_ERROR,
            ),
            callback matches Some(f) ==> (properties@.len() <= u32::MAX ==> exists|code: i32|
                call_ensures(
                    f,
                    (self.spec_address(), in_object_id, properties@.len() as u32),
                    code,
                ) && answers(status, code)),
    {
        let f = match callback {
            Some(f) => f,
            None => {
                return Err(OSStatusError::hw_illegal_operation());
            },
        };
        let len = properties.len();
        if len > u32::MAX as usize {
            return Err(OSStatusError::hw_bad_property_size());
        }
        let ghost callee = f;
        let code = f(self.address(), in_object_id, len as u32);
        assert(call_ensures(callee, (self.spec_address(), in_object_id, properties@.len() as u32), code));
        let status = result_from_err_code(code);
        assert(answers(status, code));
        status
    }

    /// Asks the host for the stored value under a key. The callback takes the
    /// key and the address at which the host is to put the value.
    pub fn copy_from_storage<F: FnOnce(usize, CFStringHandle, usize) -> i32>(
        &self,
        callback: Option<F>,
        in_key: CFStringHandle,
        out_data: usize,
    ) -> (status: OSStatus)
        requires
            callback matches Some(f) ==> call_requires(f, (self.spec_address(), in_key, out_data)),
        ensures
            callback is None ==> fails_with(status, AUDIO_HARDWARE_ILLEGAL_OPERATION_ERROR),
            callback matches Some(f) ==> exists|code: i32|
                call_ensures(f, (self.spec_address(), in_key, out_data), code) && answers(
                    status,
                    code,
                ),
    {
        let f = match callback {
            Some(f) => f,
            None => {
                return Err(OSStatusError::hw_illegal_operation());
            },
        };
        let ghost callee = f;
        let code = f(self.address(), in_key, out_data);
        assert(call_ensures(callee, (self.spec_address(), in_key, out_data), code));
        let status = result_from_err_code(code);
        assert(answers(status, code));
        status
    }

    /// Asks the host to store a value under a key. The callback takes the key
    /// and the address of the value.
    pub fn write_to_storage<F: FnOnce(usize, CFStringHandle, usize) -> i32>(
        &self,
        callback: Option<F>,
        in_key: CFStringHandle,
        in_data: usize,
    ) -> (status: OSStatus)
        requires
            callback matches Some(f) ==> call_requires(f, (self.spec_address(), in_key, in_data)),
        ensures
            callback is None ==> fails_with(status, AUDIO_HARDWARE_ILLEGAL_OPERATION_ERROR),
            callback matches Some(f) ==> exists|code: i32|
                call_ensures(f, (self.spec_address(), in_key, in_data), code) && answers(
                    status,
                    code,
                ),
    {
        let f = match callback {
            Some(f) => f,
            None => {
                return Err(OSStatusError::hw_illegal_operation());
            },
        };
        let ghost callee = f;
        let code = f(self.address(), in_key, in_data);
        assert(call_ensures(callee, (self.spec_address(), in_key, in_data), code));
        let status = result_from_err_code(code);
        assert(answers(status, code));
        status
    }

    /// Asks the host to forget the value under a key. The callback takes the
    /// key.
    pub fn delete_from_storage<F: FnOnce(usize, CFStringHandle) -> i32>(
        &self,
        callback: Option<F>,
        in_key: CFStringHandle,
    ) -> (status: OSStatus)
        requires
            callback matches Some(f) ==> call_requires(f, (self.spec_address(), in_key)),
        ensures
            callback is None ==> fails_with(status, AUDIO_HARDWARE_ILLEGAL_OPERATION_ERROR),
            callback matches Some(f) ==> exists|code: i32|
                call_ensures(f, (self.spec_address(), in_key), code) && answers(status, code),
    {
        let f = match callback {
            Some(f) => f,
            None => {
                return Err(OSStatusError::hw_illegal_operation());
            },
        };
        let ghost callee = f;
        let code = f(self.address(), in_key);
        assert(call_ensures(callee, (self.spec_address(), in_key), code));
        let status = result_from_err_code(code);
        assert(answers(status, code));
        status
    }

    /// Asks the host for leave to change the configuration of a device. The
    /// callback takes the device, the action and the address of what the
    /// driver wants to be handed back with it.
    pub fn request_device_configuration_change<F: FnOnce(usize, u32, u64, usize) -> i32>(
        &self,
        callback: Option<F>,
        in_device_object_id: u32,
        in_change_action: u64,
        in_change_info: usize,
    ) -> (status: OSStatus)
        requires
            callback matches Some(f) ==> call_requires(
                f,
                (self.spec_address(), in_device_object_id, in_change_action, in_change_info),
            ),
        ensures
            callback is None ==> fails_with(status, AUDIO_HARDWARE_ILLEGAL_OPERATION_ERROR),
            callback matches Some(f) ==> exists|code: i32|
                call_ensures(
                    f,
                    (self.spec_address(), in_device_object_id, in_change_action, in_change_info),
                    code,
                ) && answers(status, code),
    {
        let f = match callback {
            Some(f) => f,
            None => {
                return Err(OSStatusError::hw_illegal_operation());
            },
        };
        let ghost callee = f;
        let code = f(self.address(), in_device_object_id, in_change_action, in_change_info);
        assert(call_ensures(callee, (self.spec_address(), in_device_object_id, in_change_action, in_change_info), code));
        let status = result_from_err_code(code);
        assert(answers(status, code));
        status
    }
}

} // verus!
