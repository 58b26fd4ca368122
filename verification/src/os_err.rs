//! The status-code convention of the audio HAL, as a typed result.
//!
//! Across the plug-in boundary every call answers with a 32-bit signed status:
//! zero for success, any other value for one error of a fixed set. Inside the
//! library the same information is an [`OSStatus`]: `Ok(())`, or an
//! [`OSStatusError`] that holds the non-zero code.
use vstd::prelude::*;

verus! {

/// `'stop'`: the hardware is not running.
pub const AUDIO_HARDWARE_NOT_RUNNING_ERROR: u32 = 0x7374_6F70;

/// `'what'`: the fallback for a failure without a better code.
pub const AUDIO_HARDWARE_UNSPECIFIED_ERROR: u32 = 0x7768_6174;

/// `'who?'`: no object of the tree knows the property selector.
pub const AUDIO_HARDWARE_UNKNOWN_PROPERTY_ERROR: u32 = 0x7768_6F3F;

/// `'!siz'`: a buffer has the wrong size for the property.
pub const AUDIO_HARDWARE_BAD_PROPERTY_SIZE_ERROR: u32 = 0x2173_697A;

/// `'nope'`: a null or otherwise malformed argument.
pub const AUDIO_HARDWARE_ILLEGAL_OPERATION_ERROR: u32 = 0x6E6F_7065;

/// `'!obj'`: a pointer is misaligned or names the wrong object.
pub const AUDIO_HARDWARE_BAD_OBJECT_ERROR: u32 = 0x216F_626A;

/// `'!dev'`: the device is not known.
pub const AUDIO_HARDWARE_BAD_DEVICE_ERROR: u32 = 0x2164_6576;

/// `'!str'`: the stream is not known.
pub const AUDIO_HARDWARE_BAD_STREAM_ERROR: u32 = 0x2173_7472;

/// `'unop'`: the operation is not supported.
pub const AUDIO_HARDWARE_UNSUPPORTED_OPERATION_ERROR: u32 = 0x756E_6F70;

/// `'nrdy'`: the hardware is not ready.
pub const AUDIO_HARDWARE_NOT_READY_ERROR: u32 = 0x6E72_6479;

/// `'!dat'`: the device does not support the format.
pub const AUDIO_DEVICE_UNSUPPORTED_FORMAT_ERROR: u32 = 0x2164_6174;

/// `'!hog'`: the caller lacks the permission.
pub const AUDIO_DEVICE_PERMISSIONS_ERROR: u32 = 0x2168_6F67;

/// A failure reported by, or to, the audio HAL: a status code that is never zero.
#[derive(Debug, Clone, Copy, PartialEq, Eq, Structural)]
pub struct OSStatusError(u32);

/// The result of an operation that can fail with a HAL status code.
pub type OSResult<T> = Result<T, OSStatusError>;

/// The result of an operation that yields nothing but success or a status code.
pub type OSStatus = OSResult<()>;

impl OSStatusError {
    #[verifier::type_invariant]
    spec fn is_nonzero(self) -> bool {
        self.0 != 0
    }

    /// The status code that this error stands for.
    pub closed spec fn spec_code(self) -> u32 {
        self.0
    }

    /// The status code that this error stands for; it is never zero.
    #[verifier::when_used_as_spec(spec_code)]
    pub fn code(self) -> (code: u32)
        ensures
            code == self.spec_code(),
            code != 0,
    {
        proof {
            use_type_invariant(&self);
        }
        self.0
    }

    /// The error with the given code, or `None` for zero, which means success.
    pub fn new(code: u32) -> (error: Option<Self>)
        ensures
            code == 0 <==> error is None,
            error matches Some(e) ==> e.spec_code() == code,
    {
        if code == 0 {
            None
        } else {
            Some(OSStatusError(code))
        }
    }

    pub fn hw_not_running() -> (error: Self)
        ensures
            error.spec_code() == AUDIO_HARDWARE_NOT_RUNNING_ERROR,
    {
        OSStatusError(AUDIO_HARDWARE_NOT_RUNNING_ERROR)
    }

    pub fn hw_unspecified() -> (error: Self)
        ensures
            error.spec_code() == AUDIO_HARDWARE_UNSPECIFIED_ERROR,
    {
        OSStatusError(AUDIO_HARDWARE_UNSPECIFIED_ERROR)
    }

    pub fn hw_unknown_property() -> (error: Self)
        ensures
            error.spec_code() == AUDIO_HARDWARE_UNKNOWN_PROPERTY_ERROR,
    {
        OSStatusError(AUDIO_HARDWARE_UNKNOWN_PROPERTY_ERROR)
    }

    pub fn hw_bad_property_size() -> (error: Self)
        ensures
            error.spec_code() == AUDIO_HARDWARE_BAD_PROPERTY_SIZE_ERROR,
    {
        OSStatusError(AUDIO_HARDWARE_BAD_PROPERTY_SIZE_ERROR)
    }

    pub fn hw_illegal_operation() -> (error: Self)
        ensures
            error.spec_code() == AUDIO_HARDWARE_ILLEGAL_OPERATION_ERROR,
    {
        OSStatusError(AUDIO_HARDWARE_ILLEGAL_OPERATION_ERROR)
    }

    pub fn hw_bad_object() -> (error: Self)
        ensures
            error.spec_code() == AUDIO_HARDWARE_BAD_OBJECT_ERROR,
    {
        OSStatusError(AUDIO_HARDWARE_BAD_OBJECT_ERROR)
    }

    pub fn hw_bad_device() -> (error: Self)
        ensures
            error.spec_code() == AUDIO_HARDWARE_BAD_DEVICE_ERROR,
    {
        OSStatusError(AUDIO_HARDWARE_BAD_DEVICE_ERROR)
    }

    pub fn hw_bad_stream() -> (error: Self)
        ensures
            error.spec_code() == AUDIO_HARDWARE_BAD_STREAM_ERROR,
    {
        OSStatusError(AUDIO_HARDWARE_BAD_STREAM_ERROR)
    }

    pub fn hw_unsupported_operation() -> (error: Self)
        ensures
            error.spec_code() == AUDIO_HARDWARE_UNSUPPORTED_OPERATION_ERROR,
    {
        OSStatusError(AUDIO_HARDWARE_UNSUPPORTED_OPERATION_ERROR)
    }

    pub fn hw_not_ready() -> (error: Self)
        ensures
            error.spec_code() == AUDIO_HARDWARE_NOT_READY_ERROR,
    {
        OSStatusError(AUDIO_HARDWARE_NOT_READY_ERROR)
    }

    pub fn dev_unsupported_format() -> (error: Self)
        ensures
            error.spec_code() == AUDIO_DEVICE_UNSUPPORTED_FORMAT_ERROR,
    {
        OSStatusError(AUDIO_DEVICE_UNSUPPORTED_FORMAT_ERROR)
    }

    pub fn dev_permissions() -> (error: Self)
        ensures
            error.spec_code() == AUDIO_DEVICE_PERMISSIONS_ERROR,
    {
        OSStatusError(AUDIO_DEVICE_PERMISSIONS_ERROR)
    }
}

/// The code of a status as the HAL sees it: zero for success, else the error's
/// code, read as a signed number.
pub open spec fn status_code(value: OSStatus) -> i32 {
    match value {
        Ok(()) => 0i32,
        Err(error) => error.spec_code() as i32,
    }
}

/// Reads a status code that came from the HAL: zero is success, every other
/// value is the error with those 32 bits.
#[inline]
pub fn result_from_err_code(value: i32) -> (status: OSStatus)
    ensures
        value == 0 <==> status is Ok,
        status matches Err(error) ==> error.spec_code() == value as u32,
        status_code(status) == value,
{
    let bits = value as u32;
    assert(bits == 0 <==> value == 0) by (bit_vector)
        requires
            bits == value as u32,
    ;
    assert(bits as i32 == value) by (bit_vector)
        requires
            bits == value as u32,
    ;
    match OSStatusError::new(bits) {
        Some(error) => Err(error),
        None => Ok(()),
    }
}

/// Turns a status into the code that is handed back to the HAL.
#[inline]
pub fn result_to_err_code(value: OSStatus) -> (code: i32)
    ensures
        code == status_code(value),
        code == 0 <==> value is Ok,
{
    match value {
        Ok(()) => 0,
        Err(error) => {
            let bits = error.code();
            assert(bits as i32 != 0) by (bit_vector)
                requires
                    bits != 0,
            ;
            bits as i32
        },
    }
}

/// A status that is written out as its code and read back is the same status.
///
/// `back` stands for what `result_from_err_code` gives for the code of
/// `status`: success for zero, else the error with the bits of the code. (That
/// a code read and written out again is the same code is what
/// `result_from_err_code` ensures.)
pub proof fn status_round_trip(status: OSStatus, back: OSStatus)
    requires
        status matches Err(error) ==> error.spec_code() != 0,
        status_code(status) == 0 <==> back is Ok,
        back matches Err(error) ==> error.spec_code() == status_code(status) as u32,
    ensures
        back == status,
{
    match status {
        Ok(()) => {
            assert(back->Ok_0 == status->Ok_0);
        },
        Err(error) => {
            let bits = error.spec_code();
            assert(bits as i32 != 0 && (bits as i32) as u32 == bits) by (bit_vector)
                requires
                    bits != 0,
            ;
            assert(back->Err_0.0 == error.0);
        },
    }
}

impl From<OSStatusError> for OSStatus {
    fn from(value: OSStatusError) -> (status: Self) {
        Err(value)
    }
}

impl vstd::std_specs::convert::FromSpecImpl<OSStatusError> for OSStatus {
    open spec fn obeys_from_spec() -> bool {
        true
    }

    open spec fn from_spec(value: OSStatusError) -> Self {
        Err(value)
    }
}

/// Replaces whatever error a result carries by one of the caller's choice.
pub trait ResultExt<T> {
    /// The success that the value holds, if it holds one.
    spec fn success(self) -> Option<T>;

    /// Keeps a success as it is and puts `err` in the place of any error.
    fn replace_err<U>(self, err: U) -> (replaced: Result<T, U>)
        ensures
            replaced == match self.success() {
                Some(value) => Ok::<T, U>(value),
                None => Err::<T, U>(err),
            },
    ;
}

impl<T, E> ResultExt<T> for Result<T, E> {
    open spec fn success(self) -> Option<T> {
        match self {
            Ok(value) => Some(value),
            Err(_) => None,
        }
    }

    fn replace_err<U>(self, err: U) -> (replaced: Result<T, U>) {
        match self {
            Ok(value) => Ok(value),
            Err(_) => Err(err),
        }
    }
}

} // verus!
