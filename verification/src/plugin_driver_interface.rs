//! The life of a plug-in driver as the host sees it: made by the factory,
//! asked for its interfaces, retained and released, and initialized.
//!
//! The host holds a driver by an opaque pointer. Here that pointer is either a
//! reference to the [`PluginDriverImplementation`] behind it, where the
//! container is needed, or its bare address, where it is only handed back.
use crate::interface_id::{
    known_identifiers, spec_uuid_u128, uuid_u128, AUDIO_SERVER_DRIVER_PLUGIN_INTERFACE,
    AUDIO_SERVER_DRIVER_PLUGIN_TYPE, I_UNKNOWN_INTERFACE,
};
use crate::os_err::{
    result_to_err_code, status_code, OSStatus, AUDIO_HARDWARE_ILLEGAL_OPERATION_ERROR,
};
use crate::raw_plugin_driver_interface::PluginHostInterface;
use std::sync::atomic::{AtomicU32, Ordering};
use vstd::prelude::*;

verus! {

/// The status with which `query_interface` answers for an interface that the
/// driver does not offer.
pub const E_NO_INTERFACE: i32 = -0x7FFF_FFFC;

/// The status of an illegal operation, as a signed number.
pub const ILLEGAL_OPERATION_STATUS: i32 = 0x6E6F_7065;

/// What a driver implements: how its state is made and how it is brought up.
///
/// Every function may be called from any thread at any time, so the state is
/// only ever handed out by shared reference.
pub trait AudioServerPluginDriverInterface: Sized {
    /// What the driver hands to the host with a request to change a device's
    /// configuration, and gets back when the host grants it.
    type DeviceConfigurationChangeInfo: Send;

    /// What the driver promises of the state that `create` makes.
    spec fn is_created(&self, cf_allocator: usize) -> bool;

    /// What the driver promises of the status that `init` answers with.
    spec fn is_initialized(&self, host: PluginHostInterface, status: OSStatus) -> bool;

    /// The name of the driver.
    fn name() -> &'static str;

    /// Makes the driver's state. This is the last time that the driver has its
    /// state to itself.
    fn create(cf_allocator: usize) -> (state: Self)
        ensures
            state.is_created(cf_allocator),
    ;

    /// Brings the driver up. The driver is expected to keep the host
    /// interface for later use.
    fn init(&self, host: PluginHostInterface) -> (status: OSStatus)
        ensures
            self.is_initialized(host, status),
    ;
}

/// What the host holds of a driver: the driver's state and the number of
/// references to it. The count starts at one, and nothing is ever freed when
/// it reaches zero: the host keeps a driver for as long as it runs.
pub struct PluginDriverImplementation<T> {
    state: T,
    refcount: AtomicU32,
}

/// The count that `retain` reports when it found the count at `previous`.
pub open spec fn spec_retained_count(previous: u32) -> u32 {
    if previous == 0 || previous == u32::MAX {
        0
    } else {
        (previous + 1) as u32
    }
}

/// The count that a release leaves of `count`: one less, and never less than
/// zero.
pub open spec fn spec_release_step(count: u32) -> u32 {
    if count == 0 {
        0
    } else {
        (count - 1) as u32
    }
}

/// The count that `retain` reports when it found the count at `previous`: the
/// new count, but zero for a count that was zero.
pub fn retained_count(previous: u32) -> (count: u32)
    ensures
        count == spec_retained_count(previous),
{
    if previous == 0 {
        0
    } else {
        previous.wrapping_add(1)
    }
}

/// The count that a release leaves of `count`.
pub fn release_step(count: u32) -> (next: u32)
    ensures
        next == spec_release_step(count),
{
    if count == 0 {
        0
    } else {
        count - 1
    }
}

/// `AtomicU32::fetch_update`, sequentially consistent, with `release_step` as
/// the update: puts one less in the place of the count, zero staying zero, and
/// gives the count that it found. Other threads may change the count at any
/// time, so nothing is claimed of the value that comes back.
#[verifier::external_body]
fn fetch_release(refcount: &AtomicU32) -> (previous: u32) {
    match refcount.fetch_update(
        Ordering::SeqCst,
        Ordering::SeqCst,
        |count| Some(release_step(count)),
    ) {
        Ok(previous) => previous,
        Err(previous) => previous,
    }
}

/// The status that `query_interface` answers with for the interface `in_uuid`,
/// given a driver and a place to put the pointer.
pub open spec fn spec_interface_status(in_uuid: Seq<u8>) -> i32 {
    if spec_uuid_u128(in_uuid) == AUDIO_SERVER_DRIVER_PLUGIN_INTERFACE || spec_uuid_u128(in_uuid)
        == I_UNKNOWN_INTERFACE {
        0
    } else {
        E_NO_INTERFACE
    }
}

impl<T> PluginDriverImplementation<T> {
    /// The driver's state.
    pub closed spec fn spec_state(&self) -> T {
        self.state
    }

    /// The container of a state, with one reference to it.
    pub fn new(state: T) -> (container: Self)
        ensures
            container.spec_state() == state,
    {
        PluginDriverImplementation { state, refcount: AtomicU32::new(1) }
    }

    /// The driver's state.
    pub fn state(&self) -> (state: &T)
        ensures
            *state == self.spec_state(),
    {
        &self.state
    }

    /// The number of references at this moment.
    pub fn refcount(&self) -> u32 {
        self.refcount.load(Ordering::SeqCst)
    }
}

impl<Implementation: AudioServerPluginDriverInterface> PluginDriverImplementation<Implementation> {
    /// Whether the host asks for the plug-in type of audio server drivers,
    /// the one type that the factory makes.
    pub fn is_plugin_type(requested_uuid: [u8; 16]) -> (supported: bool)
        ensures
            supported == (spec_uuid_u128(requested_uuid@) == AUDIO_SERVER_DRIVER_PLUGIN_TYPE),
    {
        uuid_u128(requested_uuid) == AUDIO_SERVER_DRIVER_PLUGIN_TYPE
    }

    /// The factory: makes a driver if the host asks for the plug-in type of
    /// audio server drivers, and nothing for any other type.
    pub fn create(alloc: usize, requested_uuid: [u8; 16]) -> (container: Option<Self>)
        ensures
            container is Some <==> spec_uuid_u128(requested_uuid@)
                == AUDIO_SERVER_DRIVER_PLUGIN_TYPE,
            container matches Some(c) ==> c.spec_state().is_created(alloc),
    {
        if Self::is_plugin_type(requested_uuid) {
            let driver_state = Implementation::create(alloc);
            Some(Self::new(driver_state))
        } else {
            None
        }
    }

    /// Answers the host's question whether the driver at `driver` offers the
    /// interface `in_uuid`.
    ///
    /// Without a place for the answer this is an illegal operation, and so
    /// it is for a null driver, whatever the interface; `out_interface` then
    /// stays. For the driver interface and for the interface that every
    /// object offers, the pointer `driver` is written to `out_interface` and
    /// the status is zero. For every other interface `out_interface` stays
    /// and the status is `E_NO_INTERFACE`.
    pub fn query_interface(driver: usize, in_uuid: [u8; 16], out_interface: Option<&mut usize>) -> (status:
        i32)
        ensures
            out_interface is None || driver == 0 ==> status == ILLEGAL_OPERATION_STATUS,
            out_interface matches Some(out) ==> {
                &&& driver != 0 ==> status == spec_interface_status(in_uuid@)
                &&& status == 0 ==> *final(out) == driver
                &&& status != 0 ==> *final(out) == *out
            },
    {
        let out = match out_interface {
            Some(out) => out,
            None => {
                return ILLEGAL_OPERATION_STATUS;
            },
        };
        if driver == 0 {
            return ILLEGAL_OPERATION_STATUS;
        }
        let requested = uuid_u128(in_uuid);
        if requested == AUDIO_SERVER_DRIVER_PLUGIN_INTERFACE || requested == I_UNKNOWN_INTERFACE {
            *out = driver;
            0
        } else {
            E_NO_INTERFACE
        }
    }

    /// Adds a reference and reports the new count; for a count that was zero,
    /// and for no driver at all, it reports zero.
    pub fn retain(driver: Option<&Self>) -> (count: u32)
        ensures
            driver is None ==> count == 0,
            exists|previous: u32| count == spec_retained_count(previous),
    {
        let r = match driver {
            Some(r) => r,
            None => {
                assert(spec_retained_count(0) == 0);
                return 0;
            },
        };
        let prev_count = r.refcount.fetch_add(1, Ordering::SeqCst);
        retained_count(prev_count)
    }

    /// Drops a reference and reports the new count, which never goes below
    /// zero; for no driver at all it reports zero. The driver stays where it
    /// is whatever the count.
    pub fn release(driver: Option<&Self>) -> (count: u32)
        ensures
            driver is None ==> count == 0,
            exists|previous: u32| count == spec_release_step(previous),
    {
        let r = match driver {
            Some(r) => r,
            None => {
                assert(spec_release_step(0) == 0);
                return 0;
            },
        };
        let previous = fetch_release(&r.refcount);
        release_step(previous)
    }

    /// Brings the driver up with the host's callback table at address `host`.
    ///
    /// A null table and a missing driver are illegal operations. Otherwise the
    /// driver's `init` decides, and its status goes back as a status code:
    /// zero exactly when the driver came up.
    pub fn initialize(driver: Option<&Self>, host: usize) -> (code: i32)
        ensures
            host == 0 || driver is None ==> code == ILLEGAL_OPERATION_STATUS,
            host != 0 ==> (driver matches Some(d) ==> exists|
                hostref: PluginHostInterface,
                status: OSStatus,
            |
                hostref.spec_address() == host && d.spec_state().is_initialized(hostref, status)
                    && code == status_code(status) && (code == 0 <==> status is Ok)),
    {
        let hostref = match PluginHostInterface::new(host) {
            Some(hostref) => hostref,
            None => {
                return ILLEGAL_OPERATION_STATUS;
            },
        };
        let implementation = match driver {
            Some(implementation) => implementation,
            None => {
                return ILLEGAL_OPERATION_STATUS;
            },
        };
        let status = implementation.state.init(hostref);
        assert(implementation.spec_state().is_initialized(hostref, status));
        result_to_err_code(status)
    }
}

/// The two failure statuses are the codes that the host knows them by.
pub proof fn status_constants()
    ensures
        ILLEGAL_OPERATION_STATUS == AUDIO_HARDWARE_ILLEGAL_OPERATION_ERROR as i32,
        E_NO_INTERFACE == 0x8000_0004u32 as i32,
        E_NO_INTERFACE != 0,
        ILLEGAL_OPERATION_STATUS != 0,
{
    assert(0x6E6F_7065u32 as i32 == 0x6E6F_7065i32) by (bit_vector);
    assert(0x8000_0004u32 as i32 == -0x7FFF_FFFCi32) by (bit_vector);
}

/// The count that a retain leaves of `count`: one more, wrapping to zero past
/// the largest count, as an atomic addition does.
pub open spec fn spec_retain_step(count: u32) -> u32 {
    if count == u32::MAX {
        0
    } else {
        (count + 1) as u32
    }
}

/// The count after `n` retains.
pub open spec fn after_retains(count: u32, n: nat) -> u32
    decreases n,
{
    if n == 0 {
        count
    } else {
        spec_retain_step(after_retains(count, (n - 1) as nat))
    }
}

/// The count after `n` releases.
pub open spec fn after_releases(count: u32, n: nat) -> u32
    decreases n,
{
    if n == 0 {
        count
    } else {
        spec_release_step(after_releases(count, (n - 1) as nat))
    }
}

/// As long as the count does not wrap, `n` retains add `n` to it.
pub proof fn lemma_after_retains(count: u32, n: nat)
    requires
        count + n <= u32::MAX,
    ensures
        after_retains(count, n) == count + n,
    decreases n,
{
    if n > 0 {
        lemma_after_retains(count, (n - 1) as nat);
    }
}

/// `n` releases take `n` from the count, and stop at zero.
pub proof fn lemma_after_releases(count: u32, n: nat)
    ensures
        after_releases(count, n) == (if n <= count {
            count - n
        } else {
            0
        }),
    decreases n,
{
    if n > 0 {
        lemma_after_releases(count, (n - 1) as nat);
    }
}

/// As many releases as retains leave the count where it was, as long as the
/// retains do not wrap it. And releases beyond the last reference leave the
/// count at zero: it never wraps below, and what a retain then reports is the
/// zero that `retained_count` gives for a count found at zero.
pub proof fn retains_then_releases_cancel(count: u32, n: nat, more: nat)
    requires
        count + n <= u32::MAX,
    ensures
        after_releases(after_retains(count, n), n) == count,
        after_releases(count, count as nat + more) == 0,
        spec_retained_count(after_releases(count, count as nat + more)) == 0,
{
    lemma_after_retains(count, n);
    lemma_after_releases(after_retains(count, n), n);
    lemma_after_releases(count, count as nat + more);
}

/// A driver offers exactly two interfaces: its own and the one that every
/// object offers. For both the answer is zero, for every other identifier,
/// the plug-in type among them, it is `E_NO_INTERFACE`, whatever the count of
/// references is.
pub proof fn offered_interfaces(in_uuid: Seq<u8>)
    ensures
        spec_interface_status(in_uuid) == 0 || spec_interface_status(in_uuid) == E_NO_INTERFACE,
        spec_interface_status(in_uuid) == 0 <==> (spec_uuid_u128(in_uuid)
            == AUDIO_SERVER_DRIVER_PLUGIN_INTERFACE || spec_uuid_u128(in_uuid)
            == I_UNKNOWN_INTERFACE),
        spec_interface_status(
            seq![
                0x00u8, 0x00, 0x00, 0x00, 0x00, 0x00, 0x00, 0x00, 0xC0, 0x00, 0x00, 0x00, 0x00, 0x00,
                0x00, 0x46,
            ],
        ) == 0,
        spec_interface_status(
            seq![
                0xEEu8, 0xA5, 0x77, 0x3D, 0xCC, 0x43, 0x49, 0xF1, 0x8E, 0x00, 0x8F, 0x96, 0xE7, 0xD2,
                0x3B, 0x17,
            ],
        ) == 0,
        spec_interface_status(
            seq![
                0x44u8, 0x3A, 0xBA, 0xB8, 0xE7, 0xB3, 0x49, 0x1A, 0xB9, 0x85, 0xBE, 0xB9, 0x18, 0x70,
                0x30, 0xDB,
            ],
        ) == E_NO_INTERFACE,
{
    known_identifiers();
}

} // verus!
