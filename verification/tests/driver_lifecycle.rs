use cahal::caplug::TestPlugin;
use cahal::os_err::{OSStatus, OSStatusError};
use cahal::plugin_driver_interface::{
    release_step, retained_count, AudioServerPluginDriverInterface, PluginDriverImplementation,
    E_NO_INTERFACE, ILLEGAL_OPERATION_STATUS,
};
use cahal::raw_plugin_driver_interface::PluginHostInterface;

const UNKNOWN: [u8; 16] = [
    0x00, 0x00, 0x00, 0x00, 0x00, 0x00, 0x00, 0x00, 0xC0, 0x00, 0x00, 0x00, 0x00, 0x00, 0x00, 0x46,
];
const INTERFACE: [u8; 16] = [
    0xEE, 0xA5, 0x77, 0x3D, 0xCC, 0x43, 0x49, 0xF1, 0x8E, 0x00, 0x8F, 0x96, 0xE7, 0xD2, 0x3B, 0x17,
];
const PLUGIN_TYPE: [u8; 16] = [
    0x44, 0x3A, 0xBA, 0xB8, 0xE7, 0xB3, 0x49, 0x1A, 0xB9, 0x85, 0xBE, 0xB9, 0x18, 0x70, 0x30, 0xDB,
];

type Container = PluginDriverImplementation<TestPlugin>;

/// A driver that remembers where it was made and refuses to come up.
struct Stubborn {
    allocator: usize,
}

impl AudioServerPluginDriverInterface for Stubborn {
    type DeviceConfigurationChangeInfo = u32;

    fn is_created(&self, cf_allocator: usize) -> bool {
        self.allocator == cf_allocator
    }

    fn is_initialized(&self, _host: PluginHostInterface, status: OSStatus) -> bool {
        status.is_err()
    }

    fn name() -> &'static str {
        "stubborn"
    }

    fn create(cf_allocator: usize) -> Self {
        Stubborn { allocator: cf_allocator }
    }

    fn init(&self, host: PluginHostInterface) -> OSStatus {
        if host.address() == self.allocator {
            Err(OSStatusError::hw_not_ready())
        } else {
            Err(OSStatusError::dev_permissions())
        }
    }
}

#[test]
fn create_for_the_plugin_type_makes_a_driver() {
    let container = Container::create(0, PLUGIN_TYPE);
    let container = container.expect("the plug-in type is supported");
    assert_eq!(container.refcount(), 1);
}

#[test]
fn create_for_another_type_makes_nothing() {
    assert!(Container::create(0, [0; 16]).is_none());
    assert!(Container::create(0, INTERFACE).is_none());
    assert!(Container::create(0, UNKNOWN).is_none());
    let mut almost = PLUGIN_TYPE;
    almost[15] ^= 1;
    assert!(Container::create(0, almost).is_none());
}

#[test]
fn create_hands_the_allocator_to_the_driver() {
    let container = PluginDriverImplementation::<Stubborn>::create(0x77, PLUGIN_TYPE).unwrap();
    assert_eq!(container.state().allocator, 0x77);
    assert_eq!(Stubborn::name(), "stubborn");
    assert_eq!(TestPlugin::name(), "test_plugin");
}

#[test]
fn query_interface_answers_for_both_known_interfaces() {
    for uuid in [UNKNOWN, INTERFACE] {
        let mut out = 0usize;
        assert_eq!(Container::query_interface(0xABCD, uuid, Some(&mut out)), 0);
        assert_eq!(out, 0xABCD);
    }
}

#[test]
fn query_interface_refuses_other_interfaces() {
    for uuid in [PLUGIN_TYPE, [0; 16], [0xFF; 16]] {
        let mut out = 5usize;
        assert_eq!(Container::query_interface(0xABCD, uuid, Some(&mut out)), E_NO_INTERFACE);
        assert_eq!(out, 5);
    }
    assert_eq!(E_NO_INTERFACE, 0x8000_0004u32 as i32);
    assert_eq!(E_NO_INTERFACE, -2147483644);
}

#[test]
fn query_interface_without_output_is_an_illegal_operation() {
    assert_eq!(Container::query_interface(0xABCD, INTERFACE, None), ILLEGAL_OPERATION_STATUS);
    assert_eq!(Container::query_interface(0xABCD, [0; 16], None), 0x6E6F7065);
    assert_eq!(ILLEGAL_OPERATION_STATUS, OSStatusError::hw_illegal_operation().code() as i32);
}

#[test]
fn retain_and_release_count_references() {
    let container = Container::create(0, PLUGIN_TYPE).unwrap();
    assert_eq!(Container::retain(Some(&container)), 2);
    assert_eq!(Container::retain(Some(&container)), 3);
    assert_eq!(container.refcount(), 3);
    assert_eq!(Container::release(Some(&container)), 2);
    assert_eq!(Container::release(Some(&container)), 1);
    assert_eq!(container.refcount(), 1);
}

#[test]
fn as_many_releases_as_retains_leave_the_count() {
    let container = Container::create(0, PLUGIN_TYPE).unwrap();
    for _ in 0..100 {
        Container::retain(Some(&container));
    }
    assert_eq!(container.refcount(), 101);
    for _ in 0..100 {
        Container::release(Some(&container));
    }
    assert_eq!(container.refcount(), 1);
}

#[test]
fn driver_outlives_its_last_reference() {
    let container = Container::create(0, PLUGIN_TYPE).unwrap();
    assert_eq!(Container::release(Some(&container)), 0);
    assert_eq!(Container::release(Some(&container)), 0);
    assert_eq!(container.refcount(), 0);
    let mut out = 0usize;
    assert_eq!(Container::query_interface(0x10, INTERFACE, Some(&mut out)), 0);
    assert_eq!(out, 0x10);
    assert_eq!(Container::initialize(Some(&container), 0x20), 0);
    assert_eq!(Container::retain(Some(&container)), 0);
    assert_eq!(container.refcount(), 1);
    assert_eq!(Container::retain(Some(&container)), 2);
}

#[test]
fn retain_and_release_of_nothing_report_zero() {
    assert_eq!(Container::retain(None), 0);
    assert_eq!(Container::release(None), 0);
}

#[test]
fn reported_counts_follow_the_count_found() {
    assert_eq!(retained_count(0), 0);
    assert_eq!(retained_count(1), 2);
    assert_eq!(retained_count(41), 42);
    assert_eq!(retained_count(u32::MAX), 0);
    assert_eq!(release_step(0), 0);
    assert_eq!(release_step(1), 0);
    assert_eq!(release_step(42), 41);
    assert_eq!(release_step(u32::MAX), u32::MAX - 1);
}

#[test]
fn initialize_brings_the_driver_up() {
    let container = Container::create(0, PLUGIN_TYPE).unwrap();
    assert_eq!(Container::initialize(Some(&container), 0x1000), 0);
}

#[test]
fn initialize_without_host_or_driver_is_an_illegal_operation() {
    let container = Container::create(0, PLUGIN_TYPE).unwrap();
    assert_eq!(Container::initialize(Some(&container), 0), ILLEGAL_OPERATION_STATUS);
    assert_eq!(Container::initialize(None, 0x1000), ILLEGAL_OPERATION_STATUS);
    assert_eq!(Container::initialize(None, 0), ILLEGAL_OPERATION_STATUS);
}

#[test]
fn initialize_hands_back_the_status_of_the_driver() {
    let container = PluginDriverImplementation::<Stubborn>::create(0x30, PLUGIN_TYPE).unwrap();
    assert_eq!(
        PluginDriverImplementation::initialize(Some(&container), 0x30),
        OSStatusError::hw_not_ready().code() as i32
    );
    assert_eq!(
        PluginDriverImplementation::initialize(Some(&container), 0x31),
        OSStatusError::dev_permissions().code() as i32
    );
}

#[test]
fn only_the_plugin_type_is_supported() {
    assert!(Container::is_plugin_type(PLUGIN_TYPE));
    assert!(!Container::is_plugin_type(INTERFACE));
    assert!(!Container::is_plugin_type([0; 16]));
}

#[test]
fn query_interface_without_a_driver_is_an_illegal_operation() {
    for uuid in [INTERFACE, UNKNOWN, PLUGIN_TYPE, [0; 16]] {
        let mut out = 5usize;
        assert_eq!(Container::query_interface(0, uuid, Some(&mut out)), 1852797029);
        assert_eq!(out, 5);
        assert_eq!(Container::query_interface(0, uuid, None), ILLEGAL_OPERATION_STATUS);
    }
}

#[test]
fn initialize_answers_zero_exactly_for_success() {
    let fine = Container::create(0, PLUGIN_TYPE).unwrap();
    assert_eq!(Container::initialize(Some(&fine), 0x1000), 0);
    let stubborn = PluginDriverImplementation::<Stubborn>::create(0x30, PLUGIN_TYPE).unwrap();
    assert_ne!(PluginDriverImplementation::initialize(Some(&stubborn), 0x30), 0);
    assert_eq!(fine.refcount(), 1);
    assert_eq!(stubborn.refcount(), 1);
}
