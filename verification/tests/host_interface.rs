use cahal::os_err::OSStatusError;
use cahal::raw_plugin_driver_interface::{PluginHostInterface, PropertyAddress};
use cahal::value::CFStringHandle;

type Changed = fn(usize, u32, u32) -> i32;
type Storage = fn(usize, CFStringHandle, usize) -> i32;
type Delete = fn(usize, CFStringHandle) -> i32;
type Change = fn(usize, u32, u64, usize) -> i32;

fn host() -> PluginHostInterface {
    PluginHostInterface::new(0x4000).unwrap()
}

fn address(selector: u32) -> PropertyAddress {
    PropertyAddress { selector, scope: 0x676C6F62, element: 0 }
}

#[test]
fn null_host_is_no_host() {
    assert!(PluginHostInterface::new(0).is_none());
    assert_eq!(PluginHostInterface::new(0x4000).unwrap().address(), 0x4000);
}

#[test]
fn absent_callbacks_are_illegal_operations() {
    let key = CFStringHandle { address: 1 };
    let illegal = Err(OSStatusError::hw_illegal_operation());
    assert_eq!(host().properties_changed(None::<Changed>, 1, &[address(1)]), illegal);
    assert_eq!(host().copy_from_storage(None::<Storage>, key, 2), illegal);
    assert_eq!(host().write_to_storage(None::<Storage>, key, 2), illegal);
    assert_eq!(host().delete_from_storage(None::<Delete>, key), illegal);
    assert_eq!(host().request_device_configuration_change(None::<Change>, 1, 2, 3), illegal);
}

#[test]
fn properties_changed_passes_the_object_and_the_count() {
    let mut seen = (0, 0, 0);
    let status = host().properties_changed(
        Some(|host: usize, object: u32, count: u32| {
            seen = (host, object, count);
            0
        }),
        9,
        &[address(1), address(2), address(3)],
    );
    assert_eq!(status, Ok(()));
    assert_eq!(seen, (0x4000, 9, 3));
}

#[test]
fn properties_changed_hands_back_the_status_of_the_host() {
    let status = host().properties_changed(Some(|_: usize, _: u32, _: u32| 0x21646576), 9, &[]);
    assert_eq!(status, Err(OSStatusError::hw_bad_device()));
    let status = host().properties_changed(Some(|_: usize, _: u32, _: u32| -1), 9, &[]);
    assert_eq!(status.unwrap_err().code(), 0xFFFF_FFFF);
}

#[test]
fn storage_calls_pass_their_arguments() {
    let key = CFStringHandle { address: 0x88 };
    let mut seen = Vec::new();
    assert_eq!(
        host().copy_from_storage(
            Some(|host: usize, key: CFStringHandle, out: usize| {
                seen.push((host, key.address, out));
                0
            }),
            key,
            0x100,
        ),
        Ok(())
    );
    assert_eq!(
        host().write_to_storage(
            Some(|host: usize, key: CFStringHandle, data: usize| {
                seen.push((host, key.address, data));
                0x77686174
            }),
            key,
            0x200,
        ),
        Err(OSStatusError::hw_unspecified())
    );
    assert_eq!(
        host().delete_from_storage(
            Some(|host: usize, key: CFStringHandle| {
                seen.push((host, key.address, 0));
                0x6E726479
            }),
            key,
        ),
        Err(OSStatusError::hw_not_ready())
    );
    assert_eq!(seen, vec![(0x4000, 0x88, 0x100), (0x4000, 0x88, 0x200), (0x4000, 0x88, 0)]);
}

#[test]
fn configuration_change_passes_its_arguments() {
    let mut seen = (0, 0, 0, 0);
    let status = host().request_device_configuration_change(
        Some(|host: usize, device: u32, action: u64, info: usize| {
            seen = (host, device, action, info);
            0x756E6F70
        }),
        5,
        1 << 40,
        0x300,
    );
    assert_eq!(status, Err(OSStatusError::hw_unsupported_operation()));
    assert_eq!(seen, (0x4000, 5, 1 << 40, 0x300));
}
