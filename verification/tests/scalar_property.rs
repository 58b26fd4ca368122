use cahal::os_err::OSStatusError;
use cahal::property::{Prop, PropertySelector, RawProperty};
use cahal::value::{write_at, CFStringHandle, PropertyValue};

const SEL: u32 = 0x636C6173;

#[test]
fn selector_converts_both_ways() {
    let selector = PropertySelector::from(0x62636C73);
    assert_eq!(selector, PropertySelector(0x62636C73));
    assert_eq!(u32::from(selector), 0x62636C73);
}

#[test]
fn scalar_describes_itself() {
    let property: Prop<u32, SEL, true> = Prop::new(5);
    assert_eq!(property.0, 5);
    assert_eq!(property.selector(), PropertySelector(SEL));
    assert_eq!(property.byte_size(), 4);
    assert!(property.is_mut());
    let fixed: Prop<u64, 9, false> = Prop::new(5);
    assert_eq!(fixed.byte_size(), 8);
    assert!(!fixed.is_mut());
    assert_eq!(fixed.selector(), PropertySelector(9));
}

#[test]
fn integers_are_laid_out_little_endian() {
    let mut bytes = [0xAAu8; 12];
    0x0102_0304u32.encode(&mut bytes, 2);
    assert_eq!(bytes, [0xAA, 0xAA, 4, 3, 2, 1, 0xAA, 0xAA, 0xAA, 0xAA, 0xAA, 0xAA]);
    assert_eq!(u32::decode(&bytes, 2), 0x0102_0304);
    let mut wide = [0u8; 8];
    0x0102_0304_0506_0708u64.encode(&mut wide, 0);
    assert_eq!(wide, [8, 7, 6, 5, 4, 3, 2, 1]);
    assert_eq!(u64::decode(&wide, 0), 0x0102_0304_0506_0708);
    let mut short = [0u8; 3];
    0xBEEFu16.encode(&mut short, 1);
    assert_eq!(short, [0, 0xEF, 0xBE]);
    assert_eq!(u16::decode(&short, 1), 0xBEEF);
    let mut one = [0u8; 2];
    7u8.encode(&mut one, 1);
    assert_eq!(one, [0, 7]);
    assert_eq!(u8::decode(&one, 1), 7);
}

#[test]
fn sizes_and_alignments_are_the_natural_ones() {
    assert_eq!((u8::size(), u8::align()), (1, 1));
    assert_eq!((u16::size(), u16::align()), (2, 2));
    assert_eq!((u32::size(), u32::align()), (4, 4));
    assert_eq!((u64::size(), u64::align()), (8, 8));
    assert_eq!((CFStringHandle::size(), CFStringHandle::align()), (8, 8));
}

#[test]
fn string_handle_is_its_address() {
    let handle = CFStringHandle { address: 0x1122_3344_5566_7788 };
    let mut bytes = [0u8; 8];
    handle.encode(&mut bytes, 0);
    assert_eq!(bytes, [0x88, 0x77, 0x66, 0x55, 0x44, 0x33, 0x22, 0x11]);
    assert_eq!(CFStringHandle::decode(&bytes, 0), handle);
}

#[test]
fn write_at_overwrites_only_its_span() {
    let mut bytes = [1u8, 2, 3, 4, 5];
    write_at(&mut bytes, 1, &[9, 8]);
    assert_eq!(bytes, [1, 9, 8, 4, 5]);
    write_at(&mut bytes, 5, &[]);
    assert_eq!(bytes, [1, 9, 8, 4, 5]);
}

#[test]
fn get_after_set_returns_the_value() {
    let mut property: Prop<u32, SEL, true> = Prop::new(1);
    let size = property.byte_size();
    assert_eq!(property.set(0x1000, &0xDEAD_BEEFu32.to_le_bytes()), Ok(()));
    assert_eq!(property.0, 0xDEAD_BEEF);
    assert_eq!(property.byte_size(), size);
    let mut out = [0u8; 4];
    let mut len = 0u32;
    assert_eq!(property.get(0x2000, &mut out, Some(&mut len)), Ok(()));
    assert_eq!(out, 0xDEAD_BEEFu32.to_le_bytes());
    assert_eq!(len, 4);
}

#[test]
fn get_into_a_larger_buffer_leaves_the_rest() {
    let property: Prop<u16, 3, false> = Prop::new(0x0102);
    let mut out = [7u8; 5];
    let mut len = 99u32;
    assert_eq!(property.get(8, &mut out, Some(&mut len)), Ok(()));
    assert_eq!(out, [2, 1, 7, 7, 7]);
    assert_eq!(len, 2);
}

#[test]
fn set_of_null_is_an_illegal_operation() {
    let mut property: Prop<u32, SEL, true> = Prop::new(1);
    assert_eq!(property.set(0, &[0; 4]), Err(OSStatusError::hw_illegal_operation()));
    assert_eq!(property.set(0, &[]), Err(OSStatusError::hw_illegal_operation()));
    assert_eq!(property.0, 1);
}

#[test]
fn set_of_misaligned_is_a_bad_object() {
    let mut property: Prop<u32, SEL, true> = Prop::new(1);
    assert_eq!(property.set(0x1002, &[0; 4]), Err(OSStatusError::hw_bad_object()));
    assert_eq!(property.set(0x1001, &[0; 3]), Err(OSStatusError::hw_bad_object()));
    assert_eq!(property.0, 1);
}

#[test]
fn set_of_wrong_size_is_a_bad_property_size() {
    let mut property: Prop<u32, SEL, true> = Prop::new(1);
    assert_eq!(property.set(0x1000, &[0; 3]), Err(OSStatusError::hw_bad_property_size()));
    assert_eq!(property.set(0x1000, &[0; 8]), Err(OSStatusError::hw_bad_property_size()));
    assert_eq!(property.set(0x1000, &[]), Err(OSStatusError::hw_bad_property_size()));
    assert_eq!(property.0, 1);
}

#[test]
fn set_of_fixed_property_is_refused() {
    let mut property: Prop<u32, SEL, false> = Prop::new(1);
    assert_eq!(property.set(0x1000, &[9; 4]), Err(OSStatusError::hw_unspecified()));
    assert_eq!(property.0, 1);
    assert_eq!(property.set(0, &[9; 4]), Err(OSStatusError::hw_illegal_operation()));
    assert_eq!(property.set(0x1001, &[9; 4]), Err(OSStatusError::hw_bad_object()));
    assert_eq!(property.set(0x1000, &[9; 5]), Err(OSStatusError::hw_bad_property_size()));
    assert_eq!(property.0, 1);
}

#[test]
fn get_without_destination_is_an_illegal_operation() {
    let property: Prop<u32, SEL, true> = Prop::new(1);
    let mut out = [7u8; 4];
    let mut len = 99u32;
    assert_eq!(property.get(0, &mut out, Some(&mut len)), Err(OSStatusError::hw_illegal_operation()));
    assert_eq!(property.get(0x1000, &mut out, None), Err(OSStatusError::hw_illegal_operation()));
    assert_eq!(out, [7; 4]);
    assert_eq!(len, 99);
}

#[test]
fn get_into_too_little_room_is_a_bad_property_size() {
    let property: Prop<u32, SEL, true> = Prop::new(1);
    let mut out = [7u8; 3];
    let mut len = 99u32;
    assert_eq!(
        property.get(0x1000, &mut out, Some(&mut len)),
        Err(OSStatusError::hw_bad_property_size())
    );
    assert_eq!(property.get(0x1001, &mut out, Some(&mut len)), Err(OSStatusError::hw_bad_property_size()));
    assert_eq!(out, [7; 3]);
    assert_eq!(len, 99);
}

#[test]
fn get_into_misaligned_is_a_bad_object() {
    let property: Prop<u32, SEL, true> = Prop::new(1);
    let mut out = [7u8; 4];
    let mut len = 99u32;
    assert_eq!(property.get(0x1002, &mut out, Some(&mut len)), Err(OSStatusError::hw_bad_object()));
    assert_eq!(out, [7; 4]);
    assert_eq!(len, 99);
}

#[test]
fn byte_alignment_accepts_every_address() {
    let mut property: Prop<u8, 1, true> = Prop::new(1);
    assert_eq!(property.set(0x1003, &[5]), Ok(()));
    assert_eq!(property.0, 5);
}
