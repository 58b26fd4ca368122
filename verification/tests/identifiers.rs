use cahal::interface_id::{
    hex_digit, uuid_text, uuid_bytes, uuid_u128, StaticUUID, AUDIO_SERVER_DRIVER_PLUGIN_INTERFACE,
    AUDIO_SERVER_DRIVER_PLUGIN_TYPE, I_UNKNOWN_INTERFACE,
};

const UNKNOWN: [u8; 16] = [
    0x00, 0x00, 0x00, 0x00, 0x00, 0x00, 0x00, 0x00, 0xC0, 0x00, 0x00, 0x00, 0x00, 0x00, 0x00, 0x46,
];
const INTERFACE: [u8; 16] = [
    0xEE, 0xA5, 0x77, 0x3D, 0xCC, 0x43, 0x49, 0xF1, 0x8E, 0x00, 0x8F, 0x96, 0xE7, 0xD2, 0x3B, 0x17,
];
const PLUGIN_TYPE: [u8; 16] = [
    0x44, 0x3A, 0xBA, 0xB8, 0xE7, 0xB3, 0x49, 0x1A, 0xB9, 0x85, 0xBE, 0xB9, 0x18, 0x70, 0x30, 0xDB,
];

#[test]
fn known_identifiers_are_their_bytes() {
    assert_eq!(uuid_u128(UNKNOWN), I_UNKNOWN_INTERFACE);
    assert_eq!(uuid_u128(INTERFACE), AUDIO_SERVER_DRIVER_PLUGIN_INTERFACE);
    assert_eq!(uuid_u128(PLUGIN_TYPE), AUDIO_SERVER_DRIVER_PLUGIN_TYPE);
    assert_eq!(uuid_bytes(I_UNKNOWN_INTERFACE), UNKNOWN);
    assert_eq!(uuid_bytes(AUDIO_SERVER_DRIVER_PLUGIN_INTERFACE), INTERFACE);
    assert_eq!(uuid_bytes(AUDIO_SERVER_DRIVER_PLUGIN_TYPE), PLUGIN_TYPE);
}

#[test]
fn identifier_is_read_little_endian() {
    let bytes = [1, 2, 3, 4, 5, 6, 7, 8, 9, 10, 11, 12, 13, 14, 15, 16];
    assert_eq!(uuid_u128(bytes), 0x100F0E0D_0C0B0A09_08070605_04030201);
    assert_eq!(uuid_u128(bytes), u128::from_le_bytes(bytes));
    assert_eq!(uuid_u128([0; 16]), 0);
    assert_eq!(uuid_u128([0xFF; 16]), u128::MAX);
}

#[test]
fn identifier_bytes_round_trip() {
    for value in [0u128, 1, u128::MAX, 0x100F0E0D_0C0B0A09_08070605_04030201, 1 << 127] {
        assert_eq!(uuid_bytes(value), value.to_le_bytes());
        assert_eq!(uuid_u128(uuid_bytes(value)), value);
    }
}

#[test]
fn static_identifier_gives_its_bytes() {
    let id: StaticUUID<0xDB30_7018_B9BE_85B9_1A49_B3E7_B8BA_3A44> = StaticUUID::new();
    assert_eq!(id.get(), PLUGIN_TYPE);
}

#[test]
fn identifiers_are_written_in_upper_case_groups() {
    assert_eq!(uuid_text(PLUGIN_TYPE), "443ABAB8-E7B3-491A-B985-BEB9187030DB");
    assert_eq!(uuid_text(INTERFACE), "EEA5773D-CC43-49F1-8E00-8F96E7D23B17");
    assert_eq!(uuid_text(UNKNOWN), "00000000-0000-0000-C000-000000000046");
    assert_eq!(uuid_text([0; 16]), "00000000-0000-0000-0000-000000000000");
    assert_eq!(uuid_text([0xFF; 16]), "FFFFFFFF-FFFF-FFFF-FFFF-FFFFFFFFFFFF");
}

#[test]
fn hex_digits_are_upper_case() {
    let digits: Vec<&str> = (0..16).map(hex_digit).collect();
    assert_eq!(digits.concat(), "0123456789ABCDEF");
}
