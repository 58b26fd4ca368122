//! The 16-byte identifiers by which the host names plug-in types and
//! interfaces.
//!
//! An identifier is kept as one 128-bit number: its sixteen bytes, in the order
//! in which they are written, read as a little-endian integer.
use vstd::prelude::*;
use vstd::string::*;

verus! {

/// The interface that every plug-in object offers:
/// `00000000-0000-0000-C000-000000000046`.
pub const I_UNKNOWN_INTERFACE: u128 = 0x4600_0000_0000_00C0_0000_0000_0000_0000;

/// The interface of an audio server plug-in driver:
/// `EEA5773D-CC43-49F1-8E00-8F96E7D23B17`.
pub const AUDIO_SERVER_DRIVER_PLUGIN_INTERFACE: u128 = 0x173B_D2E7_968F_008E_F149_43CC_3D77_A5EE;

/// The plug-in type of an audio server plug-in driver:
/// `443ABAB8-E7B3-491A-B985-BEB9187030DB`.
pub const AUDIO_SERVER_DRIVER_PLUGIN_TYPE: u128 = 0xDB30_7018_B9BE_85B9_1A49_B3E7_B8BA_3A44;

/// The number that sixteen bytes stand for: the first byte is the lowest.
pub open spec fn spec_uuid_u128(uuid: Seq<u8>) -> u128 {
    (uuid[0] as u128) | (uuid[1] as u128) << 8 | (uuid[2] as u128) << 16 | (uuid[3] as u128) << 24
        | (uuid[4] as u128) << 32 | (uuid[5] as u128) << 40 | (uuid[6] as u128) << 48 | (
    uuid[7] as u128) << 56 | (uuid[8] as u128) << 64 | (uuid[9] as u128) << 72 | (uuid[10] as u128)
        << 80 | (uuid[11] as u128) << 88 | (uuid[12] as u128) << 96 | (uuid[13] as u128) << 104 | (
    uuid[14] as u128) << 112 | (uuid[15] as u128) << 120
}

/// The sixteen bytes of a number, lowest first.
pub open spec fn spec_uuid_bytes(value: u128) -> Seq<u8> {
    seq![
        (value & 0xff) as u8,
        ((value >> 8) & 0xff) as u8,
        ((value >> 16) & 0xff) as u8,
        ((value >> 24) & 0xff) as u8,
        ((value >> 32) & 0xff) as u8,
        ((value >> 40) & 0xff) as u8,
        ((value >> 48) & 0xff) as u8,
        ((value >> 56) & 0xff) as u8,
        ((value >> 64) & 0xff) as u8,
        ((value >> 72) & 0xff) as u8,
        ((value >> 80) & 0xff) as u8,
        ((value >> 88) & 0xff) as u8,
        ((value >> 96) & 0xff) as u8,
        ((value >> 104) & 0xff) as u8,
        ((value >> 112) & 0xff) as u8,
        ((value >> 120) & 0xff) as u8,
    ]
}

/// Reads the sixteen bytes of an identifier as one number.
pub fn uuid_u128(uuid: [u8; 16]) -> (value: u128)
    ensures
        value == spec_uuid_u128(uuid@),
{
    (uuid[0] as u128) | (uuid[1] as u128) << 8 | (uuid[2] as u128) << 16 | (uuid[3] as u128) << 24
        | (uuid[4] as u128) << 32 | (uuid[5] as u128) << 40 | (uuid[6] as u128) << 48 | (
    uuid[7] as u128) << 56 | (uuid[8] as u128) << 64 | (uuid[9] as u128) << 72 | (uuid[10] as u128)
        << 80 | (uuid[11] as u128) << 88 | (uuid[12] as u128) << 96 | (uuid[13] as u128) << 104 | (
    uuid[14] as u128) << 112 | (uuid[15] as u128) << 120
}

/// Writes a number out as the sixteen bytes of an identifier.
pub fn uuid_bytes(value: u128) -> (uuid: [u8; 16])
    ensures
        uuid@ == spec_uuid_bytes(value),
{
    let uuid = [
        (value & 0xff) as u8,
        ((value >> 8) & 0xff) as u8,
        ((value >> 16) & 0xff) as u8,
        ((value >> 24) & 0xff) as u8,
        ((value >> 32) & 0xff) as u8,
        ((value >> 40) & 0xff) as u8,
        ((value >> 48) & 0xff) as u8,
        ((value >> 56) & 0xff) as u8,
        ((value >> 64) & 0xff) as u8,
        ((value >> 72) & 0xff) as u8,
        ((value >> 80) & 0xff) as u8,
        ((value >> 88) & 0xff) as u8,
        ((value >> 96) & 0xff) as u8,
        ((value >> 104) & 0xff) as u8,
        ((value >> 112) & 0xff) as u8,
        ((value >> 120) & 0xff) as u8,
    ];
    assert(uuid@ =~= spec_uuid_bytes(value));
    uuid
}

/// An identifier that is fixed when the program is built.
#[derive(Debug, Clone, Copy)]
pub struct StaticUUID<const UUID: u128> {}

impl<const UUID: u128> StaticUUID<UUID> {
    pub fn new() -> (id: Self) {
        StaticUUID {  }
    }

    /// The sixteen bytes from which the host's identifier object is made.
    pub fn get(&self) -> (uuid: [u8; 16])
        ensures
            uuid@ == spec_uuid_bytes(UUID),
    {
        uuid_bytes(UUID)
    }
}

/// The bytes of the three identifiers that the plug-in knows, in the order in
/// which they are written.
pub proof fn known_identifiers()
    ensures
        spec_uuid_u128(
            seq![
                0x00u8, 0x00, 0x00, 0x00, 0x00, 0x00, 0x00, 0x00, 0xC0, 0x00, 0x00, 0x00, 0x00, 0x00,
                0x00, 0x46,
            ],
        ) == I_UNKNOWN_INTERFACE,
        spec_uuid_u128(
            seq![
                0xEEu8, 0xA5, 0x77, 0x3D, 0xCC, 0x43, 0x49, 0xF1, 0x8E, 0x00, 0x8F, 0x96, 0xE7, 0xD2,
                0x3B, 0x17,
            ],
        ) == AUDIO_SERVER_DRIVER_PLUGIN_INTERFACE,
        spec_uuid_u128(
            seq![
                0x44u8, 0x3A, 0xBA, 0xB8, 0xE7, 0xB3, 0x49, 0x1A, 0xB9, 0x85, 0xBE, 0xB9, 0x18, 0x70,
                0x30, 0xDB,
            ],
        ) == AUDIO_SERVER_DRIVER_PLUGIN_TYPE,
        spec_uuid_u128(seq![0u8, 0, 0, 0, 0, 0, 0, 0, 0, 0, 0, 0, 0, 0, 0, 0]) == 0,
        I_UNKNOWN_INTERFACE != AUDIO_SERVER_DRIVER_PLUGIN_INTERFACE,
        AUDIO_SERVER_DRIVER_PLUGIN_TYPE != 0,
{
    assert((0x00u8 as u128) | (0x00u8 as u128) << 8 | (0x00u8 as u128) << 16 | (0x00u8 as u128)
        << 24 | (0x00u8 as u128) << 32 | (0x00u8 as u128) << 40 | (0x00u8 as u128) << 48 | (
    0x00u8 as u128) << 56 | (0xC0u8 as u128) << 64 | (0x00u8 as u128) << 72 | (0x00u8 as u128) << 80
        | (0x00u8 as u128) << 88 | (0x00u8 as u128) << 96 | (0x00u8 as u128) << 104 | (
    0x00u8 as u128) << 112 | (0x46u8 as u128) << 120 == 0x4600_0000_0000_00C0_0000_0000_0000_0000u128)
        by (bit_vector);
    assert((0xEEu8 as u128) | (0xA5u8 as u128) << 8 | (0x77u8 as u128) << 16 | (0x3Du8 as u128)
        << 24 | (0xCCu8 as u128) << 32 | (0x43u8 as u128) << 40 | (0x49u8 as u128) << 48 | (
    0xF1u8 as u128) << 56 | (0x8Eu8 as u128) << 64 | (0x00u8 as u128) << 72 | (0x8Fu8 as u128) << 80
        | (0x96u8 as u128) << 88 | (0xE7u8 as u128) << 96 | (0xD2u8 as u128) << 104 | (
    0x3Bu8 as u128) << 112 | (0x17u8 as u128) << 120 == 0x173B_D2E7_968F_008E_F149_43CC_3D77_A5EEu128)
        by (bit_vector);
    assert((0x44u8 as u128) | (0x3Au8 as u128) << 8 | (0xBAu8 as u128) << 16 | (0xB8u8 as u128)
        << 24 | (0xE7u8 as u128) << 32 | (0xB3u8 as u128) << 40 | (0x49u8 as u128) << 48 | (
    0x1Au8 as u128) << 56 | (0xB9u8 as u128) << 64 | (0x85u8 as u128) << 72 | (0xBEu8 as u128) << 80
        | (0xB9u8 as u128) << 88 | (0x18u8 as u128) << 96 | (0x70u8 as u128) << 104 | (
    0x30u8 as u128) << 112 | (0xDBu8 as u128) << 120 == 0xDB30_7018_B9BE_85B9_1A49_B3E7_B8BA_3A44u128)
        by (bit_vector);
    assert((0u8 as u128) | (0u8 as u128) << 8 | (0u8 as u128) << 16 | (0u8 as u128) << 24 | (
    0u8 as u128) << 32 | (0u8 as u128) << 40 | (0u8 as u128) << 48 | (0u8 as u128) << 56 | (
    0u8 as u128) << 64 | (0u8 as u128) << 72 | (0u8 as u128) << 80 | (0u8 as u128) << 88 | (
    0u8 as u128) << 96 | (0u8 as u128) << 104 | (0u8 as u128) << 112 | (0u8 as u128) << 120 == 0u128)
        by (bit_vector);
}

/// An identifier and its number stand for each other: sixteen bytes read as a
/// number and written out again are the same bytes, and a number written out
/// and read again is the same number. So two identifiers are the same number
/// exactly when they agree byte for byte.
pub proof fn uuid_round_trip(value: u128, uuid: Seq<u8>)
    requires
        uuid.len() == 16,
    ensures
        spec_uuid_bytes(value).len() == 16,
        spec_uuid_u128(spec_uuid_bytes(value)) == value,
        spec_uuid_bytes(spec_uuid_u128(uuid)) == uuid,
{
    let b = spec_uuid_bytes(value);
    assert(((value & 0xff) as u8 as u128) | (((value >> 8) & 0xff) as u8 as u128) << 8 | (((value
        >> 16) & 0xff) as u8 as u128) << 16 | (((value >> 24) & 0xff) as u8 as u128) << 24 | (((
    value >> 32) & 0xff) as u8 as u128) << 32 | (((value >> 40) & 0xff) as u8 as u128) << 40 | (((
    value >> 48) & 0xff) as u8 as u128) << 48 | (((value >> 56) & 0xff) as u8 as u128) << 56 | (((
    value >> 64) & 0xff) as u8 as u128) << 64 | (((value >> 72) & 0xff) as u8 as u128) << 72 | (((
    value >> 80) & 0xff) as u8 as u128) << 80 | (((value >> 88) & 0xff) as u8 as u128) << 88 | (((
    value >> 96) & 0xff) as u8 as u128) << 96 | (((value >> 104) & 0xff) as u8 as u128) << 104 | (((
    value >> 112) & 0xff) as u8 as u128) << 112 | (((value >> 120) & 0xff) as u8 as u128) << 120
        == value) by (bit_vector);
    let (b0, b1, b2, b3, b4, b5, b6, b7) = (
        uuid[0],
        uuid[1],
        uuid[2],
        uuid[3],
        uuid[4],
        uuid[5],
        uuid[6],
        uuid[7],
    );
    let (b8, b9, b10, b11, b12, b13, b14, b15) = (
        uuid[8],
        uuid[9],
        uuid[10],
        uuid[11],
        uuid[12],
        uuid[13],
        uuid[14],
        uuid[15],
    );
    let x = spec_uuid_u128(uuid);
    assert({
        &&& (x & 0xff) as u8 == b0
        &&& ((x >> 8) & 0xff) as u8 == b1
        &&& ((x >> 16) & 0xff) as u8 == b2
        &&& ((x >> 24) & 0xff) as u8 == b3
        &&& ((x >> 32) & 0xff) as u8 == b4
        &&& ((x >> 40) & 0xff) as u8 == b5
        &&& ((x >> 48) & 0xff) as u8 == b6
        &&& ((x >> 56) & 0xff) as u8 == b7
        &&& ((x >> 64) & 0xff) as u8 == b8
        &&& ((x >> 72) & 0xff) as u8 == b9
        &&& ((x >> 80) & 0xff) as u8 == b10
        &&& ((x >> 88) & 0xff) as u8 == b11
        &&& ((x >> 96) & 0xff) as u8 == b12
        &&& ((x >> 104) & 0xff) as u8 == b13
        &&& ((x >> 112) & 0xff) as u8 == b14
        &&& ((x >> 120) & 0xff) as u8 == b15
    }) by (bit_vector)
        requires
            x == (b0 as u128) | (b1 as u128) << 8 | (b2 as u128) << 16 | (b3 as u128) << 24 | (
            b4 as u128) << 32 | (b5 as u128) << 40 | (b6 as u128) << 48 | (b7 as u128) << 56 | (
            b8 as u128) << 64 | (b9 as u128) << 72 | (b10 as u128) << 80 | (b11 as u128) << 88 | (
            b12 as u128) << 96 | (b13 as u128) << 104 | (b14 as u128) << 112 | (b15 as u128) << 120,
    ;
    assert(spec_uuid_bytes(x) =~= uuid);
}

/// The upper-case hexadecimal digit of a number below sixteen.
pub open spec fn spec_hex_digit(n: u8) -> Seq<char> {
    if n == 0 {
        "0"@
    } else if n == 1 {
        "1"@
    } else if n == 2 {
        "2"@
    } else if n == 3 {
        "3"@
    } else if n == 4 {
        "4"@
    } else if n == 5 {
        "5"@
    } else if n == 6 {
        "6"@
    } else if n == 7 {
        "7"@
    } else if n == 8 {
        "8"@
    } else if n == 9 {
        "9"@
    } else if n == 10 {
        "A"@
    } else if n == 11 {
        "B"@
    } else if n == 12 {
        "C"@
    } else if n == 13 {
        "D"@
    } else if n == 14 {
        "E"@
    } else {
        "F"@
    }
}

/// Whether a hyphen stands before byte `i` of an identifier's text.
pub open spec fn spec_hyphen_before(i: int) -> bool {
    i == 4 || i == 6 || i == 8 || i == 10
}

/// The text of the first `n` bytes of an identifier: two upper-case
/// hexadecimal digits for each byte, in groups of four, two, two, two and six
/// bytes, with a hyphen between the groups.
pub open spec fn spec_uuid_text(uuid: Seq<u8>, n: int) -> Seq<char>
    decreases n,
{
    if n <= 0 {
        Seq::empty()
    } else {
        let before = spec_uuid_text(uuid, n - 1);
        let grouped = if spec_hyphen_before(n - 1) {
            before + "-"@
        } else {
            before
        };
        grouped + spec_hex_digit(uuid[n - 1] / 16) + spec_hex_digit(uuid[n - 1] % 16)
    }
}

/// The upper-case hexadecimal digit of a number below sixteen.
pub fn hex_digit(n: u8) -> (digit: &'static str)
    requires
        n < 16,
    ensures
        digit@ == spec_hex_digit(n),
{
    if n == 0 {
        "0"
    } else if n == 1 {
        "1"
    } else if n == 2 {
        "2"
    } else if n == 3 {
        "3"
    } else if n == 4 {
        "4"
    } else if n == 5 {
        "5"
    } else if n == 6 {
        "6"
    } else if n == 7 {
        "7"
    } else if n == 8 {
        "8"
    } else if n == 9 {
        "9"
    } else if n == 10 {
        "A"
    } else if n == 11 {
        "B"
    } else if n == 12 {
        "C"
    } else if n == 13 {
        "D"
    } else if n == 14 {
        "E"
    } else {
        "F"
    }
}

/// Writes an identifier as the host prints it, such as
/// `443ABAB8-E7B3-491A-B985-BEB9187030DB`.
pub fn uuid_text(uuid: [u8; 16]) -> (text: String)
    ensures
        text@ == spec_uuid_text(uuid@, 16),
{
    let mut text = String::from_str("");
    proof {
        reveal_strlit("");
        assert(text@ =~= spec_uuid_text(uuid@, 0));
    }
    let mut i: usize = 0;
    while i < 16
        invariant
            i <= 16,
            text@ == spec_uuid_text(uuid@, i as int),
        decreases 16 - i,
    {
        if i == 4 || i == 6 || i == 8 || i == 10 {
            text.append("-");
        }
        let byte = uuid[i];
        text.append(hex_digit(byte / 16));
        text.append(hex_digit(byte % 16));
        i = i + 1;
    }
    text
}

/// The plug-in type of audio server drivers is written
/// `443ABAB8-E7B3-491A-B985-BEB9187030DB`.
pub proof fn plugin_type_text()
    ensures
        spec_uuid_text(spec_uuid_bytes(AUDIO_SERVER_DRIVER_PLUGIN_TYPE), 16)
            == "443ABAB8-E7B3-491A-B985-BEB9187030DB"@,
{
    let value = AUDIO_SERVER_DRIVER_PLUGIN_TYPE;
    let uuid = spec_uuid_bytes(value);
    assert({
        &&& (value & 0xff) as u8 == 0x44u8
        &&& ((value >> 8) & 0xff) as u8 == 0x3Au8
        &&& ((value >> 16) & 0xff) as u8 == 0xBAu8
        &&& ((value >> 24) & 0xff) as u8 == 0xB8u8
        &&& ((value >> 32) & 0xff) as u8 == 0xE7u8
        &&& ((value >> 40) & 0xff) as u8 == 0xB3u8
        &&& ((value >> 48) & 0xff) as u8 == 0x49u8
        &&& ((value >> 56) & 0xff) as u8 == 0x1Au8
        &&& ((value >> 64) & 0xff) as u8 == 0xB9u8
        &&& ((value >> 72) & 0xff) as u8 == 0x85u8
        &&& ((value >> 80) & 0xff) as u8 == 0xBEu8
        &&& ((value >> 88) & 0xff) as u8 == 0xB9u8
        &&& ((value >> 96) & 0xff) as u8 == 0x18u8
        &&& ((value >> 104) & 0xff) as u8 == 0x70u8
        &&& ((value >> 112) & 0xff) as u8 == 0x30u8
        &&& ((value >> 120) & 0xff) as u8 == 0xDBu8
    }) by (bit_vector)
        requires
            value == 0xDB30_7018_B9BE_85B9_1A49_B3E7_B8BA_3A44u128,
    ;
    reveal_strlit("0");
    reveal_strlit("1");
    reveal_strlit("2");
    reveal_strlit("3");
    reveal_strlit("4");
    reveal_strlit("5");
    reveal_strlit("6");
    reveal_strlit("7");
    reveal_strlit("8");
    reveal_strlit("9");
    reveal_strlit("A");
    reveal_strlit("B");
    reveal_strlit("C");
    reveal_strlit("D");
    reveal_strlit("E");
    reveal_strlit("F");
    reveal_strlit("-");
    reveal_strlit("443ABAB8-E7B3-491A-B985-BEB9187030DB");
    assert(spec_uuid_text(uuid, 1) =~= seq!['4', '4']) by {
        reveal_with_fuel(spec_uuid_text, 2);
    }
    assert(spec_uuid_text(uuid, 2) =~= spec_uuid_text(uuid, 1) + seq!['3', 'A']);
    assert(spec_uuid_text(uuid, 3) =~= spec_uuid_text(uuid, 2) + seq!['B', 'A']);
    assert(spec_uuid_text(uuid, 4) =~= spec_uuid_text(uuid, 3) + seq!['B', '8']);
    assert(spec_uuid_text(uuid, 5) =~= spec_uuid_text(uuid, 4) + seq!['-', 'E', '7']);
    assert(spec_uuid_text(uuid, 6) =~= spec_uuid_text(uuid, 5) + seq!['B', '3']);
    assert(spec_uuid_text(uuid, 7) =~= spec_uuid_text(uuid, 6) + seq!['-', '4', '9']);
    assert(spec_uuid_text(uuid, 8) =~= spec_uuid_text(uuid, 7) + seq!['1', 'A']);
    assert(spec_uuid_text(uuid, 9) =~= spec_uuid_text(uuid, 8) + seq!['-', 'B', '9']);
    assert(spec_uuid_text(uuid, 10) =~= spec_uuid_text(uuid, 9) + seq!['8', '5']);
    assert(spec_uuid_text(uuid, 11) =~= spec_uuid_text(uuid, 10) + seq!['-', 'B', 'E']);
    assert(spec_uuid_text(uuid, 12) =~= spec_uuid_text(uuid, 11) + seq!['B', '9']);
    assert(spec_uuid_text(uuid, 13) =~= spec_uuid_text(uuid, 12) + seq!['1', '8']);
    assert(spec_uuid_text(uuid, 14) =~= spec_uuid_text(uuid, 13) + seq!['7', '0']);
    assert(spec_uuid_text(uuid, 15) =~= spec_uuid_text(uuid, 14) + seq!['3', '0']);
    assert(spec_uuid_text(uuid, 16) =~= spec_uuid_text(uuid, 15) + seq!['D', 'B']);
    assert(spec_uuid_text(uuid, 16) =~= "443ABAB8-E7B3-491A-B985-BEB9187030DB"@);
}

} // verus!
