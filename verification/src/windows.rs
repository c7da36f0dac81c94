//! The native probe: names come as buffers of UTF-16 code units with the
//! length that the system reported, the system's version as one packed
//! 32-bit number.

use vstd::prelude::*;
use vstd::slice::slice_subrange;
use vstd::string::StringExecFns;
use crate::utf16::utf16_lossy;
use crate::{DesktopEnv, Platform};

verus! {

/// The three fields of a packed version number.
#[derive(Debug, Clone, Copy, PartialEq, Eq)]
pub struct OsVersion {
    pub major: u8,
    pub minor: u8,
    pub build: u16,
}

/// The fields that `bits` packs: the major version in bits 0 to 7, the minor
/// version in bits 8 to 15, the build in bits 16 to 31.
pub open spec fn unpacked(bits: u32) -> OsVersion {
    OsVersion {
        major: (bits % 0x100) as u8,
        minor: (bits / 0x100 % 0x100) as u8,
        build: (bits / 0x1_0000) as u16,
    }
}

/// The release that a version stands for, by the fixed table.
pub open spec fn release_name(version: OsVersion) -> Seq<char> {
    if version.major == 5 {
        "XP"@
    } else if version.major == 6 {
        if version.minor == 0 {
            "Vista"@
        } else if version.minor == 1 {
            "7"@
        } else if version.minor == 2 && version.build == 9200 {
            "10"@
        } else {
            "8"@
        }
    } else {
        "Unknown"@
    }
}

/// The code units that a query delivered: the first `reported` units of the
/// buffer, and the whole buffer where it reports more than the buffer holds.
pub open spec fn delivered(buffer: Seq<u16>, reported: int) -> Seq<u16> {
    if 0 <= reported <= buffer.len() {
        buffer.take(reported)
    } else {
        buffer
    }
}

/// The login name in a buffer whose reported length counts the terminator:
/// empty where nothing is reported.
pub open spec fn login_name(buffer: Seq<u16>, reported: int) -> Seq<char> {
    if reported == 0 {
        Seq::empty()
    } else {
        utf16_lossy(delivered(buffer, reported - 1))
    }
}

/// The display name, and the login name where the query for the display name
/// reports nothing.
pub open spec fn display_name(
    display: Seq<u16>,
    display_reported: int,
    login: Seq<u16>,
    login_reported: int,
) -> Seq<char> {
    if display_reported == 0 {
        login_name(login, login_reported)
    } else {
        utf16_lossy(delivered(display, display_reported))
    }
}

/// Splits a packed version number into its fields.
pub fn decode_version(bits: u32) -> (version: OsVersion)
    ensures
        version == unpacked(bits),
        version.major == bits % 0x100,
        version.minor == bits / 0x100 % 0x100,
        version.build == bits / 0x1_0000,
{
    let major = bits & 0x0000_00ff;
    let minor = (bits & 0x0000_ff00) >> 8;
    let build = (bits & 0xffff_0000) >> 16;
    assert(bits & 0x0000_00ff == bits % 0x100) by (bit_vector);
    assert((bits & 0x0000_ff00) >> 8 == bits / 0x100 % 0x100) by (bit_vector);
    assert((bits & 0xffff_0000) >> 16 == bits / 0x1_0000) by (bit_vector);
    OsVersion { major: major as u8, minor: minor as u8, build: build as u16 }
}

/// The name of the system whose packed version is `bits`.
pub fn os(bits: u32) -> (name: String)
    ensures
        name@ == "Windows "@ + release_name(unpacked(bits)),
{
    let version = decode_version(bits);
    let release = if version.major == 5 {
        "XP"
    } else if version.major == 6 {
        if version.minor == 0 {
            "Vista"
        } else if version.minor == 1 {
            "7"
        } else if version.minor == 2 && version.build == 9200 {
            "10"
        } else {
            "8"
        }
    } else {
        "Unknown"
    };
    let mut name = "Windows ".to_string();
    name.append(release);
    name
}

/// Decodes what a query left in `buffer`. Nothing past the end of the buffer
/// is read: the flag says whether the query reported more than the buffer
/// holds.
pub fn read_name(buffer: &[u16], reported: usize) -> (read: (String, bool))
    ensures
        read.0@ == utf16_lossy(delivered(buffer@, reported as int)),
        read.1 == (reported > buffer@.len()),
{
    if reported <= buffer.len() {
        (String::from_utf16_lossy(slice_subrange(buffer, 0, reported)), false)
    } else {
        (String::from_utf16_lossy(buffer), true)
    }
}

/// The login name that the system wrote to `buffer`. `reported` counts the
/// terminator that follows the name.
pub fn username(buffer: &[u16], reported: usize) -> (name: String)
    ensures
        name@ == login_name(buffer@, reported as int),
        reported == 0 ==> name@.len() == 0,
{
    if reported == 0 {
        String::new()
    } else {
        read_name(buffer, reported - 1).0
    }
}

/// The display name that the system wrote to `display`; the login name where
/// it wrote none.
pub fn realname(
    display: &[u16],
    display_reported: usize,
    login: &[u16],
    login_reported: usize,
) -> (name: String)
    ensures
        name@ == display_name(
            display@,
            display_reported as int,
            login@,
            login_reported as int,
        ),
        display_reported == 0 ==> name@ == login_name(login@, login_reported as int),
{
    if display_reported == 0 {
        username(login, login_reported)
    } else {
        read_name(display, display_reported).0
    }
}

/// The fully qualified name of the computer that the system wrote to `buffer`.
pub fn computer(buffer: &[u16], reported: usize) -> (name: String)
    ensures
        name@ == utf16_lossy(delivered(buffer@, reported as int)),
{
    read_name(buffer, reported).0
}

/// The host name that the system wrote to `buffer`.
pub fn hostname(buffer: &[u16], reported: usize) -> (name: String)
    ensures
        name@ == utf16_lossy(delivered(buffer@, reported as int)),
{
    read_name(buffer, reported).0
}

/// The tag of the native probe.
pub fn env() -> (env: DesktopEnv)
    ensures
        env == DesktopEnv::Windows,
{
    DesktopEnv::Windows
}

/// The native probe runs on one platform only.
pub fn platform() -> (platform: Platform)
    ensures
        platform == Platform::Windows,
{
    Platform::Windows
}

/// The fields of a version make up its packed number again: no bit belongs
/// to two fields, and none to no field.
pub proof fn lemma_unpacked_exact(bits: u32)
    ensures
        unpacked(bits).major + 0x100 * unpacked(bits).minor + 0x1_0000 * unpacked(bits).build
            == bits,
{
}

/// Where the system reports nothing, the login name is empty, and a display
/// name of which nothing is reported is the login name.
pub proof fn lemma_nothing_reported(
    display: Seq<u16>,
    login: Seq<u16>,
    login_reported: int,
)
    ensures
        login_name(login, 0) == Seq::<char>::empty(),
        display_name(display, 0, login, login_reported) == login_name(login, login_reported),
        display_name(display, 0, login, 0) == Seq::<char>::empty(),
{
}

} // verus!
