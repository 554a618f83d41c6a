//! The vendor version-encoding schemes, and the handling of native
//! status codes around them.
//!
//! Each library reports its version as one integer. The driver and the
//! runtime share one scheme; the primitives library has a scheme of its
//! own for its own version and reuses the driver/runtime scheme for the
//! runtime version it requires. The two schemes are deliberately kept
//! distinct: they differ in where the minor digit sits and in whether a
//! patch component exists.

use vstd::prelude::*;

use crate::version::Version;

verus! {

/// The low 32 bits of a non-negative integer: what storing it in a
/// `u32` field keeps.
pub open spec fn low32(n: int) -> u32 {
    (n % 0x1_0000_0000) as u32
}

/// The driver/runtime scheme: `major = v / 1000`,
/// `minor = (v % 1000) / 10`, and no patch component.
pub open spec fn driver_runtime_decoded(v: int) -> Version {
    (Version {
        major: low32(v / 1000),
        minor: ((v % 1000) / 10) as u32,
        patch: 0,
    })
}

/// The primitives library's own scheme: `major = v / 1000`,
/// `minor = (v % 1000) / 100`, `patch = v % 100`.
pub open spec fn primitives_own_decoded(v: int) -> Version {
    (Version {
        major: low32(v / 1000),
        minor: ((v % 1000) / 100) as u32,
        patch: (v % 100) as u32,
    })
}

/// Decodes a raw driver or runtime version report.
pub fn decode_driver_runtime(v: u32) -> (r: Version)
    ensures
        r == driver_runtime_decoded(v as int),
        r.major == v / 1000,
        r.minor == (v % 1000) / 10,
        r.patch == 0,
{
    Version { major: v / 1000, minor: (v % 1000) / 10, patch: 0 }
}

/// Decodes a raw driver-supported-version report, where a raw value of
/// zero means the query succeeded but no version is available; that
/// outcome is absence, not the version 0.0.0.
pub fn decode_driver_supported(v: u32) -> (r: Option<Version>)
    ensures
        v == 0 ==> r is None,
        v != 0 ==> r == Some(driver_runtime_decoded(v as int)),
{
    if v == 0 {
        None
    } else {
        Some(decode_driver_runtime(v))
    }
}

/// Decodes the primitives library's own version report.
pub fn decode_primitives_own(v: u64) -> (r: Version)
    ensures
        r == primitives_own_decoded(v as int),
        r.minor == (v % 1000) / 100,
        r.patch == v % 100,
        v / 1000 < 0x1_0000_0000 ==> r.major == v / 1000,
{
    let major: u32 = ((v / 1000) % 0x1_0000_0000) as u32;
    let minor: u32 = ((v % 1000) / 100) as u32;
    let patch: u32 = (v % 100) as u32;
    Version { major, minor, patch }
}

/// Decodes the primitives library's required-runtime-version report.
/// This reuses the driver/runtime scheme, not the primitives library's
/// own scheme: the minor digit sits one decimal place lower and no
/// patch component is reported.
pub fn decode_primitives_required_runtime(v: u64) -> (r: Version)
    ensures
        r == driver_runtime_decoded(v as int),
        r.minor == (v % 1000) / 10,
        r.patch == 0,
        v / 1000 < 0x1_0000_0000 ==> r.major == v / 1000,
{
    let major: u32 = ((v / 1000) % 0x1_0000_0000) as u32;
    let minor: u32 = ((v % 1000) / 10) as u32;
    Version { major, minor, patch: 0 }
}

/// Interprets a native version query that signals failure through its
/// status code: status zero is success and the raw value decodes by the
/// driver/runtime scheme; any other status is surfaced unchanged as an
/// opaque error code.
pub fn version_result(status: i32, raw: u32) -> (r: Result<Version, i32>)
    ensures
        status == 0 ==> r == Ok::<Version, i32>(driver_runtime_decoded(raw as int)),
        status != 0 ==> r == Err::<Version, i32>(status),
{
    if status == 0 {
        Ok(decode_driver_runtime(raw))
    } else {
        Err(status)
    }
}

/// Interprets a native driver-supported-version query: status zero is
/// success, within which a raw value of zero means no version is
/// available; any other status is surfaced unchanged as an opaque
/// error code.
pub fn driver_supported_result(status: i32, raw: u32) -> (r: Result<Option<Version>, i32>)
    ensures
        status == 0 && raw == 0 ==> r == Ok::<Option<Version>, i32>(None),
        status == 0 && raw != 0 ==> r == Ok::<Option<Version>, i32>(
            Some(driver_runtime_decoded(raw as int)),
        ),
        status != 0 ==> r == Err::<Option<Version>, i32>(status),
{
    if status == 0 {
        Ok(decode_driver_supported(raw))
    } else {
        Err(status)
    }
}

} // verus!
