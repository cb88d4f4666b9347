//! Values that the OpenXR headers define, read through `openxr_sys`.
use vstd::prelude::*;

verus! {

/// The decimal digit `d`.
pub open spec fn digit(d: nat) -> char {
    seq!['0', '1', '2', '3', '4', '5', '6', '7', '8', '9'][d as int]
}

/// The decimal text of `n`, without leading zeros.
pub open spec fn decimal(n: nat) -> Seq<char>
    decreases n,
{
    if n < 10 {
        seq![digit(n)]
    } else {
        decimal(n / 10).push(digit(n % 10))
    }
}

/// A packed version written as `major.minor.patch`: the major number is the
/// top 16 bits, the minor number the next 16, the patch the low 32.
pub open spec fn version_text(raw: u64) -> Seq<char> {
    decimal((raw >> 48u64) as nat) + seq!['.'] + decimal(((raw >> 32u64) & 0xffffu64) as nat)
        + seq!['.'] + decimal((raw & 0xffff_ffffu64) as nat)
}

/// Relies on `openxr_sys::Version::from_raw` and its `Display`, which writes
/// `major`, `minor` and `patch` in decimal, joined by dots; `major` is
/// `raw >> 48`, `minor` is `(raw >> 32) as u16`, `patch` is `raw as u32`.
#[verifier::external_body]
pub(crate) fn format_version(raw: u64) -> (r: String)
    ensures
        r@ == version_text(raw),
{
    format!("{}", openxr_sys::Version::from_raw(raw))
}

/// Relies on `openxr_sys::MAX_APPLICATION_NAME_SIZE`, the size of the
/// application name field of the native application info record.
#[verifier::external_body]
pub(crate) fn max_application_name_size() -> (r: usize)
    ensures
        r == 128,
{
    openxr_sys::MAX_APPLICATION_NAME_SIZE
}

/// Relies on `openxr_sys::MAX_ENGINE_NAME_SIZE`, the size of the engine name
/// field of the native application info record.
#[verifier::external_body]
pub(crate) fn max_engine_name_size() -> (r: usize)
    ensures
        r == 128,
{
    openxr_sys::MAX_ENGINE_NAME_SIZE
}

/// Relies on `openxr_sys::CURRENT_API_VERSION`, the API version these
/// headers describe (1.1.58), packed as major << 48 | minor << 32 | patch.
#[verifier::external_body]
pub(crate) fn current_api_version() -> (r: u64)
    ensures
        r == 0x0001_0001_0000_003a,
{
    openxr_sys::CURRENT_API_VERSION.into_raw()
}

} // verus!
