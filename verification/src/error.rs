//! The error taxonomy, and the mapping from native status and OS error codes
//! into it.
//!
//! Two signalling disciplines coexist, on purpose: subject setters and cache
//! lifecycle calls surface only a generic pass/fail signal, because the native
//! layer exposes no reliable OS error for them; object (filesystem and
//! descriptor) setters inspect the OS error code and refine it, so that
//! callers can tell an exhausted disk or quota from a filesystem that does not
//! support labels at all.

use vstd::prelude::*;

verus! {

/// Structured failure value used by every fallible operation of the library.
#[derive(Debug, Clone, Copy, PartialEq, Eq, Structural)]
pub enum Error {
    /// Caller-supplied text holds an embedded null byte and cannot be
    /// marshaled into the native string form.
    NulByteInInput,
    /// Bytes handed back by the native layer are not valid UTF-8.
    Utf8DecodeFailure,
    /// A supplied path cannot be converted to the native path representation.
    InvalidPath,
    /// The filesystem holding the object is out of space.
    NoSpace,
    /// The relevant disk quota is exhausted.
    QuotaExceeded,
    /// The filesystem does not support security labels.
    NotSupported,
    /// Any other operating-system failure, carrying the raw error code.
    SysErrno(i32),
    /// The native layer reported failure without further diagnostic.
    GenericFailure,
}

/// The OS error code for "no space left on device" on this target.
pub open spec fn no_space_value() -> int {
    28
}

/// The OS error code for "disk quota exceeded" on this target.
pub open spec fn quota_value() -> int {
    122
}

/// The OS error code for "operation not supported" on this target.
pub open spec fn not_supported_value() -> int {
    95
}

/// Relies on libc::ENOSPC, the "no space left on device" error code, which
/// libc defines as 28 on Linux.
#[verifier::external_body]
fn no_space_code() -> (r: i32)
    ensures
        r == no_space_value(),
{
    libc::ENOSPC
}

/// Relies on libc::EDQUOT, the "disk quota exceeded" error code, which libc
/// defines as 122 on this target (x86-64 Linux; a few other architectures
/// use another value).
#[verifier::external_body]
fn quota_code() -> (r: i32)
    ensures
        r == quota_value(),
{
    libc::EDQUOT
}

/// Relies on libc::ENOTSUP, the "operation not supported" error code, which
/// libc defines as EOPNOTSUPP, that is 95, on this target (x86-64 Linux; a
/// few other architectures use another value).
#[verifier::external_body]
fn not_supported_code() -> (r: i32)
    ensures
        r == not_supported_value(),
{
    libc::ENOTSUP
}

/// What a subject setter or a cache lifecycle call returns for a native
/// status: the native layer gives no further diagnostic there.
pub open spec fn spec_plain_result(status: i32) -> Result<(), Error> {
    if status == 0 {
        Ok(())
    } else {
        Err(Error::GenericFailure)
    }
}

/// What an object (filesystem or descriptor) setter returns for a native
/// status and the OS error code observed after the call: the code is refined
/// into the taxonomy so that callers can react to each failure kind.
pub open spec fn spec_refined_result(status: i32, os_code: i32) -> Result<(), Error> {
    if status == 0 {
        Ok(())
    } else if os_code == no_space_value() {
        Err(Error::NoSpace)
    } else if os_code == quota_value() {
        Err(Error::QuotaExceeded)
    } else if os_code == not_supported_value() {
        Err(Error::NotSupported)
    } else {
        Err(Error::SysErrno(os_code))
    }
}

/// Interprets the status of a native call that carries no finer diagnostic:
/// zero is success, anything else a generic failure.
pub fn handle_error(status: i32) -> (r: Result<(), Error>)
    ensures
        r == spec_plain_result(status),
{
    if status == 0 {
        Ok(())
    } else {
        Err(Error::GenericFailure)
    }
}

/// Interprets the status of a native object setter together with the OS error
/// code read immediately after the call, refining the code into the taxonomy.
pub fn handle_file_error(status: i32, os_code: i32) -> (r: Result<(), Error>)
    ensures
        r == spec_refined_result(status, os_code),
{
    if status == 0 {
        Ok(())
    } else if os_code == no_space_code() {
        Err(Error::NoSpace)
    } else if os_code == quota_code() {
        Err(Error::QuotaExceeded)
    } else if os_code == not_supported_code() {
        Err(Error::NotSupported)
    } else {
        Err(Error::SysErrno(os_code))
    }
}

} // verus!
