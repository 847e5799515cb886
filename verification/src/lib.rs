//! Foreign-call interfaces built from runtime type metadata.
//!
//! A caller describes a foreign function's signature with type descriptors
//! known only at runtime, builds a validated call-interface descriptor from
//! them, and then either dispatches calls through that descriptor or binds it
//! into a closure trampoline whose entry point forwards every invocation to a
//! callback together with captured user data.
//!
//! This crate holds the protocol around the platform's native calling
//! machinery: descriptor validation (including the exact layout rules a
//! composite type descriptor must satisfy), the call-frame discipline of the
//! dispatcher, the trampoline lifecycle, and the status-to-result plumbing.
//! The machine-level work itself — marshaling registers and mapping
//! executable memory — belongs to the platform layer outside this crate.

use vstd::prelude::*;

pub mod types;
pub mod cif;
pub mod closure;

verus! {

/// The two kinds of errors reported by interface construction and
/// trampoline preparation; every other misuse of this layer is documented
/// undefined behavior rather than a reported error.
#[derive(Debug, PartialEq, Eq, Structural, PartialOrd, Ord, Copy, Clone)]
pub enum Error {
    /// A type descriptor (return or argument) is structurally invalid:
    /// its declared sizes, alignments or element lists are inconsistent.
    BadTypedef,
    /// The requested calling-convention tag is not one this platform
    /// implements.
    BadAbi,
}

/// A specialized result type for foreign-interface operations.
pub type FfiResult<T> = Result<T, Error>;

/// Status codes in the shape the native calling layer reports them:
/// one success code and one code per [`Error`] kind.
#[derive(Debug, PartialEq, Eq, Structural, Copy, Clone)]
pub enum FfiStatus {
    Success,
    BadTypedef,
    BadAbi,
}

/// Maps a native status code to a result, carrying `good` through on
/// success and the matching [`Error`] kind otherwise.
pub fn ffi_status_to_result<R>(status: FfiStatus, good: R) -> (r: FfiResult<R>)
    ensures
        status == FfiStatus::Success ==> r == Ok::<R, Error>(good),
        status == FfiStatus::BadTypedef ==> r == Err::<R, Error>(Error::BadTypedef),
        status == FfiStatus::BadAbi ==> r == Err::<R, Error>(Error::BadAbi),
{
    match status {
        FfiStatus::Success => Ok(good),
        FfiStatus::BadTypedef => Err(Error::BadTypedef),
        FfiStatus::BadAbi => Err(Error::BadAbi),
    }
}

} // verus!
