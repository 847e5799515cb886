//! The closure-trampoline lifecycle: allocate, prepare, invoke, free.
//!
//! A closure trampoline is a callable entry point manufactured at runtime:
//! once prepared with a call interface, a callback and captured user data,
//! arbitrary call sites may call it like any function of that interface,
//! and every such invocation is forwarded to the callback together with the
//! call frame and the captured user data.
//!
//! On the platform, a trampoline is a dual-mapped region of memory — one
//! writable handle and one distinct executable entry-point address aliasing
//! the same allocation, because modern platforms refuse memory that is
//! writable and executable at once. This model carries both roles in one
//! value: mutation (preparing, freeing) goes through the writable role as
//! `&mut`, invocation through the executable role as `&`. The lifecycle is
//! the state machine `Allocated -> Prepared -> Freed`: rebinding a prepared
//! trampoline is not a supported transition (free it and allocate a fresh
//! one), and `Freed` is terminal.

use vstd::prelude::*;
use vstd::pervasive::arbitrary;
use vstd::pervasive::unreached;
use crate::Error;
use crate::FfiResult;
use crate::FfiStatus;
use crate::ffi_status_to_result;
use crate::cif::Cif;
use crate::cif::ABI_SYSV;
use crate::cif::abi_closure_supported;

verus! {

/// A closure trampoline in one of its three lifecycle states. `U` is the
/// type of the captured user data and `F` the callback bound at
/// preparation time.
///
/// The callback contract: on every invocation of the prepared trampoline
/// it receives the call interface, the call frame of argument words, and
/// the captured user data, and it produces the call's return value.
pub enum Closure<U, F> {
    /// Freshly allocated; not yet safely callable.
    Allocated,
    /// Bound to an interface, a callback and user data; callable.
    Prepared { cif: Cif, callback: F, userdata: U },
    /// Released; every use past this state is undefined behavior on the
    /// platform, and unrepresentable here.
    Freed,
}

impl<U, F> Closure<U, F> {
    /// The interface a prepared trampoline was bound to.
    pub open spec fn prepared_cif(self) -> Cif
        recommends
            self is Prepared,
    {
        match self {
            Closure::Prepared { cif, .. } => cif,
            _ => arbitrary(),
        }
    }

    /// The callback a prepared trampoline forwards to.
    pub open spec fn prepared_callback(self) -> F
        recommends
            self is Prepared,
    {
        match self {
            Closure::Prepared { callback, .. } => callback,
            _ => arbitrary(),
        }
    }

    /// The user data captured at preparation time; every invocation
    /// delivers this same value to the callback.
    pub open spec fn prepared_userdata(self) -> U
        recommends
            self is Prepared,
    {
        match self {
            Closure::Prepared { userdata, .. } => userdata,
            _ => arbitrary(),
        }
    }

    /// Calls a prepared trampoline's entry point with one call frame.
    ///
    /// Exactly as the dispatcher would, the entry point hands the callback
    /// the interface, the argument words and the captured user data, and
    /// returns what the callback produced. Each invocation gets its own
    /// ephemeral frame and touches nothing shared, so a prepared trampoline
    /// may be invoked through any number of shared borrows at once; only
    /// the callback itself must synchronize what it does to the user data.
    /// The frame's arity is the caller's obligation — the platform performs
    /// no check at call time, and invoking a trampoline that is not in the
    /// prepared state (never prepared, or already freed) is undefined
    /// behavior there, which the preconditions here make unrepresentable.
    pub fn invoke<R>(&self, args: &Vec<u64>) -> (r: R) where F: Fn(&Cif, &Vec<u64>, &U) -> R
        requires
            *self is Prepared,
            args@.len() == self.prepared_cif().spec_ntotalargs(),
            call_requires(
                self.prepared_callback(),
                (&self.prepared_cif(), args, &self.prepared_userdata()),
            ),
        ensures
            call_ensures(
                self.prepared_callback(),
                (&self.prepared_cif(), args, &self.prepared_userdata()),
                r,
            ),
    {
        match self {
            Closure::Prepared { cif, callback, userdata } => callback(cif, args, userdata),
            _ => unreached(),
        }
    }
}

/// Allocates a fresh trampoline: both roles of the dual mapping, not yet
/// bound to anything. Its entry point only becomes callable once
/// [`prep_closure_loc`] succeeds on it.
pub fn closure_alloc<U, F>() -> (c: Closure<U, F>)
    ensures
        c is Allocated,
{
    Closure::Allocated
}

/// Prepares an allocated trampoline: binds a built interface, the callback
/// and the user data, after which the entry point is callable.
///
/// The type-metadata conditions of interface construction were settled when
/// `cif` was built, so what remains is the calling convention: preparation
/// succeeds exactly when the platform can generate trampolines for the
/// interface's ABI, and fails with [`Error::BadAbi`] otherwise, leaving the
/// trampoline unbound (allocated) and no usable entry point behind.
pub fn prep_closure_loc<U, F>(
    closure: &mut Closure<U, F>,
    cif: Cif,
    callback: F,
    userdata: U,
) -> (r: FfiResult<()>)
    requires
        *old(closure) is Allocated,
        cif.well_formed(),
    ensures
        r is Ok <==> abi_closure_supported(cif.spec_abi()),
        abi_closure_supported(cif.spec_abi()) ==> {
            &&& r == Ok::<(), Error>(())
            &&& *final(closure) is Prepared
            &&& final(closure).prepared_cif() == cif
            &&& final(closure).prepared_callback() == callback
            &&& final(closure).prepared_userdata() == userdata
        },
        !abi_closure_supported(cif.spec_abi()) ==> {
            &&& r == Err::<(), Error>(Error::BadAbi)
            &&& *final(closure) is Allocated
        },
{
    if cif.abi() == ABI_SYSV {
        *closure = Closure::Prepared { cif, callback, userdata };
        ffi_status_to_result(FfiStatus::Success, ())
    } else {
        ffi_status_to_result(FfiStatus::BadAbi, ())
    }
}

/// Releases a trampoline from either live state, dropping whatever it
/// captured. Freeing is terminal: on the platform both addresses of the
/// dual mapping dangle afterwards, and any later invocation of the old
/// entry point, double free, or rebinding is undefined behavior — here,
/// those uses are ruled out, since a freed trampoline satisfies no
/// operation's preconditions. The caller alone must know that no native
/// code still holds the entry point when it frees.
pub fn closure_free<U, F>(closure: &mut Closure<U, F>)
    requires
        !(*old(closure) is Freed),
    ensures
        *final(closure) is Freed,
{
    *closure = Closure::Freed;
}

} // verus!
