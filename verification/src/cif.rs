//! Call-interface descriptors and the dispatcher.
//!
//! A call interface (CIF) packages a calling-convention tag, a return-type
//! descriptor and the ordered argument-type descriptors of a foreign
//! function. [`prep_cif`] and [`prep_cif_var`] validate the request and
//! produce the descriptor; a built descriptor is immutable and may back any
//! number of [`call`] dispatches or closure preparations. Validation happens
//! here and only here: the dispatcher itself re-checks nothing.

use vstd::prelude::*;
use crate::Error;
use crate::FfiResult;
use crate::FfiStatus;
use crate::ffi_status_to_result;
use crate::types::TypeDesc;
use crate::types::check_type;

verus! {

/// The lowest calling-convention tag; no tag at or below it is valid.
pub const FIRST_ABI: u32 = 0;

/// The platform's native calling convention.
pub const ABI_SYSV: u32 = 1;

/// An alternate calling convention the platform can dispatch through, but
/// for which it cannot generate closure trampolines.
pub const ABI_WIN64: u32 = 2;

/// One past the highest supported tag.
pub const LAST_ABI: u32 = 3;

/// The calling convention used when the caller has no reason to pick
/// another.
pub const DEFAULT_ABI: u32 = ABI_SYSV;

/// Whether the platform implements calls through `abi`.
pub open spec fn abi_supported(abi: u32) -> bool {
    FIRST_ABI < abi < LAST_ABI
}

/// Whether the platform can generate closure trampolines for `abi`; a
/// strict subset of the conventions it can dispatch through.
pub open spec fn abi_closure_supported(abi: u32) -> bool {
    abi == ABI_SYSV
}

/// Whether `rtype` and every entry of `atypes` is an internally consistent
/// descriptor — the type-metadata half of what interface construction
/// validates.
pub open spec fn types_ok(rtype: TypeDesc, atypes: Seq<TypeDesc>) -> bool {
    &&& rtype.well_formed()
    &&& forall|i: int| 0 <= i < atypes.len() ==> (#[trigger] atypes[i]).well_formed()
}

/// A call interface: an ABI tag, an argument count (fixed, or fixed plus a
/// variadic tail), a return-type descriptor and the ordered argument-type
/// descriptors. Immutable once built; only [`prep_cif`] and
/// [`prep_cif_var`] produce one, so every `Cif` a caller can hold is well
/// formed.
#[derive(Debug)]
pub struct Cif {
    abi: u32,
    nfixedargs: usize,
    ntotalargs: usize,
    rtype: TypeDesc,
    atypes: Vec<TypeDesc>,
}

impl Cif {
    /// The ABI tag the interface was built with.
    pub closed spec fn spec_abi(self) -> u32 {
        self.abi
    }

    /// How many leading arguments carry their types statically; equal to
    /// the total count unless the interface is variadic.
    pub closed spec fn spec_nfixedargs(self) -> nat {
        self.nfixedargs as nat
    }

    /// The total argument count of one call through this interface.
    pub closed spec fn spec_ntotalargs(self) -> nat {
        self.ntotalargs as nat
    }

    /// The return-type descriptor.
    pub closed spec fn spec_rtype(self) -> TypeDesc {
        self.rtype
    }

    /// The argument-type descriptors, in call order.
    pub closed spec fn spec_atypes(self) -> Seq<TypeDesc> {
        self.atypes@
    }

    /// What construction guarantees of every interface it hands out.
    pub open spec fn well_formed(self) -> bool {
        &&& abi_supported(self.spec_abi())
        &&& types_ok(self.spec_rtype(), self.spec_atypes())
        &&& self.spec_nfixedargs() <= self.spec_ntotalargs()
        &&& self.spec_atypes().len() == self.spec_ntotalargs()
    }

    /// The ABI tag, as built.
    pub fn abi(&self) -> (r: u32)
        ensures
            r == self.spec_abi(),
    {
        self.abi
    }

    /// The total argument count of one call.
    pub fn nargs(&self) -> (r: usize)
        ensures
            r as nat == self.spec_ntotalargs(),
    {
        self.ntotalargs
    }

    /// The count of fixed, statically typed leading arguments.
    pub fn nfixedargs(&self) -> (r: usize)
        ensures
            r as nat == self.spec_nfixedargs(),
    {
        self.nfixedargs
    }
}

/// Checks the whole type list of a build request: the return type and each
/// argument type in order.
fn check_request_types(rtype: &TypeDesc, atypes: &Vec<TypeDesc>) -> (ok: bool)
    ensures
        ok == types_ok(*rtype, atypes@),
{
    if !check_type(rtype) {
        return false;
    }
    let n = atypes.len();
    let mut i: usize = 0;
    while i < n
        invariant
            0 <= i <= n,
            n == atypes@.len(),
            rtype.well_formed(),
            forall|j: int| 0 <= j < i ==> (#[trigger] atypes@[j]).well_formed(),
        decreases n - i,
    {
        if !check_type(&atypes[i]) {
            return false;
        }
        i += 1;
    }
    true
}

/// Validates one build request and packages the descriptor, reporting the
/// outcome the way the native layer does: as a status that
/// [`ffi_status_to_result`] turns into a result. An unsupported ABI wins
/// over malformed types, as the platform reports it.
fn build(abi: u32, nfixedargs: usize, ntotalargs: usize, rtype: TypeDesc, atypes: Vec<TypeDesc>)
    -> (r: FfiResult<Cif>)
    requires
        nfixedargs <= ntotalargs,
        atypes@.len() == ntotalargs,
    ensures
        !abi_supported(abi) ==> r == Err::<Cif, Error>(Error::BadAbi),
        abi_supported(abi) && !types_ok(rtype, atypes@) ==> r == Err::<Cif, Error>(
            Error::BadTypedef,
        ),
        abi_supported(abi) && types_ok(rtype, atypes@) ==> (r matches Ok(c) && {
            &&& c.well_formed()
            &&& c.spec_abi() == abi
            &&& c.spec_nfixedargs() == nfixedargs as nat
            &&& c.spec_ntotalargs() == ntotalargs as nat
            &&& c.spec_rtype() == rtype
            &&& c.spec_atypes() == atypes@
        }),
{
    let status = if !(FIRST_ABI < abi && abi < LAST_ABI) {
        FfiStatus::BadAbi
    } else if !check_request_types(&rtype, &atypes) {
        FfiStatus::BadTypedef
    } else {
        FfiStatus::Success
    };
    ffi_status_to_result(status, Cif { abi, nfixedargs, ntotalargs, rtype, atypes })
}

/// Builds a call interface over `abi` with return type `rtype` and exactly
/// the arguments described by `atypes`.
///
/// Succeeds precisely when the platform implements `abi` and every
/// descriptor in the request is internally consistent; the resulting
/// interface's argument count equals `atypes.len()`. Fails with
/// [`Error::BadAbi`] on an unsupported tag and otherwise with
/// [`Error::BadTypedef`] on a malformed descriptor. On failure nothing is
/// built and the request's descriptors are simply dropped: there is no
/// partially constructed interface a caller could observe.
///
/// The interface retains the descriptors for its whole lifetime; the
/// platform layer that consumes it additionally requires the native type
/// metadata the descriptors were read from to stay valid and unmoved for as
/// long as the interface (or any trampoline prepared from it) is in use —
/// violating that is undefined behavior there, not a reported error.
pub fn prep_cif(abi: u32, rtype: TypeDesc, atypes: Vec<TypeDesc>) -> (r: FfiResult<Cif>)
    ensures
        r is Ok <==> abi_supported(abi) && types_ok(rtype, atypes@),
        !abi_supported(abi) ==> r == Err::<Cif, Error>(Error::BadAbi),
        abi_supported(abi) && !types_ok(rtype, atypes@) ==> r == Err::<Cif, Error>(
            Error::BadTypedef,
        ),
        r matches Ok(c) ==> {
            &&& c.well_formed()
            &&& c.spec_abi() == abi
            &&& c.spec_nfixedargs() == atypes@.len()
            &&& c.spec_ntotalargs() == atypes@.len()
            &&& c.spec_rtype() == rtype
            &&& c.spec_atypes() == atypes@
        },
{
    let n = atypes.len();
    build(abi, n, n, rtype, atypes)
}

/// Builds a call interface for a variadic function: `nfixedargs` leading
/// arguments carry their types statically and the remaining
/// `ntotalargs - nfixedargs` are a per-call-typed tail, so `atypes` must
/// describe all `ntotalargs` arguments of the call shape being prepared.
///
/// Validation and failure modes are exactly those of [`prep_cif`].
pub fn prep_cif_var(
    abi: u32,
    nfixedargs: usize,
    ntotalargs: usize,
    rtype: TypeDesc,
    atypes: Vec<TypeDesc>,
) -> (r: FfiResult<Cif>)
    requires
        nfixedargs <= ntotalargs,
        atypes@.len() == ntotalargs,
    ensures
        r is Ok <==> abi_supported(abi) && types_ok(rtype, atypes@),
        !abi_supported(abi) ==> r == Err::<Cif, Error>(Error::BadAbi),
        abi_supported(abi) && !types_ok(rtype, atypes@) ==> r == Err::<Cif, Error>(
            Error::BadTypedef,
        ),
        r matches Ok(c) ==> {
            &&& c.well_formed()
            &&& c.spec_abi() == abi
            &&& c.spec_nfixedargs() == nfixedargs as nat
            &&& c.spec_ntotalargs() == ntotalargs as nat
            &&& c.spec_rtype() == rtype
            &&& c.spec_atypes() == atypes@
        },
{
    build(abi, nfixedargs, ntotalargs, rtype, atypes)
}

/// Dispatches one foreign call through a built interface.
///
/// `fun` stands for the target entry point: the model hands it the call
/// frame — the argument words, one per argument of the interface — and
/// returns whatever it produces as the call's result. No validation
/// happens at call time; the frame's arity is the caller's obligation, as
/// it is for the platform dispatcher, where a frame that does not match
/// the interface is undefined behavior rather than a reported error. The
/// call may block for as long as the target does; nothing here introduces
/// concurrency.
pub fn call<R, F: Fn(&Vec<u64>) -> R>(cif: &Cif, fun: F, args: &Vec<u64>) -> (r: R)
    requires
        cif.well_formed(),
        args@.len() == cif.spec_ntotalargs(),
        call_requires(fun, (args,)),
    ensures
        call_ensures(fun, (args,), r),
{
    fun(args)
}

} // verus!
