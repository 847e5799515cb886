//! Runtime type descriptors and the layout rules they must satisfy.
//!
//! A descriptor records, as plain data, what the platform needs in order to
//! place a value of the described type into a call frame: a kind tag, a
//! size, an alignment and, for composite kinds, the ordered descriptors of
//! the elements. Descriptors arrive from the caller at runtime, so the
//! interface builder trusts none of them: [`check_type`] decides exactly
//! whether a descriptor is internally consistent — a primitive must carry
//! the platform's size and alignment for its kind, and a composite's
//! declared size and alignment must agree with the layout computed from its
//! nested element descriptors.

use vstd::prelude::*;
use vstd::arithmetic::div_mod::lemma_fundamental_div_mod;
use vstd::arithmetic::div_mod::lemma_fundamental_div_mod_converse;
use vstd::arithmetic::div_mod::lemma_mod_bound;

verus! {

/// The kind tag of a type descriptor. The float kinds describe layout
/// metadata only; no floating-point value flows through this crate.
#[derive(Debug, PartialEq, Eq, Structural, Copy, Clone)]
pub enum TypeKind {
    Void,
    UInt8,
    SInt8,
    UInt16,
    SInt16,
    UInt32,
    SInt32,
    UInt64,
    SInt64,
    Float,
    Double,
    Pointer,
    Structure,
}

/// A runtime type descriptor: the layout metadata the platform reads when
/// it marshals a value of this type. `elements` is empty for every kind
/// but [`TypeKind::Structure`].
///
/// Fields are public on purpose: descriptors are caller-supplied runtime
/// metadata, and nothing is assumed about them until [`check_type`] has
/// accepted them.
#[derive(Debug)]
pub struct TypeDesc {
    pub kind: TypeKind,
    pub size: usize,
    pub alignment: usize,
    pub elements: Vec<TypeDesc>,
}

/// Size in bytes of a primitive kind on the modeled 64-bit platform, where
/// every primitive's alignment equals its size. `Structure` has no
/// intrinsic size; its layout comes from its elements.
pub open spec fn spec_kind_size(k: TypeKind) -> nat {
    match k {
        TypeKind::Void => 1,
        TypeKind::UInt8 => 1,
        TypeKind::SInt8 => 1,
        TypeKind::UInt16 => 2,
        TypeKind::SInt16 => 2,
        TypeKind::UInt32 => 4,
        TypeKind::SInt32 => 4,
        TypeKind::UInt64 => 8,
        TypeKind::SInt64 => 8,
        TypeKind::Float => 4,
        TypeKind::Double => 8,
        TypeKind::Pointer => 8,
        TypeKind::Structure => 0,
    }
}

/// Executable mirror of [`spec_kind_size`].
pub fn kind_size(k: TypeKind) -> (r: usize)
    ensures
        r as nat == spec_kind_size(k),
{
    match k {
        TypeKind::Void => 1,
        TypeKind::UInt8 => 1,
        TypeKind::SInt8 => 1,
        TypeKind::UInt16 => 2,
        TypeKind::SInt16 => 2,
        TypeKind::UInt32 => 4,
        TypeKind::SInt32 => 4,
        TypeKind::UInt64 => 8,
        TypeKind::SInt64 => 8,
        TypeKind::Float => 4,
        TypeKind::Double => 8,
        TypeKind::Pointer => 8,
        TypeKind::Structure => 0,
    }
}

/// The smallest multiple of `align` that is at least `off`.
pub open spec fn align_up(off: int, align: int) -> int
    recommends
        align >= 1,
{
    ((off + align - 1) / align) * align
}

/// End offset of a packed, padded layout of `elems` placed in order from
/// offset zero: each element starts at its own alignment.
pub open spec fn packed_end(elems: Seq<TypeDesc>) -> int
    decreases elems.len(),
{
    if elems.len() == 0 {
        0
    } else {
        align_up(packed_end(elems.drop_last()), elems.last().alignment as int)
            + elems.last().size as int
    }
}

/// The largest alignment among `elems`, and at least 1.
pub open spec fn max_alignment(elems: Seq<TypeDesc>) -> int
    decreases elems.len(),
{
    if elems.len() == 0 {
        1
    } else if elems.last().alignment as int > max_alignment(elems.drop_last()) {
        elems.last().alignment as int
    } else {
        max_alignment(elems.drop_last())
    }
}

/// Total size of a composite over `elems`: the packed end, padded out to
/// the composite's own alignment.
pub open spec fn struct_size(elems: Seq<TypeDesc>) -> int {
    align_up(packed_end(elems), max_alignment(elems))
}

impl TypeDesc {
    /// Internal consistency of a descriptor, exactly as the interface
    /// builder demands it.
    pub open spec fn well_formed(self) -> bool
        decreases self,
    {
        match self.kind {
            TypeKind::Structure => {
                &&& self.elements@.len() > 0
                &&& (forall|i: int|
                    0 <= i < self.elements@.len() ==> (#[trigger] self.elements@[i]).well_formed())
                &&& self.alignment as int == max_alignment(self.elements@)
                &&& self.size as int == struct_size(self.elements@)
            },
            _ => {
                &&& self.elements@.len() == 0
                &&& self.size as nat == spec_kind_size(self.kind)
                &&& self.alignment == self.size
            },
        }
    }
}

/// `align_up` lands on a multiple of `align` within `align - 1` bytes
/// above `off`, and can be computed from `off`'s quotient and remainder.
proof fn lemma_align_up(off: int, align: int)
    requires
        0 <= off,
        1 <= align,
    ensures
        off <= align_up(off, align),
        align_up(off, align) < off + align,
        off % align == 0 ==> align_up(off, align) == off,
        off % align != 0 ==> align_up(off, align) == (off / align + 1) * align,
{
    let q = off / align;
    let r = off % align;
    lemma_fundamental_div_mod(off, align);
    lemma_mod_bound(off, align);
    let x = off + align - 1;
    if r == 0 {
        assert(x == q * align + (align - 1)) by (nonlinear_arith)
            requires
                off == align * q + r,
                r == 0,
                x == off + align - 1,
        ;
        lemma_fundamental_div_mod_converse(x, align, q, align - 1);
        assert(align_up(off, align) == q * align);
        assert(q * align == off) by (nonlinear_arith)
            requires
                off == align * q + r,
                r == 0,
        ;
    } else {
        assert(x == (q + 1) * align + (r - 1)) by (nonlinear_arith)
            requires
                off == align * q + r,
                x == off + align - 1,
        ;
        lemma_fundamental_div_mod_converse(x, align, q + 1, r - 1);
        assert(align_up(off, align) == (q + 1) * align);
        assert((q + 1) * align == off + (align - r)) by (nonlinear_arith)
            requires
                off == align * q + r,
        ;
    }
}

/// A well-formed descriptor's alignment is at least 1.
proof fn lemma_wf_alignment_pos(t: TypeDesc)
    requires
        t.well_formed(),
    ensures
        t.alignment >= 1,
{
    match t.kind {
        TypeKind::Structure => {
            lemma_max_alignment_pos(t.elements@);
        },
        _ => {},
    }
}

/// The maximum alignment of any element sequence is at least 1.
proof fn lemma_max_alignment_pos(elems: Seq<TypeDesc>)
    ensures
        max_alignment(elems) >= 1,
    decreases elems.len(),
{
    if elems.len() > 0 {
        lemma_max_alignment_pos(elems.drop_last());
    }
}

/// With positive element alignments, packed layout offsets never go
/// negative.
proof fn lemma_packed_end_nonneg(elems: Seq<TypeDesc>)
    requires
        forall|i: int| 0 <= i < elems.len() ==> #[trigger] elems[i].alignment >= 1,
    ensures
        packed_end(elems) >= 0,
    decreases elems.len(),
{
    if elems.len() > 0 {
        assert(forall|i: int|
            0 <= i < elems.drop_last().len() ==> #[trigger] elems.drop_last()[i].alignment >= 1);
        lemma_packed_end_nonneg(elems.drop_last());
        lemma_align_up(packed_end(elems.drop_last()), elems.last().alignment as int);
    }
}

/// Extending the layout by further elements never moves its end backwards:
/// the packed end of a prefix bounds the packed end of the whole.
proof fn lemma_packed_end_prefix(elems: Seq<TypeDesc>, i: int)
    requires
        forall|j: int| 0 <= j < elems.len() ==> #[trigger] elems[j].alignment >= 1,
        0 <= i <= elems.len(),
    ensures
        packed_end(elems.take(i)) <= packed_end(elems),
    decreases elems.len() - i,
{
    if i == elems.len() {
        assert(elems.take(i) =~= elems);
    } else {
        let shorter = elems.take(i);
        let longer = elems.take(i + 1);
        assert(longer.drop_last() =~= shorter);
        assert(longer.last() == elems[i]);
        assert(forall|j: int| 0 <= j < shorter.len() ==> #[trigger] shorter[j].alignment >= 1);
        lemma_packed_end_nonneg(shorter);
        lemma_align_up(packed_end(shorter), elems[i].alignment as int);
        assert(packed_end(shorter) <= packed_end(longer));
        lemma_packed_end_prefix(elems, i + 1);
    }
}

/// A composite's total size is at least the packed end of any prefix of
/// its elements.
proof fn lemma_struct_size_ge_prefix(elems: Seq<TypeDesc>, i: int)
    requires
        forall|j: int| 0 <= j < elems.len() ==> #[trigger] elems[j].alignment >= 1,
        0 <= i <= elems.len(),
    ensures
        struct_size(elems) >= packed_end(elems.take(i)),
{
    lemma_packed_end_prefix(elems, i);
    lemma_packed_end_nonneg(elems);
    lemma_max_alignment_pos(elems);
    lemma_align_up(packed_end(elems), max_alignment(elems));
}

/// Rounds `off` up to the next multiple of `align`, or reports that the
/// result would not fit in a `usize`.
fn align_up_checked(off: usize, align: usize) -> (r: Option<usize>)
    requires
        align >= 1,
    ensures
        r matches Some(v) ==> v as int == align_up(off as int, align as int),
        r is None ==> align_up(off as int, align as int) > usize::MAX,
{
    proof {
        lemma_align_up(off as int, align as int);
    }
    let rem = off % align;
    if rem == 0 {
        Some(off)
    } else {
        let q = off / align;
        let cap = usize::MAX / align;
        if q < cap {
            proof {
                lemma_fundamental_div_mod(usize::MAX as int, align as int);
                lemma_mod_bound(usize::MAX as int, align as int);
                assert((q as int + 1) * (align as int) <= usize::MAX as int) by (nonlinear_arith)
                    requires
                        (q as int) < (cap as int),
                        usize::MAX as int == (align as int) * (cap as int) + usize::MAX as int
                            % (align as int),
                        usize::MAX as int % (align as int) >= 0,
                        align as int >= 1,
                ;
            }
            Some((q + 1) * align)
        } else {
            proof {
                lemma_fundamental_div_mod(usize::MAX as int, align as int);
                lemma_mod_bound(usize::MAX as int, align as int);
                assert((q as int + 1) * (align as int) > usize::MAX as int) by (nonlinear_arith)
                    requires
                        q as int >= cap as int,
                        usize::MAX as int == (align as int) * (cap as int) + usize::MAX as int
                            % (align as int),
                        usize::MAX as int % (align as int) < align as int,
                        align as int >= 1,
                ;
            }
            None
        }
    }
}

/// Decides whether a descriptor is internally consistent: primitives must
/// carry their kind's platform size and alignment with no elements, and a
/// composite's declared alignment and size must equal the maximum element
/// alignment and the padded layout size computed from its elements.
#[verifier::loop_isolation(false)]
pub fn check_type(t: &TypeDesc) -> (r: bool)
    ensures
        r == t.well_formed(),
    decreases *t,
{
    match t.kind {
        TypeKind::Structure => {},
        k => {
            let want = kind_size(k);
            return t.elements.len() == 0 && t.size == want && t.alignment == want;
        },
    }
    let n = t.elements.len();
    if n == 0 {
        return false;
    }
    let mut i: usize = 0;
    while i < n
        invariant
            0 <= i <= n,
            n == t.elements@.len(),
            forall|j: int| 0 <= j < i ==> (#[trigger] t.elements@[j]).well_formed(),
        decreases n - i,
    {
        if !check_type(&t.elements[i]) {
            return false;
        }
        i += 1;
    }
    proof {
        assert(forall|j: int|
            0 <= j < t.elements@.len() ==> (#[trigger] t.elements@[j]).alignment >= 1) by {
            assert forall|j: int| 0 <= j < t.elements@.len() implies (#[trigger] t.elements@[
                j
            ]).alignment >= 1 by {
                lemma_wf_alignment_pos(t.elements@[j]);
            }
        }
    }
    let mut off: usize = 0;
    let mut algn: usize = 1;
    let mut i: usize = 0;
    while i < n
        invariant
            0 <= i <= n,
            n == t.elements@.len(),
            forall|j: int| 0 <= j < n ==> (#[trigger] t.elements@[j]).well_formed(),
            forall|j: int| 0 <= j < n ==> (#[trigger] t.elements@[j]).alignment >= 1,
            off as int == packed_end(t.elements@.take(i as int)),
            algn as int == max_alignment(t.elements@.take(i as int)),
            algn >= 1,
        decreases n - i,
    {
        let e = &t.elements[i];
        proof {
            assert(t.elements@.take(i as int + 1).drop_last() =~= t.elements@.take(i as int));
            assert(t.elements@.take(i as int + 1).last() == t.elements@[i as int]);
        }
        let padded = match align_up_checked(off, e.alignment) {
            Some(v) => v,
            None => {
                proof {
                    lemma_struct_size_ge_prefix(t.elements@, i as int + 1);
                }
                return false;
            },
        };
        if padded > usize::MAX - e.size {
            proof {
                lemma_struct_size_ge_prefix(t.elements@, i as int + 1);
            }
            return false;
        }
        off = padded + e.size;
        if e.alignment > algn {
            algn = e.alignment;
        }
        i += 1;
    }
    proof {
        assert(t.elements@.take(n as int) =~= t.elements@);
    }
    match align_up_checked(off, algn) {
        Some(total) => t.size == total && t.alignment == algn,
        None => false,
    }
}

/// Builds the platform's descriptor for a primitive kind; the result is
/// well formed by construction.
pub fn primitive(k: TypeKind) -> (t: TypeDesc)
    requires
        k != TypeKind::Structure,
    ensures
        t.well_formed(),
        t.kind == k,
        t.size as nat == spec_kind_size(k),
        t.alignment as nat == spec_kind_size(k),
{
    let s = kind_size(k);
    TypeDesc { kind: k, size: s, alignment: s, elements: Vec::new() }
}

} // verus!
