use libffi::cif::call;
use libffi::cif::prep_cif;
use libffi::cif::prep_cif_var;
use libffi::cif::Cif;
use libffi::cif::ABI_SYSV;
use libffi::cif::ABI_WIN64;
use libffi::cif::DEFAULT_ABI;
use libffi::cif::FIRST_ABI;
use libffi::cif::LAST_ABI;
use libffi::closure::closure_alloc;
use libffi::closure::closure_free;
use libffi::closure::prep_closure_loc;
use libffi::ffi_status_to_result;
use libffi::types::check_type;
use libffi::types::kind_size;
use libffi::types::primitive;
use libffi::types::TypeDesc;
use libffi::types::TypeKind;
use libffi::Error;
use libffi::FfiStatus;

fn u64_pair() -> (TypeDesc, Vec<TypeDesc>) {
    (primitive(TypeKind::UInt64), vec![primitive(TypeKind::UInt64)])
}

#[test]
fn closure() {
    let (rtype, atypes) = u64_pair();
    let cif = prep_cif(DEFAULT_ABI, rtype, atypes).unwrap();
    let mut tramp = closure_alloc();
    let env: u64 = 5;
    let callback = |_cif: &Cif, args: &Vec<u64>, userdata: &u64| args[0] + *userdata;
    prep_closure_loc(&mut tramp, cif, callback, env).unwrap();
    assert_eq!(11, tramp.invoke(&vec![6u64]));
    assert_eq!(12, tramp.invoke(&vec![7u64]));
}

#[test]
fn closure_repeat_invocations_are_idempotent() {
    let (rtype, atypes) = u64_pair();
    let cif = prep_cif(DEFAULT_ABI, rtype, atypes).unwrap();
    let mut tramp = closure_alloc();
    let callback = |_cif: &Cif, args: &Vec<u64>, userdata: &u64| args[0] + *userdata;
    prep_closure_loc(&mut tramp, cif, callback, 5u64).unwrap();
    for _ in 0..3 {
        assert_eq!(11, tramp.invoke(&vec![6u64]));
        assert_eq!(12, tramp.invoke(&vec![7u64]));
    }
    closure_free(&mut tramp);
}

#[test]
fn closure_invocations_do_not_share_frames() {
    let (rtype, atypes) = u64_pair();
    let cif = prep_cif(DEFAULT_ABI, rtype, atypes).unwrap();
    let mut tramp = closure_alloc();
    let callback = |_cif: &Cif, args: &Vec<u64>, userdata: &u64| args[0] + *userdata;
    prep_closure_loc(&mut tramp, cif, callback, 1000u64).unwrap();
    let entry_a = &tramp;
    let entry_b = &tramp;
    assert_eq!(1001, entry_a.invoke(&vec![1u64]));
    assert_eq!(1100, entry_b.invoke(&vec![100u64]));
    assert_eq!(1002, entry_a.invoke(&vec![2u64]));
    assert_eq!(1200, entry_b.invoke(&vec![200u64]));
}

fn add_captured(_cif: &Cif, args: &Vec<u64>, userdata: &u64) -> u64 {
    args[0] + *userdata
}

#[test]
fn closure_preparation_needs_a_trampoline_abi() {
    let (rtype, atypes) = u64_pair();
    let cif = prep_cif(ABI_WIN64, rtype, atypes).unwrap();
    let mut tramp = closure_alloc();
    let failed = prep_closure_loc(&mut tramp, cif, add_captured, 5u64);
    assert_eq!(failed, Err(Error::BadAbi));
    // A failed preparation binds nothing: the same allocation can be
    // prepared again with a usable interface.
    let (rtype, atypes) = u64_pair();
    let cif = prep_cif(ABI_SYSV, rtype, atypes).unwrap();
    prep_closure_loc(&mut tramp, cif, add_captured, 5u64).unwrap();
    assert_eq!(11, tramp.invoke(&vec![6u64]));
    closure_free(&mut tramp);
}

#[test]
fn call_round_trips_a_successor_function() {
    let (rtype, atypes) = u64_pair();
    let cif = prep_cif(DEFAULT_ABI, rtype, atypes).unwrap();
    let successor = |args: &Vec<u64>| args[0].wrapping_add(1);
    assert_eq!(1u64, call(&cif, successor, &vec![0u64]));
    assert_eq!(43u64, call(&cif, successor, &vec![42u64]));
    assert_eq!(0u64, call(&cif, successor, &vec![u64::MAX]));
}

#[test]
fn build_succeeds_on_supported_requests() {
    for abi in [ABI_SYSV, ABI_WIN64] {
        let rtype = primitive(TypeKind::SInt32);
        let atypes = vec![
            primitive(TypeKind::UInt8),
            primitive(TypeKind::Pointer),
            primitive(TypeKind::Double),
        ];
        let cif = prep_cif(abi, rtype, atypes).unwrap();
        assert_eq!(3, cif.nargs());
        assert_eq!(3, cif.nfixedargs());
        assert_eq!(abi, cif.abi());
    }
    let void_to_void = prep_cif(DEFAULT_ABI, primitive(TypeKind::Void), Vec::new()).unwrap();
    assert_eq!(0, void_to_void.nargs());
}

#[test]
fn build_rejects_malformed_descriptors() {
    // A primitive whose declared size contradicts its kind.
    let bad_prim = TypeDesc { kind: TypeKind::UInt32, size: 3, alignment: 3, elements: Vec::new() };
    assert_eq!(
        prep_cif(DEFAULT_ABI, bad_prim, Vec::new()).unwrap_err(),
        Error::BadTypedef
    );
    // A composite with no elements cannot be resolved.
    let empty =
        TypeDesc { kind: TypeKind::Structure, size: 0, alignment: 1, elements: Vec::new() };
    assert_eq!(
        prep_cif(DEFAULT_ABI, empty, Vec::new()).unwrap_err(),
        Error::BadTypedef
    );
    // A malformed argument type fails the build even when the return type
    // is fine.
    let bad_arg = TypeDesc { kind: TypeKind::UInt8, size: 2, alignment: 2, elements: Vec::new() };
    assert_eq!(
        prep_cif(DEFAULT_ABI, primitive(TypeKind::Void), vec![bad_arg]).unwrap_err(),
        Error::BadTypedef
    );
}

#[test]
fn build_rejects_unsupported_abis() {
    for abi in [FIRST_ABI, LAST_ABI, 99] {
        let (rtype, atypes) = u64_pair();
        assert_eq!(prep_cif(abi, rtype, atypes).unwrap_err(), Error::BadAbi);
    }
    // The platform reports the calling convention before it reads any type
    // metadata.
    let bad_prim = TypeDesc { kind: TypeKind::UInt32, size: 3, alignment: 3, elements: Vec::new() };
    assert_eq!(
        prep_cif(LAST_ABI, bad_prim, Vec::new()).unwrap_err(),
        Error::BadAbi
    );
}

#[test]
fn variadic_builds_keep_the_fixed_split() {
    let rtype = primitive(TypeKind::SInt32);
    let atypes = vec![
        primitive(TypeKind::Pointer),
        primitive(TypeKind::UInt64),
        primitive(TypeKind::SInt32),
    ];
    let cif = prep_cif_var(DEFAULT_ABI, 1, 3, rtype, atypes).unwrap();
    assert_eq!(3, cif.nargs());
    assert_eq!(1, cif.nfixedargs());
    assert_eq!(DEFAULT_ABI, cif.abi());
    let bad = prep_cif_var(FIRST_ABI, 0, 0, primitive(TypeKind::Void), Vec::new());
    assert_eq!(bad.unwrap_err(), Error::BadAbi);
}

#[test]
fn composite_layouts_must_agree_with_their_elements() {
    // (u8, u32): the u32 starts at offset 4, so the composite spans 8
    // bytes at alignment 4.
    let pair = TypeDesc {
        kind: TypeKind::Structure,
        size: 8,
        alignment: 4,
        elements: vec![primitive(TypeKind::UInt8), primitive(TypeKind::UInt32)],
    };
    assert!(check_type(&pair));
    // (u16, u8) ends at offset 3 and pads out to its alignment of 2.
    let padded = TypeDesc {
        kind: TypeKind::Structure,
        size: 4,
        alignment: 2,
        elements: vec![primitive(TypeKind::UInt16), primitive(TypeKind::UInt8)],
    };
    assert!(check_type(&padded));
    // A nested composite contributes its own computed layout: (u8, (u32,
    // u32)) spans 12 bytes at alignment 4.
    let inner = TypeDesc {
        kind: TypeKind::Structure,
        size: 8,
        alignment: 4,
        elements: vec![primitive(TypeKind::UInt32), primitive(TypeKind::UInt32)],
    };
    let outer = TypeDesc {
        kind: TypeKind::Structure,
        size: 12,
        alignment: 4,
        elements: vec![primitive(TypeKind::UInt8), inner],
    };
    assert!(check_type(&outer));
    // The same shapes with a contradictory declared size or alignment are
    // rejected, and reject the build.
    let wrong_size = TypeDesc {
        kind: TypeKind::Structure,
        size: 5,
        alignment: 4,
        elements: vec![primitive(TypeKind::UInt8), primitive(TypeKind::UInt32)],
    };
    assert!(!check_type(&wrong_size));
    let wrong_align = TypeDesc {
        kind: TypeKind::Structure,
        size: 8,
        alignment: 8,
        elements: vec![primitive(TypeKind::UInt8), primitive(TypeKind::UInt32)],
    };
    assert!(!check_type(&wrong_align));
    let wrong = TypeDesc {
        kind: TypeKind::Structure,
        size: 5,
        alignment: 4,
        elements: vec![primitive(TypeKind::UInt8), primitive(TypeKind::UInt32)],
    };
    assert_eq!(
        prep_cif(DEFAULT_ABI, primitive(TypeKind::Void), vec![wrong]).unwrap_err(),
        Error::BadTypedef
    );
}

#[test]
fn primitive_descriptors_carry_their_platform_layout() {
    let kinds = [
        (TypeKind::Void, 1),
        (TypeKind::UInt8, 1),
        (TypeKind::SInt8, 1),
        (TypeKind::UInt16, 2),
        (TypeKind::SInt16, 2),
        (TypeKind::UInt32, 4),
        (TypeKind::SInt32, 4),
        (TypeKind::UInt64, 8),
        (TypeKind::SInt64, 8),
        (TypeKind::Float, 4),
        (TypeKind::Double, 8),
        (TypeKind::Pointer, 8),
    ];
    for (kind, size) in kinds {
        assert_eq!(size, kind_size(kind));
        let t = primitive(kind);
        assert_eq!(t.size, size);
        assert_eq!(t.alignment, size);
        assert!(check_type(&t));
    }
    // A primitive carrying elements is inconsistent.
    let crowded = TypeDesc {
        kind: TypeKind::UInt8,
        size: 1,
        alignment: 1,
        elements: vec![primitive(TypeKind::UInt8)],
    };
    assert!(!check_type(&crowded));
}

#[test]
fn status_codes_map_to_results() {
    assert_eq!(Ok(7u32), ffi_status_to_result(FfiStatus::Success, 7u32));
    assert_eq!(
        Err(Error::BadTypedef),
        ffi_status_to_result(FfiStatus::BadTypedef, ())
    );
    assert_eq!(Err(Error::BadAbi), ffi_status_to_result(FfiStatus::BadAbi, ()));
}

#[test]
fn error_kind_basics() {
    assert!(Error::BadTypedef < Error::BadAbi);
    let copied = Error::BadAbi;
    assert_eq!(copied, Error::BadAbi);
    assert_ne!(Error::BadTypedef, Error::BadAbi);
}
