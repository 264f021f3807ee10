use rust_os::cpu_exception::{CpuException, VectorError};

fn defined_codes() -> Vec<u8> {
    let mut v: Vec<u8> = (0x00u8..=0x1E).collect();
    v.retain(|c| *c != 0x0F && !(0x15..=0x1D).contains(c));
    v
}

#[test]
fn test_round_trip_defined_codes() {
    for code in defined_codes() {
        let e = CpuException::try_from(code).expect("defined code must convert");
        assert_eq!(e.code(), code);
    }
}

#[test]
fn test_all_other_bytes_rejected() {
    let defined = defined_codes();
    for byte in 0x00u8..=0xFF {
        let r = CpuException::try_from(byte);
        if defined.contains(&byte) {
            assert!(r.is_ok());
        } else {
            assert!(r.is_err());
        }
    }
}

#[test]
fn test_reserved_codes_rejected_as_reserved() {
    let mut reserved: Vec<u8> = vec![0x0F, 0x1F];
    reserved.extend(0x15u8..=0x1D);
    for code in reserved {
        assert_eq!(
            CpuException::try_from(code),
            Err(VectorError::Reserved(code)),
            "code {code:#04X} must be rejected as reserved"
        );
    }
}

#[test]
fn test_codes_past_cpu_range_rejected_as_unknown() {
    for code in [0x20u8, 0x21, 0x7F, 0xFF] {
        assert_eq!(CpuException::try_from(code), Err(VectorError::Unknown(code)));
    }
}

#[test]
fn test_reserved_error_distinct_from_unknown_error() {
    let reserved = CpuException::try_from(0x1F).unwrap_err();
    let unknown = CpuException::try_from(0x20).unwrap_err();
    assert!(matches!(reserved, VectorError::Reserved(0x1F)));
    assert!(matches!(unknown, VectorError::Unknown(0x20)));
    assert_ne!(reserved, unknown);
    assert_eq!(reserved.code(), 0x1F);
    assert_eq!(unknown.code(), 0x20);
}

#[test]
fn test_all_lists_every_defined_vector_in_order() {
    let all = CpuException::all();
    assert_eq!(all.len(), 21);
    let codes: Vec<u8> = all.iter().map(|e| e.code()).collect();
    assert_eq!(codes, defined_codes());
}

#[test]
fn test_exactly_two_aborts() {
    let aborts: Vec<CpuException> =
        CpuException::all().into_iter().filter(|e| e.is_abort()).collect();
    assert_eq!(aborts, vec![CpuException::DoubleFault, CpuException::MachineCheck]);
}

#[test]
fn test_exactly_one_interrupt() {
    let interrupts: Vec<CpuException> =
        CpuException::all().into_iter().filter(|e| e.is_interrupt()).collect();
    assert_eq!(interrupts, vec![CpuException::NonMaskableInterrupt]);
}

#[test]
fn test_exactly_three_traps() {
    let traps: Vec<CpuException> =
        CpuException::all().into_iter().filter(|e| e.is_trap()).collect();
    assert_eq!(
        traps,
        vec![CpuException::Debug, CpuException::Breakpoint, CpuException::Overflow]
    );
}

#[test]
fn test_fault_classification() {
    let not_faults: Vec<CpuException> =
        CpuException::all().into_iter().filter(|e| !e.is_fault()).collect();
    assert_eq!(
        not_faults,
        vec![
            CpuException::NonMaskableInterrupt,
            CpuException::Breakpoint,
            CpuException::Overflow,
            CpuException::DoubleFault,
            CpuException::MachineCheck,
            CpuException::SecurityException,
        ]
    );
    assert_eq!(CpuException::all().iter().filter(|e| e.is_fault()).count(), 15);
}

#[test]
fn test_every_variant_answers_every_predicate() {
    // every predicate is total: calling it on every variant returns without
    // panicking, and each variant falls in at least one documented category
    // or is the lone security exception
    for e in CpuException::all() {
        let _ = (e.is_abort(), e.is_fault(), e.is_interrupt(), e.is_trap());
        let classified = e.is_abort() || e.is_fault() || e.is_interrupt() || e.is_trap();
        if e == CpuException::SecurityException {
            assert!(!classified);
        } else {
            assert!(classified);
        }
    }
}
