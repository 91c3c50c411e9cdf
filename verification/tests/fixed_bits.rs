use vmm_core::error::{check_vm_instruction, Error};
use vmm_core::vmx::{apply_fixed_bits, CapabilityMsr};

#[test]
fn fixed_bits_no_constraint_passes_desired_through() {
    let caps = CapabilityMsr { allowed0: 0, allowed1: u64::MAX };
    let desired = 0x1234_5678_9abc_def0u64;
    assert_eq!(apply_fixed_bits(desired, caps), desired);
    assert_eq!(apply_fixed_bits(0, caps), 0);
}

#[test]
fn fixed_bits_all_required_forces_every_bit() {
    let caps = CapabilityMsr { allowed0: u64::MAX, allowed1: u64::MAX };
    assert_eq!(apply_fixed_bits(0, caps), u64::MAX);
    assert_eq!(apply_fixed_bits(0x55aa, caps), u64::MAX);
}

#[test]
fn fixed_bits_mixed_masks() {
    let caps = CapabilityMsr { allowed0: 0x0f00, allowed1: 0xffff };
    assert_eq!(apply_fixed_bits(0x00ff, caps), 0x0fff);

    // Bits outside allowed1 are forced off.
    let narrow = CapabilityMsr { allowed0: 0, allowed1: 0x00ff };
    assert_eq!(apply_fixed_bits(0xffff, narrow), 0x00ff);

    // A required bit wins even when the caller asked for 0.
    let required = CapabilityMsr { allowed0: 0x0001, allowed1: 0xffff };
    assert_eq!(apply_fixed_bits(0xfff0, required), 0xfff1);
}

#[test]
fn vm_instruction_carry_flag_reports_invalid_pointer() {
    match check_vm_instruction(0x1, "entry failed".to_string()) {
        Err(Error::VmFailInvalid(m)) => assert_eq!(m, "entry failed"),
        other => panic!("expected VmFailInvalid, got {:?}", other),
    }
}

#[test]
fn vm_instruction_zero_flag_reports_valid_fail() {
    match check_vm_instruction(0x40, "entry failed".to_string()) {
        Err(Error::VmFailValid(m)) => assert_eq!(m, "entry failed"),
        other => panic!("expected VmFailValid, got {:?}", other),
    }
}

#[test]
fn vm_instruction_clear_flags_is_success() {
    assert!(check_vm_instruction(0x2 | 0x80, "unused".to_string()).is_ok());
}

#[test]
fn vm_instruction_carry_takes_precedence() {
    match check_vm_instruction(0x41, "entry failed".to_string()) {
        Err(Error::VmFailInvalid(_)) => {}
        other => panic!("expected VmFailInvalid, got {:?}", other),
    }
}
