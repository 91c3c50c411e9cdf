use vmm_core::error::Error;
use vmm_core::frame::{BumpFrameAllocator, FrameAllocator};
use vmm_core::vmcs::{Vmcs, VmcsField};
use vmm_core::vmx::{CapabilityMsr, Vmx};
use vmm_core::vm::VM_EXIT_IA32E_MODE;

fn open_caps() -> CapabilityMsr {
    CapabilityMsr { allowed0: 0, allowed1: u64::MAX }
}

fn test_vmx() -> Vmx {
    Vmx {
        pinbased_ctls: open_caps(),
        procbased_ctls: open_caps(),
        procbased_ctls2: open_caps(),
        exit_ctls: open_caps(),
        entry_ctls: open_caps(),
        cr0_fixed0: 0x6000_0011,
        cr4_fixed0: 0x2000,
    }
}

fn allocator(frames: u64) -> BumpFrameAllocator {
    BumpFrameAllocator::new(0x0010_0000, 0x0010_0000 + frames * 4096).unwrap()
}

#[test]
fn write_while_inactive_fails() {
    let mut alloc = allocator(1);
    let mut vmcs = Vmcs::new(&mut alloc).unwrap();
    match vmcs.write_field(VmcsField::GuestRip, 0x1234) {
        Err(Error::VmcsFieldAccess) => {}
        other => panic!("expected VmcsFieldAccess, got {:?}", other),
    }
}

#[test]
fn read_while_inactive_fails() {
    let mut alloc = allocator(1);
    let vmcs = Vmcs::new(&mut alloc).unwrap();
    match vmcs.read_field(VmcsField::GuestRip) {
        Err(Error::VmcsFieldAccess) => {}
        other => panic!("expected VmcsFieldAccess, got {:?}", other),
    }
}

#[test]
fn write_in_session_reads_back() {
    let vmx = test_vmx();
    let mut alloc = allocator(1);
    let mut vmcs = Vmcs::new(&mut alloc).unwrap();
    vmcs.activate_temporarily(&vmx).unwrap();
    vmcs.write_field(VmcsField::GuestRip, 0xabcd).unwrap();
    assert_eq!(vmcs.read_field(VmcsField::GuestRip).unwrap(), 0xabcd);
    vmcs.write_field(VmcsField::GuestRip, 0x1111).unwrap();
    assert_eq!(vmcs.read_field(VmcsField::GuestRip).unwrap(), 0x1111);
    vmcs.deactivate().unwrap();
    assert!(vmcs.write_field(VmcsField::GuestRip, 0x2222).is_err());
}

#[test]
fn unwritten_field_reads_as_zero() {
    let vmx = test_vmx();
    let mut alloc = allocator(1);
    let mut vmcs = Vmcs::new(&mut alloc).unwrap();
    vmcs.activate_temporarily(&vmx).unwrap();
    assert_eq!(vmcs.read_field(VmcsField::GuestCr3).unwrap(), 0);
}

#[test]
fn double_activation_is_rejected() {
    let vmx = test_vmx();
    let mut alloc = allocator(1);
    let mut vmcs = Vmcs::new(&mut alloc).unwrap();
    vmcs.activate_temporarily(&vmx).unwrap();
    match vmcs.activate_temporarily(&vmx) {
        Err(Error::VmcsActivation) => {}
        other => panic!("expected VmcsActivation, got {:?}", other),
    }
}

#[test]
fn required_exit_control_bit_survives_zero_allowed1() {
    // A capability reader that allows nothing but requires the 64-bit
    // host-mode bit: the written pattern must still read back with that
    // bit set.
    let vmx = test_vmx();
    let caps = CapabilityMsr { allowed0: VM_EXIT_IA32E_MODE, allowed1: 0 };
    let mut alloc = allocator(1);
    let mut vmcs = Vmcs::new(&mut alloc).unwrap();
    vmcs.activate_temporarily(&vmx).unwrap();
    let written = vmcs.write_with_fixed(VmcsField::VmExitControls, VM_EXIT_IA32E_MODE, caps)
        .unwrap();
    assert_eq!(written & VM_EXIT_IA32E_MODE, VM_EXIT_IA32E_MODE);
    let read = vmcs.read_field(VmcsField::VmExitControls).unwrap();
    assert_eq!(read & VM_EXIT_IA32E_MODE, VM_EXIT_IA32E_MODE);
}

#[test]
fn allocation_failure_surfaces_from_vmcs_new() {
    let mut alloc = allocator(0);
    match Vmcs::new(&mut alloc) {
        Err(Error::AllocError(_)) => {}
        other => panic!("expected AllocError, got {:?}", other.map(|_| ())),
    }
}

#[test]
fn bump_allocator_hands_out_distinct_frames() {
    let mut alloc = allocator(3);
    let a = alloc.allocate_frame().unwrap().start_address();
    let b = alloc.allocate_frame().unwrap().start_address();
    let c = alloc.allocate_frame().unwrap().start_address();
    assert!(a != b && b != c && a != c);
    assert!(a % 4096 == 0 && b % 4096 == 0 && c % 4096 == 0);
    assert!(alloc.allocate_frame().is_none());
}
