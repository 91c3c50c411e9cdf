use vmm_core::error::Error;
use vmm_core::frame::BumpFrameAllocator;
use vmm_core::memory::GuestPhysAddr;
use vmm_core::vmcs::VmcsField;
use vmm_core::vmx::{CapabilityMsr, Vmx};
use vmm_core::vm::{
    HostEnvironment, VirtualMachine, VirtualMachineConfig, GUEST_ENTRY_POINT, VM_EXIT_IA32E_MODE,
};

fn open_caps() -> CapabilityMsr {
    CapabilityMsr { allowed0: 0, allowed1: u64::MAX }
}

fn test_vmx() -> Vmx {
    Vmx {
        pinbased_ctls: open_caps(),
        procbased_ctls: open_caps(),
        procbased_ctls2: open_caps(),
        exit_ctls: CapabilityMsr { allowed0: VM_EXIT_IA32E_MODE, allowed1: u64::MAX },
        entry_ctls: open_caps(),
        cr0_fixed0: 0x6000_0011,
        cr4_fixed0: 0x2000,
    }
}

fn test_host() -> HostEnvironment {
    HostEnvironment {
        cr0: 0x8005_0033,
        cr3_base: 0x1000,
        cr3_flags: 0x0,
        cr4: 0x26_20e0,
        idtr_base: 0xffff_8000_0000_1000,
        gdtr_base: 0xffff_8000_0000_2000,
        fs_base: 0x7000_0000,
        gs_base: 0x7100_0000,
        efer: 0xd01,
        vmexit_handler: 0xffff_8000_0040_0000,
    }
}

fn allocator(frames: u64) -> BumpFrameAllocator {
    BumpFrameAllocator::new(0x0020_0000, 0x0020_0000 + frames * 4096).unwrap()
}

fn config() -> VirtualMachineConfig {
    VirtualMachineConfig::new(GuestPhysAddr::new(GUEST_ENTRY_POINT), 4)
}

// Construction takes exactly this many frames: the control structure,
// the exit stack, five address-space frames (root, three intermediate
// tables, the entry page), the task-state base, two interrupt-controller
// pages and two interception bitmaps.
const FRAMES_NEEDED: u64 = 12;

#[test]
fn load_image_appends() {
    let mut cfg = config();
    assert!(cfg.load_image(vec![0x90, 0xf4], GuestPhysAddr::new(0x1000)).is_ok());
    assert!(cfg.load_image(vec![], GuestPhysAddr::new(0x2000)).is_ok());
}

#[test]
fn construction_programs_the_entry_point() {
    let vmx = test_vmx();
    let host = test_host();
    let mut alloc = allocator(FRAMES_NEEDED);
    let mut vm = VirtualMachine::new(&vmx, &mut alloc, config(), &host).unwrap();
    assert_eq!(vm.read_field(&vmx, VmcsField::GuestRip).unwrap(), GUEST_ENTRY_POINT);
}

#[test]
fn construction_programs_fields_from_environment_and_capabilities() {
    let vmx = test_vmx();
    let host = test_host();
    let mut alloc = allocator(FRAMES_NEEDED);
    let mut vm = VirtualMachine::new(&vmx, &mut alloc, config(), &host).unwrap();

    assert_eq!(vm.read_field(&vmx, VmcsField::HostCr0).unwrap(), host.cr0);
    assert_eq!(vm.read_field(&vmx, VmcsField::HostRip).unwrap(), host.vmexit_handler);
    // The exit stack pointer is the top of the stack frame.
    assert_eq!(vm.read_field(&vmx, VmcsField::HostRsp).unwrap(), vm.stack_address() + 4096);
    assert_eq!(vm.read_field(&vmx, VmcsField::HostCsSelector).unwrap(), 0xe008);
    assert_eq!(vm.read_field(&vmx, VmcsField::GuestEsLimit).unwrap(), 0xffff);
    assert_eq!(vm.read_field(&vmx, VmcsField::GuestCsArBytes).unwrap(), 0xc09b);
    assert_eq!(vm.read_field(&vmx, VmcsField::VmcsLinkPointer).unwrap(), 0xffff_ffff);
    assert_eq!(vm.read_field(&vmx, VmcsField::ExceptionBitmap).unwrap(), 0xffff_ffff);
    assert_eq!(vm.read_field(&vmx, VmcsField::VirtualProcessorId).unwrap(), 1);
    // Guest CR0 is the required mask with protection and paging cleared.
    assert_eq!(vm.read_field(&vmx, VmcsField::GuestCr0).unwrap(), 0x6000_0010);
    assert_eq!(vm.read_field(&vmx, VmcsField::GuestCr4).unwrap(), 0x2000);
    // The exit controls keep the required 64-bit host-mode bit.
    let exit = vm.read_field(&vmx, VmcsField::VmExitControls).unwrap();
    assert_eq!(exit & VM_EXIT_IA32E_MODE, VM_EXIT_IA32E_MODE);
    // The initial mapping covers the entry page with a fresh frame.
    let translated = vm.translate_guest_address(GuestPhysAddr::new(GUEST_ENTRY_POINT));
    match translated {
        Some((frame, writable)) => {
            assert_eq!(frame % 4096, 0);
            assert!(!writable);
        }
        None => panic!("the entry page must be mapped"),
    }
}

#[test]
fn construction_fails_with_an_allocation_error_on_every_shortfall() {
    let vmx = test_vmx();
    let host = test_host();
    for n in 0..FRAMES_NEEDED {
        let mut alloc = allocator(n);
        match VirtualMachine::new(&vmx, &mut alloc, config(), &host) {
            Err(Error::AllocError(_)) => {}
            Err(other) => panic!("expected AllocError with {} frames, got {:?}", n, other),
            Ok(_) => panic!("construction with {} frames must fail", n),
        }
    }
    let mut alloc = allocator(FRAMES_NEEDED);
    assert!(VirtualMachine::new(&vmx, &mut alloc, config(), &host).is_ok());
}

fn machine_frames(vm: &mut VirtualMachine, vmx: &Vmx) -> Vec<u64> {
    vec![
        vm.vmcs_frame_address(),
        vm.stack_address(),
        vm.read_field(vmx, VmcsField::HostTrBase).unwrap(),
        vm.read_field(vmx, VmcsField::VirtualApicPageAddr).unwrap(),
        vm.read_field(vmx, VmcsField::IoBitmapA).unwrap(),
        vm.read_field(vmx, VmcsField::IoBitmapB).unwrap(),
        vm.read_field(vmx, VmcsField::EptPointer).unwrap() & !0xfffu64,
    ]
}

#[test]
fn control_pages_within_a_machine_are_distinct() {
    let vmx = test_vmx();
    let host = test_host();
    let mut alloc = allocator(FRAMES_NEEDED);
    let mut vm = VirtualMachine::new(&vmx, &mut alloc, config(), &host).unwrap();
    let frames = machine_frames(&mut vm, &vmx);
    for i in 0..frames.len() {
        for j in 0..frames.len() {
            if i != j {
                assert_ne!(frames[i], frames[j], "frame {:#x} reused within one machine", frames[i]);
            }
        }
    }
}

#[test]
fn machines_from_one_allocator_share_no_frames() {
    let vmx = test_vmx();
    let host = test_host();
    let mut alloc = allocator(4 * FRAMES_NEEDED);
    let mut m1 = VirtualMachine::new(&vmx, &mut alloc, config(), &host).unwrap();
    let mut m2 = VirtualMachine::new(&vmx, &mut alloc, config(), &host).unwrap();
    let f1 = machine_frames(&mut m1, &vmx);
    let f2 = machine_frames(&mut m2, &vmx);
    for a in &f1 {
        for b in &f2 {
            assert_ne!(a, b, "machines alias frame {:#x}", a);
        }
    }
}

#[test]
fn rejected_entry_returns_a_described_failure() {
    let vmx = test_vmx();
    let host = test_host();
    let mut alloc = allocator(FRAMES_NEEDED);
    let vm = VirtualMachine::new(&vmx, &mut alloc, config(), &host).unwrap();
    let pending = vm.launch(vmx).unwrap();
    // Carry flag set: the entry was rejected before anything ran.
    match pending.complete_entry(0x1) {
        Err(Error::VmFailInvalid(m)) => assert!(!m.is_empty()),
        other => panic!("expected VmFailInvalid, got {:?}", other.map(|_| ())),
    }
}

#[test]
fn rejected_entry_with_valid_structure_is_distinguished() {
    let vmx = test_vmx();
    let host = test_host();
    let mut alloc = allocator(FRAMES_NEEDED);
    let vm = VirtualMachine::new(&vmx, &mut alloc, config(), &host).unwrap();
    let pending = vm.launch(vmx).unwrap();
    match pending.complete_entry(0x40) {
        Err(Error::VmFailValid(m)) => assert!(!m.is_empty()),
        other => panic!("expected VmFailValid, got {:?}", other.map(|_| ())),
    }
}

#[test]
fn clean_flags_mean_the_guest_is_running() {
    let vmx = test_vmx();
    let host = test_host();
    let mut alloc = allocator(FRAMES_NEEDED);
    let vm = VirtualMachine::new(&vmx, &mut alloc, config(), &host).unwrap();
    let pending = vm.launch(vmx).unwrap();
    assert!(pending.complete_entry(0x2).is_ok());
}
