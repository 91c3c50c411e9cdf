//! The virtual machine lifecycle: configuration, all-or-nothing
//! construction of a fully programmed control structure, and the
//! launch protocol with its flag-based failure detection.

use vstd::prelude::*;
use crate::error::{check_vm_instruction, Error, RFLAGS_CF, RFLAGS_ZF};
use crate::frame::{FrameAllocator, HostFrame, PAGE_SIZE};
use crate::memory::{lemma_index_range, map_guest_memory, reachable_frames, spec_page_number,
    table_backing_frames, translate_at, EptTable, GuestPhysAddr};
use crate::vmcs::{spec_field_encoding, Vmcs, VmcsField, VmcsState};
use crate::vmx::{spec_apply_fixed, Vmx};

verus! {

broadcast use vstd::string::to_string_from_display_ensures_for_str;

/// The guest physical address the initial mapping covers and the guest's
/// initial instruction pointer: a fixed placeholder entry point.
pub const GUEST_ENTRY_POINT: u64 = 0xFFFF_F000;

/// The host code-segment selector programmed for re-entry.
pub const HOST_CS_SELECTOR: u64 = 0xe008;

/// The host task-register selector programmed for re-entry.
pub const HOST_TR_SELECTOR: u64 = 0x10;

/// Primary processor-based control: hand decisions to the secondary
/// control field, so features such as extended paging are reachable.
pub const CPU_BASED_ACTIVATE_SECONDARY_CONTROLS: u64 = 0x8000_0000;

/// VM-exit control: return to a 64-bit host.
pub const VM_EXIT_IA32E_MODE: u64 = 0x200;

/// CR0 protection-enable bit, cleared so the guest starts in
/// real-address mode.
pub const CR0_PROTECTED_MODE: u64 = 0x1;

/// CR0 paging bit, cleared so the guest starts without paging.
pub const CR0_PAGING: u64 = 0x8000_0000;

/// Extended-page-table pointer: write-back caching for the tables.
pub const EPTP_MEMORY_TYPE_WRITE_BACK: u64 = 0x6;

/// Extended-page-table pointer: a page-walk length of four levels.
pub const EPTP_PAGE_WALK_LENGTH_4: u64 = 0x18;

/// Extended-page-table pointer: keep accessed and dirty marks.
pub const EPTP_ACCESSED_DIRTY_ENABLE: u64 = 0x40;

/// The architectural "no nested control structure" sentinel.
pub const VMCS_LINK_POINTER_NONE: u64 = 0xffff_ffff;

/// Flat 64 KiB segment limit for the real-mode-like initial state.
pub const SEGMENT_LIMIT_64K: u64 = 0xffff;

/// Access rights of an ordinary read/write data segment.
pub const AR_DATA_READ_WRITE: u64 = 0xc093;

/// Access rights of an execute/read code segment.
pub const AR_CODE_EXEC_READ: u64 = 0xc09b;

/// Access rights of the local descriptor table.
pub const AR_LDT: u64 = 0x0082;

/// Access rights of a busy task-state segment.
pub const AR_TSS_BUSY: u64 = 0x008b;

/// Exception bitmap interception of every exception class.
pub const INTERCEPT_ALL_EXCEPTIONS: u64 = 0xffff_ffff;

/// The host stack pointer programmed for exit re-entry: one past the
/// stack frame's last byte, the address the processor decrements before
/// its first push.  (For the topmost physical frame the sum wraps; no
/// machine places its exit stack there.)
pub open spec fn spec_stack_top(stack_addr: u64) -> u64 {
    vstd::wrapping::u64_specs::wrapping_add(stack_addr, PAGE_SIZE)
}

/// A snapshot of the host execution environment, read by the embedding
/// program from the running CPU and written verbatim into the host-state
/// fields so the processor can restore it on any guest exit.  It must
/// stay valid for the machine's whole lifetime: nothing re-captures it.
#[derive(Clone, Copy, Debug)]
pub struct HostEnvironment {
    /// The current CR0 value.
    pub cr0: u64,
    /// The physical base of the active page-table root.
    pub cr3_base: u64,
    /// The flag bits accompanying the page-table root.
    pub cr3_flags: u64,
    /// The current CR4 value.
    pub cr4: u64,
    /// Base address of the interrupt descriptor table.
    pub idtr_base: u64,
    /// Base address of the global descriptor table.
    pub gdtr_base: u64,
    /// The FS segment base.
    pub fs_base: u64,
    /// The GS segment base.
    pub gs_base: u64,
    /// The extended-feature-enable register value.
    pub efer: u64,
    /// The fixed address of the exit-trampoline entry point.
    pub vmexit_handler: u64,
}

/// What a caller asks a machine to be: an ordered list of opaque image
/// blobs with their destination guest physical addresses, and a memory
/// size in pages.  Images are not validated or placed here; the initial
/// mapping covers only the fixed entry page.
pub struct VirtualMachineConfig {
    images: Vec<(Vec<u8>, GuestPhysAddr)>,
    memory: u64,
}

impl VirtualMachineConfig {
    /// The loaded images: each image's bytes with its destination.
    pub closed spec fn images(self) -> Seq<(Seq<u8>, u64)> {
        self.images@.map(|i: int, p: (Vec<u8>, GuestPhysAddr)| (p.0@, p.1.spec_addr()))
    }

    /// The requested memory size, as a count of 4 KiB pages.
    pub closed spec fn memory(self) -> u64 {
        self.memory
    }

    /// A configuration with no images yet and the given page count.
    pub fn new(_start_addr: GuestPhysAddr, memory: u64) -> (r: VirtualMachineConfig)
        ensures
            r.images() =~= Seq::<(Seq<u8>, u64)>::empty(),
            r.memory() == memory,
    {
        VirtualMachineConfig { images: Vec::new(), memory }
    }

    /// Appends one image blob with its destination address.
    pub fn load_image(&mut self, image: Vec<u8>, addr: GuestPhysAddr) -> (r: Result<(), Error>)
        ensures
            r is Ok,
            final(self).images() =~= old(self).images().push((image@, addr.spec_addr())),
            final(self).memory() == old(self).memory(),
    {
        self.images.push((image, addr));
        Ok(())
    }
}

/// The encodings the address-space step writes.
pub open spec fn is_ept_encoding(e: u64) -> bool {
    e == spec_field_encoding(VmcsField::EptPointer) || e == spec_field_encoding(VmcsField::VirtualProcessorId)
}

/// The encodings the host-state step writes.
pub open spec fn is_host_encoding(e: u64) -> bool {
    e == spec_field_encoding(VmcsField::HostCr0) || e == spec_field_encoding(VmcsField::HostCr3) || e == spec_field_encoding(VmcsField::HostCr4) || e == spec_field_encoding(VmcsField::HostEsSelector) || e == spec_field_encoding(VmcsField::HostCsSelector) || e == spec_field_encoding(VmcsField::HostSsSelector) || e == spec_field_encoding(VmcsField::HostDsSelector) || e == spec_field_encoding(VmcsField::HostFsSelector) || e == spec_field_encoding(VmcsField::HostGsSelector) || e == spec_field_encoding(VmcsField::HostTrSelector) || e == spec_field_encoding(VmcsField::HostIa32SysenterCs) || e == spec_field_encoding(VmcsField::HostIa32SysenterEsp) || e == spec_field_encoding(VmcsField::HostIa32SysenterEip) || e == spec_field_encoding(VmcsField::HostIdtrBase) || e == spec_field_encoding(VmcsField::HostGdtrBase) || e == spec_field_encoding(VmcsField::HostFsBase) || e == spec_field_encoding(VmcsField::HostGsBase) || e == spec_field_encoding(VmcsField::HostTrBase) || e == spec_field_encoding(VmcsField::HostRsp) || e == spec_field_encoding(VmcsField::HostIa32Efer) || e == spec_field_encoding(VmcsField::HostRip)
}

/// The encodings the guest-state step writes.
pub open spec fn is_guest_encoding(e: u64) -> bool {
    e == spec_field_encoding(VmcsField::GuestEsSelector) || e == spec_field_encoding(VmcsField::GuestCsSelector) || e == spec_field_encoding(VmcsField::GuestSsSelector) || e == spec_field_encoding(VmcsField::GuestDsSelector) || e == spec_field_encoding(VmcsField::GuestFsSelector) || e == spec_field_encoding(VmcsField::GuestGsSelector) || e == spec_field_encoding(VmcsField::GuestTrSelector) || e == spec_field_encoding(VmcsField::GuestLdtrSelector) || e == spec_field_encoding(VmcsField::GuestEsBase) || e == spec_field_encoding(VmcsField::GuestCsBase) || e == spec_field_encoding(VmcsField::GuestSsBase) || e == spec_field_encoding(VmcsField::GuestDsBase) || e == spec_field_encoding(VmcsField::GuestFsBase) || e == spec_field_encoding(VmcsField::GuestGsBase) || e == spec_field_encoding(VmcsField::GuestTrBase) || e == spec_field_encoding(VmcsField::GuestLdtrBase) || e == spec_field_encoding(VmcsField::GuestIdtrBase) || e == spec_field_encoding(VmcsField::GuestGdtrBase) || e == spec_field_encoding(VmcsField::GuestEsLimit) || e == spec_field_encoding(VmcsField::GuestCsLimit) || e == spec_field_encoding(VmcsField::GuestSsLimit) || e == spec_field_encoding(VmcsField::GuestDsLimit) || e == spec_field_encoding(VmcsField::GuestFsLimit) || e == spec_field_encoding(VmcsField::GuestGsLimit) || e == spec_field_encoding(VmcsField::GuestTrLimit) || e == spec_field_encoding(VmcsField::GuestLdtrLimit) || e == spec_field_encoding(VmcsField::GuestIdtrLimit) || e == spec_field_encoding(VmcsField::GuestGdtrLimit) || e == spec_field_encoding(VmcsField::GuestEsArBytes) || e == spec_field_encoding(VmcsField::GuestSsArBytes) || e == spec_field_encoding(VmcsField::GuestDsArBytes) || e == spec_field_encoding(VmcsField::GuestFsArBytes) || e == spec_field_encoding(VmcsField::GuestGsArBytes) || e == spec_field_encoding(VmcsField::GuestCsArBytes) || e == spec_field_encoding(VmcsField::GuestLdtrArBytes) || e == spec_field_encoding(VmcsField::GuestTrArBytes) || e == spec_field_encoding(VmcsField::GuestInterruptibilityInfo) || e == spec_field_encoding(VmcsField::GuestActivityState) || e == spec_field_encoding(VmcsField::GuestDr7) || e == spec_field_encoding(VmcsField::GuestRsp) || e == spec_field_encoding(VmcsField::VmcsLinkPointer) || e == spec_field_encoding(VmcsField::VmcsLinkPointerHigh) || e == spec_field_encoding(VmcsField::GuestIa32Efer) || e == spec_field_encoding(VmcsField::GuestCr0) || e == spec_field_encoding(VmcsField::GuestCr4) || e == spec_field_encoding(VmcsField::GuestCr3) || e == spec_field_encoding(VmcsField::GuestRip)
}

/// The encodings the execution-control step writes.
pub open spec fn is_ctrl_encoding(e: u64) -> bool {
    e == spec_field_encoding(VmcsField::CpuBasedVmExecControl) || e == spec_field_encoding(VmcsField::PinBasedVmExecControl) || e == spec_field_encoding(VmcsField::VmExitControls) || e == spec_field_encoding(VmcsField::VmEntryControls) || e == spec_field_encoding(VmcsField::VirtualApicPageAddr) || e == spec_field_encoding(VmcsField::ExceptionBitmap) || e == spec_field_encoding(VmcsField::IoBitmapA) || e == spec_field_encoding(VmcsField::IoBitmapB) || e == spec_field_encoding(VmcsField::TprThreshold)
}

/// The address-space fields as the builder leaves them: the pointer
/// names the root table with write-back caching, a four-level walk and
/// accessed/dirty tracking, and the guest carries isolation tag 1.
pub open spec fn ept_fields_programmed(v: Vmcs, ept: EptTable) -> bool {
    &&& v.field_value(VmcsField::EptPointer) == (((ept.frame().addr()
        | EPTP_MEMORY_TYPE_WRITE_BACK) | EPTP_PAGE_WALK_LENGTH_4) | EPTP_ACCESSED_DIRTY_ENABLE)
    &&& v.field_value(VmcsField::VirtualProcessorId) == 1
}

/// The host-state fields as the capturer leaves them: the environment
/// snapshot verbatim, the fixed selectors, the exit stack, and a fresh
/// page-aligned task-state base.
pub open spec fn host_fields_programmed(v: Vmcs, host: HostEnvironment, stack_addr: u64) -> bool {
    &&& v.field_value(VmcsField::HostCr0) == host.cr0
    &&& v.field_value(VmcsField::HostCr3) == host.cr3_base | host.cr3_flags
    &&& v.field_value(VmcsField::HostCr4) == host.cr4
    &&& v.field_value(VmcsField::HostEsSelector) == 0
    &&& v.field_value(VmcsField::HostCsSelector) == HOST_CS_SELECTOR
    &&& v.field_value(VmcsField::HostSsSelector) == 0
    &&& v.field_value(VmcsField::HostDsSelector) == 0
    &&& v.field_value(VmcsField::HostFsSelector) == 0
    &&& v.field_value(VmcsField::HostGsSelector) == 0
    &&& v.field_value(VmcsField::HostTrSelector) == HOST_TR_SELECTOR
    &&& v.field_value(VmcsField::HostIa32SysenterCs) == 0
    &&& v.field_value(VmcsField::HostIa32SysenterEsp) == 0
    &&& v.field_value(VmcsField::HostIa32SysenterEip) == 0
    &&& v.field_value(VmcsField::HostIdtrBase) == host.idtr_base
    &&& v.field_value(VmcsField::HostGdtrBase) == host.gdtr_base
    &&& v.field_value(VmcsField::HostFsBase) == host.fs_base
    &&& v.field_value(VmcsField::HostGsBase) == host.gs_base
    &&& v.field_value(VmcsField::HostTrBase) % PAGE_SIZE == 0
    &&& v.field_value(VmcsField::HostRsp) == spec_stack_top(stack_addr)
    &&& v.field_value(VmcsField::HostIa32Efer) == host.efer
    &&& v.field_value(VmcsField::HostRip) == host.vmexit_handler
}

/// The guest-state fields as the initializer leaves them: the minimal
/// real-mode-like reset state, control registers constrained by the
/// capability masks with protection and paging cleared, and the fixed
/// entry point as instruction pointer.
pub open spec fn guest_fields_programmed(v: Vmcs, vmx: Vmx) -> bool {
    &&& v.field_value(VmcsField::GuestEsSelector) == 0
    &&& v.field_value(VmcsField::GuestCsSelector) == 0
    &&& v.field_value(VmcsField::GuestSsSelector) == 0
    &&& v.field_value(VmcsField::GuestDsSelector) == 0
    &&& v.field_value(VmcsField::GuestFsSelector) == 0
    &&& v.field_value(VmcsField::GuestGsSelector) == 0
    &&& v.field_value(VmcsField::GuestTrSelector) == 0
    &&& v.field_value(VmcsField::GuestLdtrSelector) == 0
    &&& v.field_value(VmcsField::GuestEsBase) == 0
    &&& v.field_value(VmcsField::GuestCsBase) == 0
    &&& v.field_value(VmcsField::GuestSsBase) == 0
    &&& v.field_value(VmcsField::GuestDsBase) == 0
    &&& v.field_value(VmcsField::GuestFsBase) == 0
    &&& v.field_value(VmcsField::GuestGsBase) == 0
    &&& v.field_value(VmcsField::GuestTrBase) == 0
    &&& v.field_value(VmcsField::GuestLdtrBase) == 0
    &&& v.field_value(VmcsField::GuestIdtrBase) == 0
    &&& v.field_value(VmcsField::GuestGdtrBase) == 0
    &&& v.field_value(VmcsField::GuestEsLimit) == SEGMENT_LIMIT_64K
    &&& v.field_value(VmcsField::GuestCsLimit) == SEGMENT_LIMIT_64K
    &&& v.field_value(VmcsField::GuestSsLimit) == SEGMENT_LIMIT_64K
    &&& v.field_value(VmcsField::GuestDsLimit) == SEGMENT_LIMIT_64K
    &&& v.field_value(VmcsField::GuestFsLimit) == SEGMENT_LIMIT_64K
    &&& v.field_value(VmcsField::GuestGsLimit) == SEGMENT_LIMIT_64K
    &&& v.field_value(VmcsField::GuestTrLimit) == SEGMENT_LIMIT_64K
    &&& v.field_value(VmcsField::GuestLdtrLimit) == SEGMENT_LIMIT_64K
    &&& v.field_value(VmcsField::GuestIdtrLimit) == SEGMENT_LIMIT_64K
    &&& v.field_value(VmcsField::GuestGdtrLimit) == SEGMENT_LIMIT_64K
    &&& v.field_value(VmcsField::GuestEsArBytes) == AR_DATA_READ_WRITE
    &&& v.field_value(VmcsField::GuestSsArBytes) == AR_DATA_READ_WRITE
    &&& v.field_value(VmcsField::GuestDsArBytes) == AR_DATA_READ_WRITE
    &&& v.field_value(VmcsField::GuestFsArBytes) == AR_DATA_READ_WRITE
    &&& v.field_value(VmcsField::GuestGsArBytes) == AR_DATA_READ_WRITE
    &&& v.field_value(VmcsField::GuestCsArBytes) == AR_CODE_EXEC_READ
    &&& v.field_value(VmcsField::GuestLdtrArBytes) == AR_LDT
    &&& v.field_value(VmcsField::GuestTrArBytes) == AR_TSS_BUSY
    &&& v.field_value(VmcsField::GuestInterruptibilityInfo) == 0
    &&& v.field_value(VmcsField::GuestActivityState) == 0
    &&& v.field_value(VmcsField::GuestDr7) == 0
    &&& v.field_value(VmcsField::GuestRsp) == 0
    &&& v.field_value(VmcsField::VmcsLinkPointer) == VMCS_LINK_POINTER_NONE
    &&& v.field_value(VmcsField::VmcsLinkPointerHigh) == VMCS_LINK_POINTER_NONE
    &&& v.field_value(VmcsField::GuestIa32Efer) == 0
    &&& v.field_value(VmcsField::GuestCr0) == vmx.cr0_fixed0 & !CR0_PROTECTED_MODE & !CR0_PAGING
    &&& v.field_value(VmcsField::GuestCr4) == vmx.cr4_fixed0
    &&& v.field_value(VmcsField::GuestCr3) == 0
    &&& v.field_value(VmcsField::GuestRip) == GUEST_ENTRY_POINT
}

/// The execution-control fields as the programmer leaves them: each
/// capability-constrained control adjusted by `spec_apply_fixed`, every
/// exception intercepted, and fresh page-aligned interception and
/// interrupt-controller pages.
pub open spec fn ctrl_fields_programmed(v: Vmcs, vmx: Vmx) -> bool {
    &&& v.field_value(VmcsField::CpuBasedVmExecControl) == spec_apply_fixed(CPU_BASED_ACTIVATE_SECONDARY_CONTROLS, vmx.procbased_ctls.allowed0, vmx.procbased_ctls.allowed1)
    &&& v.field_value(VmcsField::PinBasedVmExecControl) == spec_apply_fixed(0, vmx.pinbased_ctls.allowed0, vmx.pinbased_ctls.allowed1)
    &&& v.field_value(VmcsField::VmExitControls) == spec_apply_fixed(VM_EXIT_IA32E_MODE, vmx.exit_ctls.allowed0, vmx.exit_ctls.allowed1)
    &&& v.field_value(VmcsField::VmEntryControls) == spec_apply_fixed(0, vmx.entry_ctls.allowed0, vmx.entry_ctls.allowed1)
    &&& v.field_value(VmcsField::VirtualApicPageAddr) % PAGE_SIZE == 0
    &&& v.field_value(VmcsField::ExceptionBitmap) == INTERCEPT_ALL_EXCEPTIONS
    &&& v.field_value(VmcsField::IoBitmapA) % PAGE_SIZE == 0
    &&& v.field_value(VmcsField::IoBitmapB) % PAGE_SIZE == 0
    &&& v.field_value(VmcsField::TprThreshold) == 0
}

/// A fully constructed, not yet launched machine: the programmed control
/// structure, the consumed configuration, the exit stack frame and the
/// guest address space, all exclusively owned.
pub struct VirtualMachine {
    vmcs: Vmcs,
    config: VirtualMachineConfig,
    stack: HostFrame,
    ept: EptTable,
}

/// A machine whose control structure `launch` has activated, in the
/// instant before the entry instruction runs.
pub struct PendingEntry {
    vmcs: Vmcs,
    config: VirtualMachineConfig,
    stack: HostFrame,
    ept: EptTable,
}

/// The post-launch state: the guest is the currently scheduled context
/// and its control structure stays active.
pub struct VirtualMachineRunning {
    vmcs: Vmcs,
}


impl VirtualMachine {
    /// The control structure.
    pub closed spec fn vmcs(self) -> Vmcs {
        self.vmcs
    }

    /// The consumed configuration.
    pub closed spec fn config(self) -> VirtualMachineConfig {
        self.config
    }

    /// The exit stack frame.
    pub closed spec fn stack(self) -> HostFrame {
        self.stack
    }

    /// The guest address space.
    pub closed spec fn ept(self) -> EptTable {
        self.ept
    }

    /// Every frame the machine owns: the control-structure page, the
    /// exit stack, the whole address-space hierarchy with its mapped
    /// frames, and the pages recorded in the control fields.
    pub open spec fn owned_frames(self) -> Set<u64> {
        reachable_frames(self.ept(), 4).insert(self.vmcs().frame().addr()).insert(
            self.stack().addr(),
        ).insert(self.vmcs().field_value(VmcsField::HostTrBase)).insert(
            self.vmcs().field_value(VmcsField::VirtualApicPageAddr),
        ).insert(self.vmcs().field_value(VmcsField::IoBitmapA)).insert(
            self.vmcs().field_value(VmcsField::IoBitmapB),
        )
    }

    /// A constructed machine: inert control structure, well-formed
    /// address space, page-aligned frames.
    pub open spec fn wf(self) -> bool {
        &&& self.vmcs().wf()
        &&& self.vmcs().state() == VmcsState::Inactive
        &&& self.ept().wf_at(4)
        &&& self.stack().wf()
    }

    /// Builds the guest address space: allocates the root table, maps
    /// the fixed entry page to a fresh host frame, and programs the
    /// pointer and isolation-tag fields.
    fn setup_ept<A: FrameAllocator>(vmcs: &mut Vmcs, alloc: &mut A) -> (r: Result<EptTable, Error>)
        requires
            old(vmcs).state() != VmcsState::Inactive,
            old(alloc).wf(),
        ensures
            final(alloc).wf(),
            old(alloc).allocated() <= final(alloc).allocated(),
            old(alloc).capacity() >= 5 ==> r is Ok,
            r is Err ==> final(alloc).capacity() == 0,
            final(alloc).capacity() + 5 >= old(alloc).capacity(),
            final(vmcs).state() == old(vmcs).state(),
            final(vmcs).frame() == old(vmcs).frame(),
            forall|f: VmcsField|
                !is_ept_encoding(spec_field_encoding(f)) ==> (#[trigger] final(vmcs).field_value(f))
                    == old(vmcs).field_value(f),
            match r {
                Ok(ept) => {
                    &&& ept.wf_at(4)
                    &&& ept_fields_programmed(*final(vmcs), ept)
                    &&& (translate_at(ept, 4, GUEST_ENTRY_POINT) matches Some(p) && p.1 == false
                        && p.0 % PAGE_SIZE == 0 && !table_backing_frames(ept, 4).contains(p.0))
                    &&& forall|g: u64|
                        spec_page_number(g) != spec_page_number(GUEST_ENTRY_POINT)
                            ==> #[trigger] translate_at(ept, 4, g) is None
                    &&& reachable_frames(ept, 4) <= final(alloc).allocated().difference(
                        old(alloc).allocated(),
                    )
                    &&& old(alloc).capacity() == final(alloc).capacity() + 5
                },
                Err(e) => e matches Error::AllocError(_) && old(alloc).capacity() < 5
                    && final(vmcs).field_map() == old(vmcs).field_map(),
            },
    {
        let ghost a0 = *alloc;
        let pml4_frame = match alloc.allocate_frame() {
            Some(f) => f,
            None => {
                return Err(Error::AllocError("failed to allocate the root-table frame"));
            },
        };
        let mut ept = EptTable::new(pml4_frame);
        let ghost fresh = ept;
        let ghost a1 = *alloc;
        let host_frame = match alloc.allocate_frame() {
            Some(f) => f,
            None => {
                return Err(Error::AllocError("failed to allocate the entry-point frame"));
            },
        };
        let ghost a2 = *alloc;
        proof {
            lemma_index_range(GUEST_ENTRY_POINT, 4);
        }
        map_guest_memory(alloc, &mut ept, GuestPhysAddr::new(GUEST_ENTRY_POINT), host_frame, false)?;
        let eptp = ((ept.frame_address() | EPTP_MEMORY_TYPE_WRITE_BACK) | EPTP_PAGE_WALK_LENGTH_4)
            | EPTP_ACCESSED_DIRTY_ENABLE;
        vmcs.write_field(VmcsField::EptPointer, eptp)?;
        vmcs.write_field(VmcsField::VirtualProcessorId, 1)?;
        proof {
            assert(a0.allocated() <= a1.allocated());
            assert(a1.allocated() <= a2.allocated());
            assert(a2.allocated() <= alloc.allocated());
            assert forall|x: u64| reachable_frames(ept, 4).contains(x) implies alloc.allocated()
                .difference(a0.allocated()).contains(x) by {
            }
            assert forall|g: u64|
                spec_page_number(g) != spec_page_number(GUEST_ENTRY_POINT) implies #[trigger]
            translate_at(ept, 4, g) is None by {
                assert(translate_at(fresh, 4, g) is None);
            }
            assert(!table_backing_frames(ept, 4).contains(host_frame.addr())) by {
                assert(table_backing_frames(fresh, 4) =~= set![pml4_frame.addr()]);
                assert(a1.allocated().contains(pml4_frame.addr()));
                assert(a2.allocated().contains(host_frame.addr()));
            }
        }
        Ok(ept)
    }

    /// Captures the host execution environment into the host-state
    /// fields, with the fixed selector layout, a freshly allocated
    /// task-state base frame, the exit stack top and the trampoline
    /// address, so the processor restores exactly this environment on
    /// any exit.
    #[verifier::rlimit(50)]
    fn initialize_host_vmcs<A: FrameAllocator>(
        alloc: &mut A,
        vmcs: &mut Vmcs,
        stack: &HostFrame,
        host: &HostEnvironment,
    ) -> (r: Result<(), Error>)
        requires
            old(vmcs).state() != VmcsState::Inactive,
            old(alloc).wf(),
        ensures
            final(alloc).wf(),
            old(alloc).allocated() <= final(alloc).allocated(),
            old(alloc).capacity() >= 1 ==> r is Ok,
            r is Err ==> final(alloc).capacity() == 0,
            final(alloc).capacity() + 1 >= old(alloc).capacity(),
            final(vmcs).state() == old(vmcs).state(),
            final(vmcs).frame() == old(vmcs).frame(),
            forall|f: VmcsField|
                !is_host_encoding(spec_field_encoding(f)) ==> (#[trigger] final(vmcs).field_value(f))
                    == old(vmcs).field_value(f),
            match r {
                Ok(()) => host_fields_programmed(*final(vmcs), *host, stack.addr())
                    && final(alloc).allocated().difference(old(alloc).allocated()).contains(
                    final(vmcs).field_value(VmcsField::HostTrBase),
                ) && old(alloc).capacity() == final(alloc).capacity() + 1,
                Err(e) => e matches Error::AllocError(_) && old(alloc).capacity() == 0,
            },
    {
        vmcs.write_field(VmcsField::HostCr0, host.cr0)?;
        vmcs.write_field(VmcsField::HostCr3, host.cr3_base | host.cr3_flags)?;
        vmcs.write_field(VmcsField::HostCr4, host.cr4)?;
        vmcs.write_field(VmcsField::HostEsSelector, 0)?;
        vmcs.write_field(VmcsField::HostCsSelector, HOST_CS_SELECTOR)?;
        vmcs.write_field(VmcsField::HostSsSelector, 0)?;
        vmcs.write_field(VmcsField::HostDsSelector, 0)?;
        vmcs.write_field(VmcsField::HostFsSelector, 0)?;
        vmcs.write_field(VmcsField::HostGsSelector, 0)?;
        vmcs.write_field(VmcsField::HostTrSelector, HOST_TR_SELECTOR)?;
        vmcs.write_field(VmcsField::HostIa32SysenterCs, 0)?;
        vmcs.write_field(VmcsField::HostIa32SysenterEsp, 0)?;
        vmcs.write_field(VmcsField::HostIa32SysenterEip, 0)?;
        vmcs.write_field(VmcsField::HostIdtrBase, host.idtr_base)?;
        vmcs.write_field(VmcsField::HostGdtrBase, host.gdtr_base)?;
        vmcs.write_field(VmcsField::HostFsBase, host.fs_base)?;
        vmcs.write_field(VmcsField::HostGsBase, host.gs_base)?;
        let tr_base_frame = match alloc.allocate_frame() {
            Some(f) => f,
            None => {
                return Err(Error::AllocError("failed to allocate the task-state base frame"));
            },
        };
        vmcs.write_field(VmcsField::HostTrBase, tr_base_frame.start_address())?;
        vmcs.write_field(VmcsField::HostRsp, stack.start_address().wrapping_add(PAGE_SIZE))?;
        vmcs.write_field(VmcsField::HostIa32Efer, host.efer)?;
        vmcs.write_field(VmcsField::HostRip, host.vmexit_handler)?;
        Ok(())
    }

    /// Programs the minimal, real-mode-like initial guest state: zeroed
    /// selectors and bases, flat 64 KiB limits, standard access rights,
    /// no nested control structure, control registers constrained by the
    /// capability masks with protection and paging cleared, and the
    /// fixed entry point as instruction pointer.
    #[verifier::rlimit(50)]
    fn initialize_guest_vmcs(vmcs: &mut Vmcs, vmx: &Vmx) -> (r: Result<(), Error>)
        requires
            old(vmcs).state() != VmcsState::Inactive,
        ensures
            final(vmcs).state() == old(vmcs).state(),
            final(vmcs).frame() == old(vmcs).frame(),
            forall|f: VmcsField|
                !is_guest_encoding(spec_field_encoding(f)) ==> (#[trigger] final(vmcs).field_value(f))
                    == old(vmcs).field_value(f),
            r is Ok,
            guest_fields_programmed(*final(vmcs), *vmx),
    {
        let guest_cr0 = vmx.cr0_fixed0 & !CR0_PROTECTED_MODE & !CR0_PAGING;
        vmcs.write_field(VmcsField::GuestEsSelector, 0)?;
        vmcs.write_field(VmcsField::GuestCsSelector, 0)?;
        vmcs.write_field(VmcsField::GuestSsSelector, 0)?;
        vmcs.write_field(VmcsField::GuestDsSelector, 0)?;
        vmcs.write_field(VmcsField::GuestFsSelector, 0)?;
        vmcs.write_field(VmcsField::GuestGsSelector, 0)?;
        vmcs.write_field(VmcsField::GuestTrSelector, 0)?;
        vmcs.write_field(VmcsField::GuestLdtrSelector, 0)?;
        vmcs.write_field(VmcsField::GuestEsBase, 0)?;
        vmcs.write_field(VmcsField::GuestCsBase, 0)?;
        vmcs.write_field(VmcsField::GuestSsBase, 0)?;
        vmcs.write_field(VmcsField::GuestDsBase, 0)?;
        vmcs.write_field(VmcsField::GuestFsBase, 0)?;
        vmcs.write_field(VmcsField::GuestGsBase, 0)?;
        vmcs.write_field(VmcsField::GuestTrBase, 0)?;
        vmcs.write_field(VmcsField::GuestLdtrBase, 0)?;
        vmcs.write_field(VmcsField::GuestIdtrBase, 0)?;
        vmcs.write_field(VmcsField::GuestGdtrBase, 0)?;
        vmcs.write_field(VmcsField::GuestEsLimit, SEGMENT_LIMIT_64K)?;
        vmcs.write_field(VmcsField::GuestCsLimit, SEGMENT_LIMIT_64K)?;
        vmcs.write_field(VmcsField::GuestSsLimit, SEGMENT_LIMIT_64K)?;
        vmcs.write_field(VmcsField::GuestDsLimit, SEGMENT_LIMIT_64K)?;
        vmcs.write_field(VmcsField::GuestFsLimit, SEGMENT_LIMIT_64K)?;
        vmcs.write_field(VmcsField::GuestGsLimit, SEGMENT_LIMIT_64K)?;
        vmcs.write_field(VmcsField::GuestTrLimit, SEGMENT_LIMIT_64K)?;
        vmcs.write_field(VmcsField::GuestLdtrLimit, SEGMENT_LIMIT_64K)?;
        vmcs.write_field(VmcsField::GuestIdtrLimit, SEGMENT_LIMIT_64K)?;
        vmcs.write_field(VmcsField::GuestGdtrLimit, SEGMENT_LIMIT_64K)?;
        vmcs.write_field(VmcsField::GuestEsArBytes, AR_DATA_READ_WRITE)?;
        vmcs.write_field(VmcsField::GuestSsArBytes, AR_DATA_READ_WRITE)?;
        vmcs.write_field(VmcsField::GuestDsArBytes, AR_DATA_READ_WRITE)?;
        vmcs.write_field(VmcsField::GuestFsArBytes, AR_DATA_READ_WRITE)?;
        vmcs.write_field(VmcsField::GuestGsArBytes, AR_DATA_READ_WRITE)?;
        vmcs.write_field(VmcsField::GuestCsArBytes, AR_CODE_EXEC_READ)?;
        vmcs.write_field(VmcsField::GuestLdtrArBytes, AR_LDT)?;
        vmcs.write_field(VmcsField::GuestTrArBytes, AR_TSS_BUSY)?;
        vmcs.write_field(VmcsField::GuestInterruptibilityInfo, 0)?;
        vmcs.write_field(VmcsField::GuestActivityState, 0)?;
        vmcs.write_field(VmcsField::GuestDr7, 0)?;
        vmcs.write_field(VmcsField::GuestRsp, 0)?;
        vmcs.write_field(VmcsField::VmcsLinkPointer, VMCS_LINK_POINTER_NONE)?;
        vmcs.write_field(VmcsField::VmcsLinkPointerHigh, VMCS_LINK_POINTER_NONE)?;
        vmcs.write_field(VmcsField::GuestIa32Efer, 0)?;
        vmcs.write_field(VmcsField::GuestCr0, guest_cr0)?;
        vmcs.write_field(VmcsField::GuestCr4, vmx.cr4_fixed0)?;
        vmcs.write_field(VmcsField::GuestCr3, 0)?;
        vmcs.write_field(VmcsField::GuestRip, GUEST_ENTRY_POINT)?;
        Ok(())
    }

    /// Programs which guest events cause an exit: capability-adjusted
    /// pin, processor, exit and entry controls, interception of every
    /// exception, the two I/O interception bitmaps, the virtual
    /// interrupt-controller page and its priority threshold.
    #[verifier::rlimit(50)]
    fn initialize_ctrl_vmcs<A: FrameAllocator>(vmcs: &mut Vmcs, alloc: &mut A, vmx: &Vmx) -> (r:
        Result<(), Error>)
        requires
            old(vmcs).state() != VmcsState::Inactive,
            old(alloc).wf(),
        ensures
            final(alloc).wf(),
            old(alloc).allocated() <= final(alloc).allocated(),
            old(alloc).capacity() >= 4 ==> r is Ok,
            r is Err ==> final(alloc).capacity() == 0,
            final(alloc).capacity() + 4 >= old(alloc).capacity(),
            final(vmcs).state() == old(vmcs).state(),
            final(vmcs).frame() == old(vmcs).frame(),
            forall|f: VmcsField|
                !is_ctrl_encoding(spec_field_encoding(f)) ==> (#[trigger] final(vmcs).field_value(f))
                    == old(vmcs).field_value(f),
            match r {
                Ok(()) => {
                    &&& ctrl_fields_programmed(*final(vmcs), *vmx)
                    &&& final(alloc).allocated().difference(old(alloc).allocated()).contains(
                        final(vmcs).field_value(VmcsField::VirtualApicPageAddr),
                    )
                    &&& final(alloc).allocated().difference(old(alloc).allocated()).contains(
                        final(vmcs).field_value(VmcsField::IoBitmapA),
                    )
                    &&& final(alloc).allocated().difference(old(alloc).allocated()).contains(
                        final(vmcs).field_value(VmcsField::IoBitmapB),
                    )
                    &&& final(vmcs).field_value(VmcsField::IoBitmapA) != final(vmcs).field_value(
                        VmcsField::IoBitmapB,
                    )
                    &&& final(vmcs).field_value(VmcsField::VirtualApicPageAddr)
                        != final(vmcs).field_value(VmcsField::IoBitmapA)
                    &&& final(vmcs).field_value(VmcsField::VirtualApicPageAddr)
                        != final(vmcs).field_value(VmcsField::IoBitmapB)
                    &&& old(alloc).capacity() == final(alloc).capacity() + 4
                },
                Err(e) => e matches Error::AllocError(_) && old(alloc).capacity() < 4,
            },
    {
        vmcs.write_with_fixed(
            VmcsField::CpuBasedVmExecControl,
            CPU_BASED_ACTIVATE_SECONDARY_CONTROLS,
            vmx.procbased_ctls,
        )?;
        vmcs.write_with_fixed(VmcsField::PinBasedVmExecControl, 0, vmx.pinbased_ctls)?;
        vmcs.write_with_fixed(VmcsField::VmExitControls, VM_EXIT_IA32E_MODE, vmx.exit_ctls)?;
        vmcs.write_with_fixed(VmcsField::VmEntryControls, 0, vmx.entry_ctls)?;
        let vapic = match alloc.allocate_frame() {
            Some(f) => f,
            None => {
                return Err(Error::AllocError("failed to allocate the interrupt-controller page"));
            },
        };
        vmcs.write_field(VmcsField::VirtualApicPageAddr, vapic.start_address())?;
        vmcs.write_field(VmcsField::ExceptionBitmap, INTERCEPT_ALL_EXCEPTIONS)?;
        let bitmap_a = match alloc.allocate_frame() {
            Some(f) => f,
            None => {
                return Err(Error::AllocError("failed to allocate an interception bitmap"));
            },
        };
        let bitmap_b = match alloc.allocate_frame() {
            Some(f) => f,
            None => {
                return Err(Error::AllocError("failed to allocate an interception bitmap"));
            },
        };
        vmcs.write_field(VmcsField::IoBitmapA, bitmap_a.start_address())?;
        vmcs.write_field(VmcsField::IoBitmapB, bitmap_b.start_address())?;
        let vapic_frame = match alloc.allocate_frame() {
            Some(f) => f,
            None => {
                return Err(Error::AllocError("failed to allocate the interrupt-controller page"));
            },
        };
        vmcs.write_field(VmcsField::VirtualApicPageAddr, vapic_frame.start_address())?;
        vmcs.write_field(VmcsField::TprThreshold, 0)?;
        Ok(())
    }


/// The address-space fields keep their values through the host, guest
    /// and control steps, which write disjoint encodings.
    #[verifier::rlimit(100)]
    #[verifier::spinoff_prover]
    proof fn lemma_ept_fields_survive(v1: Vmcs, v2: Vmcs, v3: Vmcs, v4: Vmcs, ept: EptTable)
        requires
            ept_fields_programmed(v1, ept),
            forall|f: VmcsField|
                !is_host_encoding(spec_field_encoding(f)) ==> (#[trigger] v2.field_value(f))
                    == v1.field_value(f),
            forall|f: VmcsField|
                !is_guest_encoding(spec_field_encoding(f)) ==> (#[trigger] v3.field_value(f))
                    == v2.field_value(f),
            forall|f: VmcsField|
                !is_ctrl_encoding(spec_field_encoding(f)) ==> (#[trigger] v4.field_value(f))
                    == v3.field_value(f),
        ensures
            ept_fields_programmed(v4, ept),
    {
        assert(ept_fields_programmed(v2, ept));
        assert(ept_fields_programmed(v3, ept));
    }

    /// The host-state fields keep their values through the guest and
    /// control steps, which write disjoint encodings.
    #[verifier::rlimit(100)]
    #[verifier::spinoff_prover]
    proof fn lemma_host_fields_survive(
        v2: Vmcs,
        v3: Vmcs,
        v4: Vmcs,
        host: HostEnvironment,
        stack_addr: u64,
    )
        requires
            host_fields_programmed(v2, host, stack_addr),
            forall|f: VmcsField|
                !is_guest_encoding(spec_field_encoding(f)) ==> (#[trigger] v3.field_value(f))
                    == v2.field_value(f),
            forall|f: VmcsField|
                !is_ctrl_encoding(spec_field_encoding(f)) ==> (#[trigger] v4.field_value(f))
                    == v3.field_value(f),
        ensures
            host_fields_programmed(v4, host, stack_addr),
            v4.field_value(VmcsField::HostTrBase) == v2.field_value(VmcsField::HostTrBase),
    {
        assert(host_fields_programmed(v3, host, stack_addr));
    }

    /// The guest-state fields keep their values through the control
    /// step, which writes disjoint encodings.
    #[verifier::rlimit(100)]
    #[verifier::spinoff_prover]
    proof fn lemma_guest_fields_survive(v3: Vmcs, v4: Vmcs, vmx: Vmx)
        requires
            guest_fields_programmed(v3, vmx),
            forall|f: VmcsField|
                !is_ctrl_encoding(spec_field_encoding(f)) ==> (#[trigger] v4.field_value(f))
                    == v3.field_value(f),
        ensures
            guest_fields_programmed(v4, vmx),
    {
    }

    /// Runs the four configuration steps, in order, inside an already
    /// open session: address space, host state, guest state, execution
    /// controls.  Order matters: the controls reference pages the
    /// earlier steps allocated, and every write needs the open session.
    #[verifier::rlimit(100)]
    fn configure<A: FrameAllocator>(
        vmcs: &mut Vmcs,
        alloc: &mut A,
        vmx: &Vmx,
        host: &HostEnvironment,
        stack: &HostFrame,
    ) -> (r: Result<EptTable, Error>)
        requires
            old(vmcs).state() != VmcsState::Inactive,
            old(alloc).wf(),
        ensures
            final(alloc).wf(),
            old(alloc).allocated() <= final(alloc).allocated(),
            old(alloc).capacity() >= 10 ==> r is Ok,
            r is Err ==> final(alloc).capacity() == 0,
            final(vmcs).state() == old(vmcs).state(),
            final(vmcs).frame() == old(vmcs).frame(),
            match r {
                Ok(ept) => {
                    &&& ept.wf_at(4)
                    &&& ept_fields_programmed(*final(vmcs), ept)
                    &&& host_fields_programmed(*final(vmcs), *host, stack.addr())
                    &&& guest_fields_programmed(*final(vmcs), *vmx)
                    &&& ctrl_fields_programmed(*final(vmcs), *vmx)
                    &&& (translate_at(ept, 4, GUEST_ENTRY_POINT) matches Some(p) && p.1 == false
                        && p.0 % PAGE_SIZE == 0 && !table_backing_frames(ept, 4).contains(p.0))
                    &&& forall|g: u64|
                        spec_page_number(g) != spec_page_number(GUEST_ENTRY_POINT)
                            ==> #[trigger] translate_at(ept, 4, g) is None
                    &&& final(vmcs).field_value(VmcsField::IoBitmapA) != final(vmcs).field_value(
                        VmcsField::IoBitmapB,
                    )
                    &&& final(vmcs).field_value(VmcsField::VirtualApicPageAddr)
                        != final(vmcs).field_value(VmcsField::IoBitmapA)
                    &&& final(vmcs).field_value(VmcsField::VirtualApicPageAddr)
                        != final(vmcs).field_value(VmcsField::IoBitmapB)
                    &&& old(alloc).capacity() == final(alloc).capacity() + 10
                    &&& reachable_frames(ept, 4) <= final(alloc).allocated().difference(
                        old(alloc).allocated(),
                    )
                    &&& final(alloc).allocated().difference(old(alloc).allocated()).contains(
                        final(vmcs).field_value(VmcsField::HostTrBase),
                    )
                    &&& final(alloc).allocated().difference(old(alloc).allocated()).contains(
                        final(vmcs).field_value(VmcsField::VirtualApicPageAddr),
                    )
                    &&& final(alloc).allocated().difference(old(alloc).allocated()).contains(
                        final(vmcs).field_value(VmcsField::IoBitmapA),
                    )
                    &&& final(alloc).allocated().difference(old(alloc).allocated()).contains(
                        final(vmcs).field_value(VmcsField::IoBitmapB),
                    )
                },
                Err(e) => e matches Error::AllocError(_) && old(alloc).capacity() < 10,
            },
    {
        let ghost a0 = *alloc;
        let ept = Self::setup_ept(vmcs, alloc)?;
        let ghost a1 = *alloc;
        let ghost v1 = *vmcs;
        Self::initialize_host_vmcs(alloc, vmcs, stack, host)?;
        let ghost a2 = *alloc;
        let ghost v2 = *vmcs;
        Self::initialize_guest_vmcs(vmcs, vmx)?;
        let ghost v3 = *vmcs;
        Self::initialize_ctrl_vmcs(vmcs, alloc, vmx)?;
        proof {
            let af = *alloc;
            let v4 = *vmcs;
            Self::lemma_ept_fields_survive(v1, v2, v3, v4, ept);
            Self::lemma_host_fields_survive(v2, v3, v4, *host, stack.addr());
            Self::lemma_guest_fields_survive(v3, v4, *vmx);
            assert(a0.allocated() <= a1.allocated());
            assert(a1.allocated() <= a2.allocated());
            assert(a2.allocated() <= af.allocated());
            assert forall|x: u64|
                reachable_frames(ept, 4).contains(x) implies af.allocated().difference(
                a0.allocated()).contains(x) by {
                assert(a1.allocated().difference(a0.allocated()).contains(x));
            }
            assert(af.allocated().difference(a0.allocated()).contains(
                v4.field_value(VmcsField::HostTrBase),
            ));
            assert(af.allocated().difference(a0.allocated()).contains(
                v4.field_value(VmcsField::VirtualApicPageAddr),
            ));
        }
        Ok(ept)
    }

    /// Builds a machine, all or nothing: allocates the control structure
    /// and the exit stack, opens one configuration session, runs every
    /// setup step inside it, and closes the session again on every path.
    /// Any failure is an allocation error and no partially configured
    /// machine escapes.  On success every frame the machine owns came
    /// fresh from `alloc`: machines built from disjoint allocations never
    /// alias, address-space tables included.
    #[verifier::rlimit(50)]
    pub fn new<A: FrameAllocator>(
        vmx: &Vmx,
        alloc: &mut A,
        config: VirtualMachineConfig,
        host: &HostEnvironment,
    ) -> (r: Result<VirtualMachine, Error>)
        requires
            old(alloc).wf(),
        ensures
            final(alloc).wf(),
            old(alloc).allocated() <= final(alloc).allocated(),
            old(alloc).capacity() >= 12 ==> r is Ok,
            r is Err ==> final(alloc).capacity() == 0,
            match r {
                Ok(m) => {
                    &&& m.wf()
                    &&& m.config() == config
                    &&& ept_fields_programmed(m.vmcs(), m.ept())
                    &&& host_fields_programmed(m.vmcs(), *host, m.stack().addr())
                    &&& guest_fields_programmed(m.vmcs(), *vmx)
                    &&& ctrl_fields_programmed(m.vmcs(), *vmx)
                    &&& (translate_at(m.ept(), 4, GUEST_ENTRY_POINT) matches Some(p) && p.1
                        == false && !table_backing_frames(m.ept(), 4).contains(p.0))
                    &&& forall|g: u64|
                        spec_page_number(g) != spec_page_number(GUEST_ENTRY_POINT)
                            ==> #[trigger] translate_at(m.ept(), 4, g) is None
                    &&& m.vmcs().field_value(VmcsField::IoBitmapA) != m.vmcs().field_value(
                        VmcsField::IoBitmapB,
                    )
                    &&& m.vmcs().field_value(VmcsField::VirtualApicPageAddr)
                        != m.vmcs().field_value(VmcsField::IoBitmapA)
                    &&& m.vmcs().field_value(VmcsField::VirtualApicPageAddr)
                        != m.vmcs().field_value(VmcsField::IoBitmapB)
                    &&& old(alloc).capacity() == final(alloc).capacity() + 12
                    &&& m.owned_frames() <= final(alloc).allocated()
                    &&& m.owned_frames().disjoint(old(alloc).allocated())
                },
                Err(e) => e matches Error::AllocError(_) && old(alloc).capacity() < 12,
            },
    {
        let ghost a0 = *alloc;
        let mut vmcs = match Vmcs::new(alloc) {
            Ok(v) => v,
            Err(e) => {
                return Err(e);
            },
        };
        let ghost a1 = *alloc;
        let stack = match alloc.allocate_frame() {
            Some(f) => f,
            None => {
                return Err(Error::AllocError("failed to allocate the exit stack frame"));
            },
        };
        let ghost a2 = *alloc;
        match vmcs.activate_temporarily(vmx) {
            Ok(()) => (),
            Err(e) => {
                return Err(e);
            },
        }
        let cfg = Self::configure(&mut vmcs, alloc, vmx, host, &stack);
        match vmcs.deactivate() {
            Ok(()) => (),
            Err(e) => {
                return Err(e);
            },
        }
        let ept = match cfg {
            Ok(t) => t,
            Err(e) => {
                return Err(e);
            },
        };
        let m = VirtualMachine { vmcs, config, stack, ept };
        proof {
            let af = *alloc;
            assert(a0.allocated() <= a1.allocated());
            assert(a1.allocated() <= a2.allocated());
            assert(a2.allocated() <= af.allocated());
            assert forall|x: u64|
                m.owned_frames().contains(x) implies af.allocated().contains(x)
                && !a0.allocated().contains(x) by {
                if reachable_frames(m.ept(), 4).contains(x) {
                    assert(af.allocated().difference(a2.allocated()).contains(x));
                }
            }
            assert forall|x: u64|
                m.owned_frames().contains(x) implies !old(alloc).allocated().contains(x) by {}
            assert(m.owned_frames() <= af.allocated());
            assert(m.owned_frames().disjoint(a0.allocated()));
        }
        Ok(m)
    }

    /// The start address of the exit stack frame.
    pub fn stack_address(&self) -> (r: u64)
        ensures
            r == self.stack().addr(),
    {
        self.stack.start_address()
    }

    /// The start address of the control-structure frame.
    pub fn vmcs_frame_address(&self) -> (r: u64)
        ensures
            r == self.vmcs().frame().addr(),
    {
        self.vmcs.frame_address()
    }

    /// Walks the machine's address space for `gpa`.
    pub fn translate_guest_address(&self, gpa: GuestPhysAddr) -> (r: Option<(u64, bool)>)
        requires
            self.wf(),
        ensures
            r == translate_at(self.ept(), 4, gpa.spec_addr()),
    {
        self.ept.translate(gpa)
    }

    /// Reads one field back for diagnostics, through a configuration
    /// session of its own: opens, reads, closes, leaving the machine as
    /// it was.
    pub fn read_field(&mut self, vmx: &Vmx, field: VmcsField) -> (r: Result<u64, Error>)
        ensures
            final(self).config() == old(self).config(),
            final(self).stack() == old(self).stack(),
            final(self).ept() == old(self).ept(),
            final(self).vmcs().state() == old(self).vmcs().state(),
            final(self).vmcs().field_map() == old(self).vmcs().field_map(),
            final(self).vmcs().frame() == old(self).vmcs().frame(),
            old(self).vmcs().state() == VmcsState::Inactive ==> (r matches Ok(v) && v == old(
                self,
            ).vmcs().field_value(field)),
            old(self).vmcs().state() != VmcsState::Inactive ==> (r matches Err(e)
                && e matches Error::VmcsActivation),
    {
        match self.vmcs.activate_temporarily(vmx) {
            Ok(()) => (),
            Err(e) => {
                return Err(e);
            },
        }
        let r = self.vmcs.read_field(field);
        match self.vmcs.deactivate() {
            Ok(()) => (),
            Err(e) => {
                return Err(e);
            },
        }
        r
    }

    /// Consumes the machine and opens the one-way execution session on
    /// its control structure: the step immediately before the entry
    /// instruction, which the embedding program then issues.
    pub fn launch(self, vmx: Vmx) -> (r: Result<PendingEntry, Error>)
        ensures
            self.vmcs().state() == VmcsState::Inactive ==> (r matches Ok(p) && p.vmcs().state()
                == VmcsState::Active && p.vmcs().field_map() == self.vmcs().field_map()
                && p.vmcs().frame() == self.vmcs().frame() && p.config() == self.config()
                && p.stack() == self.stack() && p.ept() == self.ept()),
            self.vmcs().state() != VmcsState::Inactive ==> (r matches Err(e)
                && e matches Error::VmcsActivation),
    {
        let VirtualMachine { mut vmcs, config, stack, ept } = self;
        match vmcs.activate(&vmx) {
            Ok(()) => (),
            Err(e) => {
                return Err(e);
            },
        }
        Ok(PendingEntry { vmcs, config, stack, ept })
    }
}

impl PendingEntry {
    /// The activated control structure.
    pub closed spec fn vmcs(self) -> Vmcs {
        self.vmcs
    }

    /// The consumed configuration.
    pub closed spec fn config(self) -> VirtualMachineConfig {
        self.config
    }

    /// The exit stack frame.
    pub closed spec fn stack(self) -> HostFrame {
        self.stack
    }

    /// The guest address space.
    pub closed spec fn ept(self) -> EptTable {
        self.ept
    }

    /// Interprets the condition flags captured immediately after the
    /// entry instruction.  CF or ZF set means the hardware rejected the
    /// entry: a described, typed failure comes back and nothing runs.
    /// Flags clear means the guest is running under the still-active
    /// control structure.  (On real hardware a successful entry does not
    /// return through this code at all: the running value is reachable
    /// only from a flag capture that came back clean.)
    pub fn complete_entry(self, rflags: u64) -> (r: Result<VirtualMachineRunning, Error>)
        ensures
            rflags & RFLAGS_CF != 0 ==> (r matches Err(e) && e matches Error::VmFailInvalid(m)
                && m@ == "failed to launch the virtual machine"@ && m@.len() > 0),
            rflags & RFLAGS_CF == 0 && rflags & RFLAGS_ZF != 0 ==> (r matches Err(e)
                && e matches Error::VmFailValid(m) && m@ == "failed to launch the virtual machine"@
                && m@.len() > 0),
            rflags & RFLAGS_CF == 0 && rflags & RFLAGS_ZF == 0 ==> (r matches Ok(run)
                && run.vmcs() == self.vmcs()),
    {
        let message = "failed to launch the virtual machine".to_string();
        proof {
            reveal_strlit("failed to launch the virtual machine");
        }
        match check_vm_instruction(rflags, message) {
            Ok(()) => Ok(VirtualMachineRunning { vmcs: self.vmcs }),
            Err(e) => Err(e),
        }
    }
}

impl VirtualMachineRunning {
    /// The active control structure of the running guest.
    pub closed spec fn vmcs(self) -> Vmcs {
        self.vmcs
    }
}

/// Independently built machines never share a frame.  If every frame of
/// one machine lies inside the set an allocator had handed out at some
/// point, and every frame of another machine is disjoint from that set
/// because it was built only from later allocations (which is what
/// `VirtualMachine::new` guarantees for two constructions in sequence),
/// then the two machines' frames are disjoint.
pub proof fn lemma_machines_never_alias(
    m1: VirtualMachine,
    m2: VirtualMachine,
    handed_out: Set<u64>,
)
    requires
        m1.owned_frames() <= handed_out,
        m2.owned_frames().disjoint(handed_out),
    ensures
        m1.owned_frames().disjoint(m2.owned_frames()),
{
    assert forall|x: u64|
        m1.owned_frames().contains(x) implies !m2.owned_frames().contains(x) by {
        assert(handed_out.contains(x));
    }
}

} // verus!

