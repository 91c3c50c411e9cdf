//! The per-guest control structure: one exclusively owned physical page
//! holding the architecture-defined host, guest and execution-control
//! fields, accessible only inside an activation session.

use vstd::prelude::*;
use std::collections::HashMap;
use crate::error::Error;
use crate::frame::{FrameAllocator, HostFrame};
use crate::vmx::{apply_fixed_bits, spec_apply_fixed, CapabilityMsr, Vmx};

verus! {

broadcast use vstd::std_specs::hash::group_hash_axioms;

/// An architecture-defined control-structure field, named by its
/// encoding in the field-encoding space.
#[derive(Clone, Copy, Debug, PartialEq, Eq, Structural)]
pub enum VmcsField {
    VirtualProcessorId,
    GuestEsSelector,
    GuestCsSelector,
    GuestSsSelector,
    GuestDsSelector,
    GuestFsSelector,
    GuestGsSelector,
    GuestLdtrSelector,
    GuestTrSelector,
    HostEsSelector,
    HostCsSelector,
    HostSsSelector,
    HostDsSelector,
    HostFsSelector,
    HostGsSelector,
    HostTrSelector,
    IoBitmapA,
    IoBitmapB,
    VirtualApicPageAddr,
    EptPointer,
    VmcsLinkPointer,
    VmcsLinkPointerHigh,
    GuestIa32Efer,
    HostIa32Efer,
    PinBasedVmExecControl,
    CpuBasedVmExecControl,
    ExceptionBitmap,
    VmExitControls,
    VmEntryControls,
    TprThreshold,
    SecondaryVmExecControl,
    GuestEsLimit,
    GuestCsLimit,
    GuestSsLimit,
    GuestDsLimit,
    GuestFsLimit,
    GuestGsLimit,
    GuestLdtrLimit,
    GuestTrLimit,
    GuestGdtrLimit,
    GuestIdtrLimit,
    GuestEsArBytes,
    GuestCsArBytes,
    GuestSsArBytes,
    GuestDsArBytes,
    GuestFsArBytes,
    GuestGsArBytes,
    GuestLdtrArBytes,
    GuestTrArBytes,
    GuestInterruptibilityInfo,
    GuestActivityState,
    HostIa32SysenterCs,
    GuestCr0,
    GuestCr3,
    GuestCr4,
    GuestEsBase,
    GuestCsBase,
    GuestSsBase,
    GuestDsBase,
    GuestFsBase,
    GuestGsBase,
    GuestLdtrBase,
    GuestTrBase,
    GuestGdtrBase,
    GuestIdtrBase,
    GuestDr7,
    GuestRsp,
    GuestRip,
    HostCr0,
    HostCr3,
    HostCr4,
    HostFsBase,
    HostGsBase,
    HostTrBase,
    HostGdtrBase,
    HostIdtrBase,
    HostIa32SysenterEsp,
    HostIa32SysenterEip,
    HostRsp,
    HostRip,
}

/// The architecture-defined encoding of a field, the key under which its
/// value is stored.
pub open spec fn spec_field_encoding(f: VmcsField) -> u64 {
    match f {
        VmcsField::VirtualProcessorId => 0x0,
        VmcsField::GuestEsSelector => 0x800,
        VmcsField::GuestCsSelector => 0x802,
        VmcsField::GuestSsSelector => 0x804,
        VmcsField::GuestDsSelector => 0x806,
        VmcsField::GuestFsSelector => 0x808,
        VmcsField::GuestGsSelector => 0x80a,
        VmcsField::GuestLdtrSelector => 0x80c,
        VmcsField::GuestTrSelector => 0x80e,
        VmcsField::HostEsSelector => 0xc00,
        VmcsField::HostCsSelector => 0xc02,
        VmcsField::HostSsSelector => 0xc04,
        VmcsField::HostDsSelector => 0xc06,
        VmcsField::HostFsSelector => 0xc08,
        VmcsField::HostGsSelector => 0xc0a,
        VmcsField::HostTrSelector => 0xc0c,
        VmcsField::IoBitmapA => 0x2000,
        VmcsField::IoBitmapB => 0x2002,
        VmcsField::VirtualApicPageAddr => 0x2012,
        VmcsField::EptPointer => 0x201a,
        VmcsField::VmcsLinkPointer => 0x2800,
        VmcsField::VmcsLinkPointerHigh => 0x2801,
        VmcsField::GuestIa32Efer => 0x2806,
        VmcsField::HostIa32Efer => 0x2c02,
        VmcsField::PinBasedVmExecControl => 0x4000,
        VmcsField::CpuBasedVmExecControl => 0x4002,
        VmcsField::ExceptionBitmap => 0x4004,
        VmcsField::VmExitControls => 0x400c,
        VmcsField::VmEntryControls => 0x4012,
        VmcsField::TprThreshold => 0x401c,
        VmcsField::SecondaryVmExecControl => 0x401e,
        VmcsField::GuestEsLimit => 0x4800,
        VmcsField::GuestCsLimit => 0x4802,
        VmcsField::GuestSsLimit => 0x4804,
        VmcsField::GuestDsLimit => 0x4806,
        VmcsField::GuestFsLimit => 0x4808,
        VmcsField::GuestGsLimit => 0x480a,
        VmcsField::GuestLdtrLimit => 0x480c,
        VmcsField::GuestTrLimit => 0x480e,
        VmcsField::GuestGdtrLimit => 0x4810,
        VmcsField::GuestIdtrLimit => 0x4812,
        VmcsField::GuestEsArBytes => 0x4814,
        VmcsField::GuestCsArBytes => 0x4816,
        VmcsField::GuestSsArBytes => 0x4818,
        VmcsField::GuestDsArBytes => 0x481a,
        VmcsField::GuestFsArBytes => 0x481c,
        VmcsField::GuestGsArBytes => 0x481e,
        VmcsField::GuestLdtrArBytes => 0x4820,
        VmcsField::GuestTrArBytes => 0x4822,
        VmcsField::GuestInterruptibilityInfo => 0x4824,
        VmcsField::GuestActivityState => 0x4826,
        VmcsField::HostIa32SysenterCs => 0x4c00,
        VmcsField::GuestCr0 => 0x6800,
        VmcsField::GuestCr3 => 0x6802,
        VmcsField::GuestCr4 => 0x6804,
        VmcsField::GuestEsBase => 0x6806,
        VmcsField::GuestCsBase => 0x6808,
        VmcsField::GuestSsBase => 0x680a,
        VmcsField::GuestDsBase => 0x680c,
        VmcsField::GuestFsBase => 0x680e,
        VmcsField::GuestGsBase => 0x6810,
        VmcsField::GuestLdtrBase => 0x6812,
        VmcsField::GuestTrBase => 0x6814,
        VmcsField::GuestGdtrBase => 0x6816,
        VmcsField::GuestIdtrBase => 0x6818,
        VmcsField::GuestDr7 => 0x681a,
        VmcsField::GuestRsp => 0x681c,
        VmcsField::GuestRip => 0x681e,
        VmcsField::HostCr0 => 0x6c00,
        VmcsField::HostCr3 => 0x6c02,
        VmcsField::HostCr4 => 0x6c04,
        VmcsField::HostFsBase => 0x6c06,
        VmcsField::HostGsBase => 0x6c08,
        VmcsField::HostTrBase => 0x6c0a,
        VmcsField::HostGdtrBase => 0x6c0c,
        VmcsField::HostIdtrBase => 0x6c0e,
        VmcsField::HostIa32SysenterEsp => 0x6c10,
        VmcsField::HostIa32SysenterEip => 0x6c12,
        VmcsField::HostRsp => 0x6c14,
        VmcsField::HostRip => 0x6c16,
    }
}

impl VmcsField {
    /// The architecture-defined encoding of this field.
    pub fn encoding(&self) -> (r: u64)
        ensures
            r == spec_field_encoding(*self),
    {
        match *self {
            VmcsField::VirtualProcessorId => 0x0,
            VmcsField::GuestEsSelector => 0x800,
            VmcsField::GuestCsSelector => 0x802,
            VmcsField::GuestSsSelector => 0x804,
            VmcsField::GuestDsSelector => 0x806,
            VmcsField::GuestFsSelector => 0x808,
            VmcsField::GuestGsSelector => 0x80a,
            VmcsField::GuestLdtrSelector => 0x80c,
            VmcsField::GuestTrSelector => 0x80e,
            VmcsField::HostEsSelector => 0xc00,
            VmcsField::HostCsSelector => 0xc02,
            VmcsField::HostSsSelector => 0xc04,
            VmcsField::HostDsSelector => 0xc06,
            VmcsField::HostFsSelector => 0xc08,
            VmcsField::HostGsSelector => 0xc0a,
            VmcsField::HostTrSelector => 0xc0c,
            VmcsField::IoBitmapA => 0x2000,
            VmcsField::IoBitmapB => 0x2002,
            VmcsField::VirtualApicPageAddr => 0x2012,
            VmcsField::EptPointer => 0x201a,
            VmcsField::VmcsLinkPointer => 0x2800,
            VmcsField::VmcsLinkPointerHigh => 0x2801,
            VmcsField::GuestIa32Efer => 0x2806,
            VmcsField::HostIa32Efer => 0x2c02,
            VmcsField::PinBasedVmExecControl => 0x4000,
            VmcsField::CpuBasedVmExecControl => 0x4002,
            VmcsField::ExceptionBitmap => 0x4004,
            VmcsField::VmExitControls => 0x400c,
            VmcsField::VmEntryControls => 0x4012,
            VmcsField::TprThreshold => 0x401c,
            VmcsField::SecondaryVmExecControl => 0x401e,
            VmcsField::GuestEsLimit => 0x4800,
            VmcsField::GuestCsLimit => 0x4802,
            VmcsField::GuestSsLimit => 0x4804,
            VmcsField::GuestDsLimit => 0x4806,
            VmcsField::GuestFsLimit => 0x4808,
            VmcsField::GuestGsLimit => 0x480a,
            VmcsField::GuestLdtrLimit => 0x480c,
            VmcsField::GuestTrLimit => 0x480e,
            VmcsField::GuestGdtrLimit => 0x4810,
            VmcsField::GuestIdtrLimit => 0x4812,
            VmcsField::GuestEsArBytes => 0x4814,
            VmcsField::GuestCsArBytes => 0x4816,
            VmcsField::GuestSsArBytes => 0x4818,
            VmcsField::GuestDsArBytes => 0x481a,
            VmcsField::GuestFsArBytes => 0x481c,
            VmcsField::GuestGsArBytes => 0x481e,
            VmcsField::GuestLdtrArBytes => 0x4820,
            VmcsField::GuestTrArBytes => 0x4822,
            VmcsField::GuestInterruptibilityInfo => 0x4824,
            VmcsField::GuestActivityState => 0x4826,
            VmcsField::HostIa32SysenterCs => 0x4c00,
            VmcsField::GuestCr0 => 0x6800,
            VmcsField::GuestCr3 => 0x6802,
            VmcsField::GuestCr4 => 0x6804,
            VmcsField::GuestEsBase => 0x6806,
            VmcsField::GuestCsBase => 0x6808,
            VmcsField::GuestSsBase => 0x680a,
            VmcsField::GuestDsBase => 0x680c,
            VmcsField::GuestFsBase => 0x680e,
            VmcsField::GuestGsBase => 0x6810,
            VmcsField::GuestLdtrBase => 0x6812,
            VmcsField::GuestTrBase => 0x6814,
            VmcsField::GuestGdtrBase => 0x6816,
            VmcsField::GuestIdtrBase => 0x6818,
            VmcsField::GuestDr7 => 0x681a,
            VmcsField::GuestRsp => 0x681c,
            VmcsField::GuestRip => 0x681e,
            VmcsField::HostCr0 => 0x6c00,
            VmcsField::HostCr3 => 0x6c02,
            VmcsField::HostCr4 => 0x6c04,
            VmcsField::HostFsBase => 0x6c06,
            VmcsField::HostGsBase => 0x6c08,
            VmcsField::HostTrBase => 0x6c0a,
            VmcsField::HostGdtrBase => 0x6c0c,
            VmcsField::HostIdtrBase => 0x6c0e,
            VmcsField::HostIa32SysenterEsp => 0x6c10,
            VmcsField::HostIa32SysenterEip => 0x6c12,
            VmcsField::HostRsp => 0x6c14,
            VmcsField::HostRip => 0x6c16,
        }
    }
}

/// The activation state of a control structure.
///
/// Fields can be read and written only while a session is open:
/// `TemporarilyActive` is the configuration session the lifecycle manager
/// opens and always closes again, `Active` is the one-way session `launch`
/// opens for the actual transition.
#[derive(Clone, Copy, Debug, PartialEq, Eq, Structural)]
pub enum VmcsState {
    Inactive,
    TemporarilyActive,
    Active,
}

/// The control structure: a freshly allocated backing frame, the
/// activation state, and the values of every field written so far.
/// A field never written reads back as 0, like the zeroed backing page.
pub struct Vmcs {
    frame: HostFrame,
    state: VmcsState,
    fields: HashMap<u64, u64>,
}

impl Vmcs {
    /// The activation state.
    pub closed spec fn state(self) -> VmcsState {
        self.state
    }

    /// The backing frame.
    pub closed spec fn frame(self) -> HostFrame {
        self.frame
    }

    /// The values of the fields written so far, keyed by field encoding.
    pub closed spec fn field_map(self) -> Map<u64, u64> {
        self.fields@
    }

    /// What a field currently reads back as.
    pub open spec fn field_value(self, f: VmcsField) -> u64 {
        if self.field_map().contains_key(spec_field_encoding(f)) {
            self.field_map()[spec_field_encoding(f)]
        } else {
            0
        }
    }

    pub open spec fn wf(self) -> bool {
        self.frame().wf()
    }

    /// Allocates the backing frame of a new, inactive control structure
    /// with every field still zero.
    pub fn new<A: FrameAllocator>(alloc: &mut A) -> (r: Result<Vmcs, Error>)
        requires
            old(alloc).wf(),
        ensures
            final(alloc).wf(),
            old(alloc).allocated() <= final(alloc).allocated(),
            old(alloc).capacity() >= 1 ==> r is Ok,
            r is Err ==> final(alloc).capacity() == 0,
            match r {
                Ok(v) => {
                    &&& v.wf()
                    &&& v.state() == VmcsState::Inactive
                    &&& v.field_map() == Map::<u64, u64>::empty()
                    &&& !old(alloc).allocated().contains(v.frame().addr())
                    &&& final(alloc).allocated() == old(alloc).allocated().insert(v.frame().addr())
                    &&& old(alloc).capacity() == final(alloc).capacity() + 1
                },
                Err(e) => e matches Error::AllocError(_) && final(alloc).allocated() == old(
                    alloc,
                ).allocated() && old(alloc).capacity() == 0,
            },
    {
        let frame = match alloc.allocate_frame() {
            Some(f) => f,
            None => {
                return Err(Error::AllocError("failed to allocate a control-structure frame"));
            },
        };
        Ok(Vmcs { frame, state: VmcsState::Inactive, fields: HashMap::new() })
    }

    /// The start address of the backing frame.
    pub fn frame_address(&self) -> (r: u64)
        ensures
            r == self.frame().addr(),
    {
        self.frame.start_address()
    }

    /// Opens the configuration session.  Only an inactive structure can
    /// be opened; the session must be closed with `deactivate`.
    pub fn activate_temporarily(&mut self, _vmx: &Vmx) -> (r: Result<(), Error>)
        ensures
            old(self).state() == VmcsState::Inactive ==> r is Ok && final(self).state() == VmcsState::TemporarilyActive
                && final(self).field_map() == old(self).field_map() && final(self).frame() == old(
                self,
            ).frame(),
            old(self).state() != VmcsState::Inactive ==> (r matches Err(e)
                && e matches Error::VmcsActivation) && *final(self) == *old(self),
    {
        if self.state == VmcsState::Inactive {
            self.state = VmcsState::TemporarilyActive;
            Ok(())
        } else {
            Err(Error::VmcsActivation)
        }
    }

    /// Closes the configuration session, reverting the structure to
    /// inactive with its field values kept.
    pub fn deactivate(&mut self) -> (r: Result<(), Error>)
        ensures
            old(self).state() == VmcsState::TemporarilyActive ==> r is Ok && final(self).state() == VmcsState::Inactive
                && final(self).field_map() == old(self).field_map() && final(self).frame() == old(
                self,
            ).frame(),
            old(self).state() != VmcsState::TemporarilyActive ==> (r matches Err(e)
                && e matches Error::VmcsActivation) && *final(self) == *old(self),
    {
        if self.state == VmcsState::TemporarilyActive {
            self.state = VmcsState::Inactive;
            Ok(())
        } else {
            Err(Error::VmcsActivation)
        }
    }

    /// Opens the one-way execution session used by `launch`.  No path in
    /// this core closes it again: on a successful entry the guest, not
    /// the host, runs under it.
    pub fn activate(&mut self, _vmx: &Vmx) -> (r: Result<(), Error>)
        ensures
            old(self).state() == VmcsState::Inactive ==> r is Ok && final(self).state() == VmcsState::Active
                && final(self).field_map() == old(self).field_map() && final(self).frame() == old(
                self,
            ).frame(),
            old(self).state() != VmcsState::Inactive ==> (r matches Err(e)
                && e matches Error::VmcsActivation) && *final(self) == *old(self),
    {
        if self.state == VmcsState::Inactive {
            self.state = VmcsState::Active;
            Ok(())
        } else {
            Err(Error::VmcsActivation)
        }
    }

    /// Writes one field.  Fails, changing nothing, when no session is
    /// open; succeeds in every open session.
    pub fn write_field(&mut self, field: VmcsField, value: u64) -> (r: Result<(), Error>)
        ensures
            old(self).state() == VmcsState::Inactive ==> (r matches Err(e)
                && e matches Error::VmcsFieldAccess) && *final(self) == *old(self),
            old(self).state() != VmcsState::Inactive ==> r is Ok && final(self).field_map() == old(
                self,
            ).field_map().insert(spec_field_encoding(field), value) && final(self).field_value(
                field,
            ) == value && final(self).state() == old(self).state() && final(self).frame() == old(
                self,
            ).frame(),
    {
        if self.state == VmcsState::Inactive {
            return Err(Error::VmcsFieldAccess);
        }
        self.fields.insert(field.encoding(), value);
        Ok(())
    }

    /// Reads one field back.  Fails when no session is open.
    pub fn read_field(&self, field: VmcsField) -> (r: Result<u64, Error>)
        ensures
            self.state() == VmcsState::Inactive ==> (r matches Err(e)
                && e matches Error::VmcsFieldAccess),
            self.state() != VmcsState::Inactive ==> (r matches Ok(v) && v == self.field_value(
                field,
            )),
    {
        if self.state == VmcsState::Inactive {
            return Err(Error::VmcsFieldAccess);
        }
        match self.fields.get(&field.encoding()) {
            Some(v) => Ok(*v),
            None => Ok(0),
        }
    }

    /// Writes a control field through the capability masks: the value
    /// that lands in the field is `desired` adjusted by
    /// `spec_apply_fixed`, and is also returned.
    pub fn write_with_fixed(&mut self, field: VmcsField, desired: u64, caps: CapabilityMsr) -> (r:
        Result<u64, Error>)
        ensures
            old(self).state() == VmcsState::Inactive ==> (r matches Err(e)
                && e matches Error::VmcsFieldAccess) && *final(self) == *old(self),
            old(self).state() != VmcsState::Inactive ==> (r matches Ok(v) && v == spec_apply_fixed(
                desired,
                caps.allowed0,
                caps.allowed1,
            ) && final(self).field_map() == old(self).field_map().insert(
                spec_field_encoding(field),
                v,
            ) && final(self).field_value(field) == v && final(self).state() == old(self).state()
                && final(self).frame() == old(self).frame()),
    {
        let value = apply_fixed_bits(desired, caps);
        self.write_field(field, value)?;
        Ok(value)
    }
}

/// A value written in an open session reads back unchanged within that
/// session: writing `value` under a field's encoding makes that field's
/// read-back value `value`, whatever was stored before.
pub proof fn lemma_field_write_read_back(m: Map<u64, u64>, field: VmcsField, value: u64)
    ensures
        m.insert(spec_field_encoding(field), value).index(spec_field_encoding(field)) == value,
{
}

} // verus!
