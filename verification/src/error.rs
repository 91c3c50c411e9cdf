//! Error kinds of the monitor core and the interpretation of the
//! condition flags left behind by a VM-entry instruction.

use vstd::prelude::*;

verus! {

/// Mask of the carry flag (CF) in the RFLAGS register.
pub const RFLAGS_CF: u64 = 0x1;

/// Mask of the zero flag (ZF) in the RFLAGS register.
pub const RFLAGS_ZF: u64 = 0x40;

/// Every failure this core can report.
#[derive(Debug)]
pub enum Error {
    /// A required physical frame could not be allocated.
    AllocError(&'static str),
    /// A control-structure field was accessed outside an activation session.
    VmcsFieldAccess,
    /// An activation was requested from a state that does not allow it.
    VmcsActivation,
    /// The entry instruction was rejected with CF set: the control-structure
    /// pointer was invalid.
    VmFailInvalid(String),
    /// The entry instruction was rejected with ZF set: the control structure
    /// was valid but one of its fields was not.
    VmFailValid(String),
}

/// Interprets the RFLAGS value captured immediately after a VM-entry
/// instruction.  The architecture reports failure only through the carry
/// and zero flags: CF means the control-structure pointer was invalid,
/// ZF means a field of an otherwise valid control structure was rejected.
pub fn check_vm_instruction(rflags: u64, failure: String) -> (r: Result<(), Error>)
    ensures
        rflags & RFLAGS_CF != 0 ==> (r matches Err(e) && e matches Error::VmFailInvalid(m)
            && m == failure),
        rflags & RFLAGS_CF == 0 && rflags & RFLAGS_ZF != 0 ==> (r matches Err(e)
            && e matches Error::VmFailValid(m) && m == failure),
        rflags & RFLAGS_CF == 0 && rflags & RFLAGS_ZF == 0 ==> r is Ok,
{
    if rflags & RFLAGS_CF != 0 {
        Err(Error::VmFailInvalid(failure))
    } else if rflags & RFLAGS_ZF != 0 {
        Err(Error::VmFailValid(failure))
    } else {
        Ok(())
    }
}

} // verus!
