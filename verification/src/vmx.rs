//! The per-CPU virtualization context: the capability masks the processor
//! reports for every execution-control field, and the constrained-write
//! computation that makes a desired bit pattern legal under them.

use vstd::prelude::*;

verus! {

/// The fixed-bit masks one capability MSR reports for a control field.
///
/// A bit set in `allowed0` must be 1 in the programmed field; a bit clear
/// in `allowed1` must be 0.  Real hardware never reports a bit as both
/// required and forbidden, so `allowed0 & !allowed1 == 0` on every CPU.
#[derive(Clone, Copy, Debug)]
pub struct CapabilityMsr {
    /// Bits the processor requires to be 1.
    pub allowed0: u64,
    /// Bits the processor allows to be 1.
    pub allowed1: u64,
}

/// The handle standing for one logical CPU's virtualization-enabled
/// context.  It carries the capability masks that CPU reported, read once
/// by the embedding program; every machine built against it is
/// constrained by them.  Machines on different logical CPUs must each use
/// their own handle.
#[derive(Clone, Copy, Debug)]
pub struct Vmx {
    /// Masks for the pin-based execution controls.
    pub pinbased_ctls: CapabilityMsr,
    /// Masks for the primary processor-based execution controls.
    pub procbased_ctls: CapabilityMsr,
    /// Masks for the secondary processor-based execution controls.
    pub procbased_ctls2: CapabilityMsr,
    /// Masks for the VM-exit controls.
    pub exit_ctls: CapabilityMsr,
    /// Masks for the VM-entry controls.
    pub entry_ctls: CapabilityMsr,
    /// Bits required to be 1 in a guest's CR0.
    pub cr0_fixed0: u64,
    /// Bits required to be 1 in a guest's CR4.
    pub cr4_fixed0: u64,
}

/// The value actually programmed when `desired` is written under the
/// masks `(allowed0, allowed1)`: required bits are forced on, forbidden
/// bits are masked off, the rest pass through.
pub open spec fn spec_apply_fixed(desired: u64, allowed0: u64, allowed1: u64) -> u64 {
    (desired & allowed1) | allowed0
}

/// Adjusts `desired` so that it satisfies the per-bit constraints of
/// `caps`: every bit `allowed0` forces to 1 comes out 1, every bit
/// `allowed1` forbids comes out 0, and every unconstrained bit keeps the
/// caller's value.
pub fn apply_fixed_bits(desired: u64, caps: CapabilityMsr) -> (r: u64)
    ensures
        r == spec_apply_fixed(desired, caps.allowed0, caps.allowed1),
        r & caps.allowed0 == caps.allowed0,
        r & !caps.allowed1 & !caps.allowed0 == 0,
        r & caps.allowed1 & !caps.allowed0 == desired & caps.allowed1 & !caps.allowed0,
{
    let r = (desired & caps.allowed1) | caps.allowed0;
    proof {
        let d = desired;
        let a0 = caps.allowed0;
        let a1 = caps.allowed1;
        assert(((d & a1) | a0) & a0 == a0) by (bit_vector);
        assert(((d & a1) | a0) & !a1 & !a0 == 0) by (bit_vector);
        assert(((d & a1) | a0) & a1 & !a0 == d & a1 & !a0) by (bit_vector);
    }
    r
}

/// Constrained writes are per-bit faithful: for masks a CPU can actually
/// report (no bit both required and forbidden), bit `i` of the written
/// value is 1 wherever `allowed0` forces it, 0 wherever `allowed1`
/// forbids it, and the caller's bit everywhere else.
pub proof fn lemma_apply_fixed_bitwise(desired: u64, allowed0: u64, allowed1: u64, i: u64)
    requires
        i < 64,
        allowed0 & !allowed1 == 0,
    ensures
        (allowed0 >> i) & 1 == 1 ==> (spec_apply_fixed(desired, allowed0, allowed1) >> i) & 1 == 1,
        (allowed1 >> i) & 1 == 0 ==> (spec_apply_fixed(desired, allowed0, allowed1) >> i) & 1 == 0,
        (allowed0 >> i) & 1 == 0 && (allowed1 >> i) & 1 == 1 ==> (spec_apply_fixed(
            desired,
            allowed0,
            allowed1,
        ) >> i) & 1 == (desired >> i) & 1,
{
    let d = desired;
    let a0 = allowed0;
    let a1 = allowed1;
    assert(i < 64 && (a0 >> i) & 1 == 1 ==> (((d & a1) | a0) >> i) & 1 == 1) by (bit_vector);
    assert(i < 64 && a0 & !a1 == 0 && (a1 >> i) & 1 == 0 ==> (((d & a1) | a0) >> i) & 1 == 0)
        by (bit_vector);
    assert(i < 64 && (a0 >> i) & 1 == 0 && (a1 >> i) & 1 == 1 ==> (((d & a1) | a0) >> i) & 1 == (d
        >> i) & 1) by (bit_vector);
}

} // verus!
