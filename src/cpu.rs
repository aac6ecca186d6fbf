use vstd::prelude::*;
use kvm_bindings::{kvm_dtable, kvm_regs, kvm_segment, kvm_sregs};

verus! {

// The register blocks of an x86-64 vCPU, as the virtualization facility reads
// and writes them. All their fields are public plain integers, so Verus reads
// them as ordinary structs.
#[verifier::external_type_specification]
pub struct ExKvmRegs(kvm_regs);

#[verifier::external_type_specification]
pub struct ExKvmSegment(kvm_segment);

#[verifier::external_type_specification]
pub struct ExKvmDtable(kvm_dtable);

#[verifier::external_type_specification]
pub struct ExKvmSregs(kvm_sregs);

/// General registers as a flat boot needs them: instruction pointer,
/// accumulator and base register cleared, every other register kept.
pub open spec fn flat_boot_regs_of(r: kvm_regs) -> kvm_regs {
    kvm_regs { rax: 0, rbx: 0, rip: 0, ..r }
}

/// Segment registers as a flat boot needs them: code-segment selector and base
/// cleared, so that fetching starts at guest-physical address 0; every other
/// field kept.
pub open spec fn flat_boot_sregs_of(s: kvm_sregs) -> kvm_sregs {
    kvm_sregs { cs: kvm_segment { selector: 0, base: 0, ..s.cs }, ..s }
}

/// The general registers to write for a flat boot, given those read.
pub fn flat_boot_regs(regs: kvm_regs) -> (r: kvm_regs)
    ensures
        r == flat_boot_regs_of(regs),
        r.rip == 0 && r.rax == 0 && r.rbx == 0,
{
    let mut r = regs;
    r.rax = 0;
    r.rbx = 0;
    r.rip = 0;
    r
}

/// The segment registers to write for a flat boot, given those read.
pub fn flat_boot_sregs(sregs: kvm_sregs) -> (r: kvm_sregs)
    ensures
        r == flat_boot_sregs_of(sregs),
        r.cs.selector == 0 && r.cs.base == 0,
{
    let mut r = sregs;
    r.cs.selector = 0;
    r.cs.base = 0;
    r
}

} // verus!
