use vstd::prelude::*;
use kvm_bindings::{kvm_regs, kvm_sregs};
use kvm_ioctls::{Kvm, VcpuExit, VcpuFd, VmFd};
use crate::cpu::{flat_boot_regs, flat_boot_regs_of, flat_boot_sregs, flat_boot_sregs_of};
use crate::error::VmError;
use crate::exec::{console_bytes, next_state, ExecutionLoop, ExitReason};
use crate::memory::MemoryRegion;

verus! {

// Handles of the host's virtualization facility. Verus sees nothing inside them.
#[verifier::external_type_specification]
#[verifier::external_body]
pub struct ExKvm(Kvm);

#[verifier::external_type_specification]
#[verifier::external_body]
pub struct ExVmFd(VmFd);

#[verifier::external_type_specification]
#[verifier::external_body]
pub struct ExVcpuFd(VcpuFd);

#[verifier::external_type_specification]
#[verifier::external_body]
pub struct ExKvmError(kvm_ioctls::Error);

// The facility's answers depend on the host, so nothing is promised of them.
pub assume_specification[ Kvm::new ]() -> (r: Result<Kvm, kvm_ioctls::Error>);

pub assume_specification[ Kvm::create_vm ](kvm: &Kvm) -> (r: Result<VmFd, kvm_ioctls::Error>);

pub assume_specification[ VmFd::create_vcpu ](vm: &VmFd, id: u64) -> (r: Result<
    VcpuFd,
    kvm_ioctls::Error,
>);

pub assume_specification[ VcpuFd::get_regs ](vcpu: &VcpuFd) -> (r: Result<
    kvm_regs,
    kvm_ioctls::Error,
>);

pub assume_specification[ VcpuFd::set_regs ](vcpu: &VcpuFd, regs: &kvm_regs) -> (r: Result<
    (),
    kvm_ioctls::Error,
>);

pub assume_specification[ VcpuFd::get_sregs ](vcpu: &VcpuFd) -> (r: Result<
    kvm_sregs,
    kvm_ioctls::Error,
>);

pub assume_specification[ VcpuFd::set_sregs ](vcpu: &VcpuFd, sregs: &kvm_sregs) -> (r: Result<
    (),
    kvm_ioctls::Error,
>);

/// Relies on kvm_ioctls::VcpuFd::run: resumes the vCPU until it exits. Its
/// exit is rewritten, variant for variant, as an `ExitReason`; what the guest
/// does is not known here, so nothing is promised of it.
#[verifier::external_body]
fn resume_vcpu(vcpu: &mut VcpuFd) -> (r: Result<ExitReason, kvm_ioctls::Error>) {
    match vcpu.run() {
        Ok(VcpuExit::Hlt) => Ok(ExitReason::Halt),
        Ok(VcpuExit::IoOut(port, data)) => Ok(ExitReason::PortWrite { port, data: data.to_vec() }),
        Ok(VcpuExit::FailEntry(reason, cpu)) => Ok(ExitReason::EntryFailure { reason, cpu }),
        Ok(other) => Ok(ExitReason::Other { description: format!("{:?}", other) }),
        Err(e) => Err(e),
    }
}

/// Sets up `vcpu` for a flat boot: reads its segment registers, clears the
/// code-segment selector and base, writes them back, and does the same with
/// the instruction pointer, accumulator and base register. Returns the
/// registers written; fails with `CpuState` where a read or write is refused.
fn initialize_for_flat_boot(vcpu: &VcpuFd) -> (r: Result<(kvm_regs, kvm_sregs), VmError>)
    ensures
        r is Ok ==> exists|g: kvm_regs, s: kvm_sregs|
            r->Ok_0 == (flat_boot_regs_of(g), flat_boot_sregs_of(s)),
        r is Ok ==> ({
            let (g, s) = r->Ok_0;
            g.rip == 0 && g.rax == 0 && g.rbx == 0 && s.cs.selector == 0 && s.cs.base == 0
        }),
        r is Err ==> r->Err_0 == VmError::CpuState,
{
    let sregs = match vcpu.get_sregs() {
        Ok(s) => flat_boot_sregs(s),
        Err(_) => return Err(VmError::CpuState),
    };
    if vcpu.set_sregs(&sregs).is_err() {
        return Err(VmError::CpuState);
    }
    let regs = match vcpu.get_regs() {
        Ok(g) => flat_boot_regs(g),
        Err(_) => return Err(VmError::CpuState),
    };
    if vcpu.set_regs(&regs).is_err() {
        return Err(VmError::CpuState);
    }
    Ok((regs, sregs))
}

/// A VM context on the host's virtualization facility, with its memory
/// regions and its single vCPU.
pub struct Vm {
    /// The facility's handle; it is kept open for as long as the VM lives.
    kvm: Kvm,
    vm: VmFd,
    regions: Vec<MemoryRegion>,
    vcpu: Option<VcpuFd>,
    written: Ghost<Option<(kvm_regs, kvm_sregs)>>,
}

/// The identifier of the one vCPU of a VM.
pub const VCPU_ID: u64 = 0;

impl Vm {
    /// The memory regions recorded in this context, in the order they were added.
    pub closed spec fn regions(&self) -> Seq<MemoryRegion> {
        self.regions@
    }

    /// Whether the vCPU has been created.
    pub closed spec fn has_vcpu(&self) -> bool {
        self.vcpu is Some
    }

    /// The general and segment registers last written to the vCPU, if any.
    pub closed spec fn written_registers(&self) -> Option<(kvm_regs, kvm_sregs)> {
        self.written@
    }

    /// Every region is well formed, and no two share a slot or overlap.
    pub open spec fn wf(&self) -> bool {
        &&& forall|i: int| 0 <= i < self.regions().len() ==> (#[trigger] self.regions()[i]).wf()
        &&& forall|i: int, j: int|
            #![trigger self.regions()[i], self.regions()[j]]
            0 <= i < j < self.regions().len() ==> self.regions()[i].compatible(&self.regions()[j])
    }

    /// Opens the virtualization facility and creates a VM context on it, with
    /// no memory and no vCPU yet. Fails with `Initialization` where the host
    /// refuses either step.
    pub fn new() -> (r: Result<Vm, VmError>)
        ensures
            r is Ok ==> {
                let vm = r->Ok_0;
                &&& vm.wf()
                &&& vm.regions() == Seq::<MemoryRegion>::empty()
                &&& !vm.has_vcpu()
                &&& vm.written_registers() is None
            },
            r is Err ==> r->Err_0 == VmError::Initialization,
    {
        let kvm = match Kvm::new() {
            Ok(k) => k,
            Err(_) => return Err(VmError::Initialization),
        };
        let vm = match kvm.create_vm() {
            Ok(v) => v,
            Err(_) => return Err(VmError::Initialization),
        };
        Ok(Vm { kvm, vm, regions: Vec::new(), vcpu: None, written: Ghost(None) })
    }

    /// The VM context's handle, through which memory regions are registered.
    pub fn vm_fd(&self) -> &VmFd {
        &self.vm
    }

    /// Records `region` as part of this context's guest memory. Fails with
    /// `Memory`, changing nothing, where it shares a slot or a guest-physical
    /// address with a region already recorded.
    pub fn add_region(&mut self, region: MemoryRegion) -> (r: Result<(), VmError>)
        requires
            old(self).wf(),
            region.wf(),
        ensures
            final(self).wf(),
            r is Ok <==> forall|i: int|
                0 <= i < old(self).regions().len() ==> (#[trigger] old(self).regions()[i]).compatible(
                    &region,
                ),
            r is Ok ==> final(self).regions() == old(self).regions().push(region),
            r is Err ==> r->Err_0 == VmError::Memory && final(self).regions() == old(self).regions(),
            final(self).has_vcpu() == old(self).has_vcpu(),
            final(self).written_registers() == old(self).written_registers(),
    {
        let mut i: usize = 0;
        while i < self.regions.len()
            invariant
                *self == *old(self),
                i <= self.regions@.len(),
                forall|k: int| 0 <= k < i ==> (#[trigger] self.regions@[k]).compatible(&region),
                old(self).wf(),
                region.wf(),
            decreases self.regions@.len() - i,
        {
            if !self.regions[i].can_coexist(&region) {
                return Err(VmError::Memory);
            }
            i = i + 1;
        }
        self.regions.push(region);
        proof {
            let rs = self.regions@;
            assert forall|a: int, b: int| 0 <= a < b < rs.len() implies rs[a].compatible(
                &rs[b],
            ) by {
                if b < rs.len() - 1 {
                    assert(old(self).regions()[a] == rs[a] && old(self).regions()[b] == rs[b]);
                }
            }
        }
        Ok(())
    }

    /// Creates the vCPU and sets it up to boot a flat image: code-segment
    /// selector and base, instruction pointer, accumulator and base register
    /// all zero, so the vCPU starts at guest-physical address 0; every other
    /// register keeps the value the vCPU was created with.
    ///
    /// Fails with `Initialization`, changing nothing, where the vCPU exists
    /// already or the host refuses to create it, and with `CpuState` where a
    /// register read or write is refused.
    pub fn setup_cpu(&mut self) -> (r: Result<(), VmError>)
        ensures
            final(self).regions() == old(self).regions(),
            old(self).has_vcpu() ==> r == Err::<(), VmError>(VmError::Initialization)
                && final(self).written_registers() == old(self).written_registers(),
            r is Err ==> r->Err_0 == VmError::Initialization || r->Err_0 == VmError::CpuState,
            r is Err && r->Err_0 == VmError::Initialization ==> final(self).has_vcpu()
                == old(self).has_vcpu(),
            r is Err && r->Err_0 == VmError::CpuState ==> final(self).has_vcpu(),
            r is Ok ==> final(self).has_vcpu() && exists|g: kvm_regs, s: kvm_sregs|
                final(self).written_registers() == Some((flat_boot_regs_of(g), flat_boot_sregs_of(s))),
            r is Ok ==> ({
                let (g, s) = final(self).written_registers()->Some_0;
                g.rip == 0 && g.rax == 0 && g.rbx == 0 && s.cs.selector == 0 && s.cs.base == 0
            }),
    {
        if self.vcpu.is_some() {
            return Err(VmError::Initialization);
        }
        let vcpu = match self.vm.create_vcpu(VCPU_ID) {
            Ok(v) => v,
            Err(_) => return Err(VmError::Initialization),
        };
        let written = initialize_for_flat_boot(&vcpu);
        self.vcpu = Some(vcpu);
        match written {
            Ok(w) => {
                self.written = Ghost(Some(w));
                Ok(())
            },
            Err(e) => Err(e),
        }
    }

    /// Resumes the vCPU once and dispatches on why it stopped, returning the
    /// bytes for the console. Fails with `Execution`, leaving `lp` as it was,
    /// where there is no vCPU or the resume primitive itself fails.
    pub fn step(&mut self, lp: &mut ExecutionLoop) -> (r: Result<Vec<u8>, VmError>)
        requires
            old(lp).state is Running,
        ensures
            final(self).regions() == old(self).regions(),
            final(self).has_vcpu() == old(self).has_vcpu(),
            final(self).written_registers() == old(self).written_registers(),
            !old(self).has_vcpu() ==> r is Err,
            r is Err ==> r->Err_0 == VmError::Execution && *final(lp) == *old(lp),
            r is Ok ==> exists|exit: ExitReason|
                final(lp).state == next_state(exit) && r->Ok_0@ == console_bytes(exit),
    {
        let exit = match &mut self.vcpu {
            Some(v) => resume_vcpu(v),
            None => return Err(VmError::Execution),
        };
        match exit {
            Ok(e) => {
                Ok(lp.record_exit(e))
            },
            Err(_) => Err(VmError::Execution),
        }
    }
}

} // verus!
