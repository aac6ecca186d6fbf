use vstd::prelude::*;

verus! {

/// Why a guest image could not be placed in guest memory.
#[derive(Clone, Copy, Debug, PartialEq, Eq, Structural)]
pub enum ImageLoadError {
    /// The image source is missing or unreadable.
    Unreadable,
    /// The image holds more bytes than the memory region it is loaded into.
    ImageTooLarge,
}

/// The kinds of failure of the monitor, one per stage of a guest's life.
#[derive(Clone, Copy, Debug, PartialEq, Eq, Structural)]
pub enum VmError {
    /// The virtualization facility, the VM context or the vCPU could not be created.
    Initialization,
    /// Guest memory could not be allocated or registered.
    Memory,
    /// A register read or write was rejected.
    CpuState,
    /// The guest image could not be loaded.
    ImageLoad(ImageLoadError),
    /// The resume primitive itself failed.
    Execution,
}

} // verus!
