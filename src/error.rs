use vstd::prelude::*;

verus! {

/// Every way in which an operation of the monitor can fail.
#[derive(Clone, Copy, Debug, PartialEq, Eq, Structural)]
pub enum VmmError {
    /// The host's virtualization capability is missing or refused.
    CapabilityUnavailable,
    /// The host could not allocate the guest's backing memory.
    AllocationFailed,
    /// A memory region is misaligned, empty, overlapping or reuses a slot.
    InvalidMemoryRegion,
    /// The host refused to create another VM or vCPU.
    ResourceExhausted,
    /// The host reported an execution error while running the vCPU.
    VcpuFault,
    /// The vCPU exited for a reason the dispatcher has no policy for.
    UnhandledExit,
    /// Guest code does not fit in the guest memory at the requested offset.
    CodeOutOfBounds,
}

} // verus!
