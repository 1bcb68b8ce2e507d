use vstd::prelude::*;

use crate::error::VmmError;
use crate::guest_code::code_fits;
use crate::region::{region_valid, GuestMemoryRegion};

verus! {

/// Guest memory size used when none is chosen: 16 MiB.
pub const DEFAULT_MEM_SIZE: u64 = 16 * 1024 * 1024;

/// Guest-physical address of guest memory used when none is chosen.
pub const DEFAULT_GUEST_ADDR: u64 = 0x1000;

/// Slot under which the guest memory is installed.
pub const MEMORY_SLOT: u32 = 0;

/// Index of the single vCPU.
pub const BOOT_VCPU_INDEX: u32 = 0;

/// What the monitor builds: the guest memory's size and guest-physical base,
/// whether the host logs dirty pages, and the guest code with its offset from
/// the start of guest memory, where the vCPU starts executing.
pub struct VmConfig {
    pub mem_size: u64,
    pub guest_addr: u64,
    pub log_dirty_pages: bool,
    pub code_offset: u64,
    pub code: Vec<u8>,
}

/// Initial register values for the vCPU: the instruction pointer and the code
/// segment's base and selector.
#[derive(Clone, Copy, Debug, PartialEq, Eq, Structural)]
pub struct RegisterSetup {
    pub rip: u64,
    pub cs_base: u64,
    pub cs_selector: u16,
}

/// The region that holds the guest memory of `c`.
pub open spec fn config_region(c: VmConfig) -> GuestMemoryRegion {
    GuestMemoryRegion {
        slot: MEMORY_SLOT,
        guest_phys_addr: c.guest_addr,
        size: c.mem_size,
        log_dirty_pages: c.log_dirty_pages,
    }
}

pub open spec fn config_valid(c: VmConfig) -> bool {
    &&& region_valid(config_region(c))
    &&& code_fits(c.mem_size as int, c.code_offset as int, c.code@.len() as int)
}

/// Why `c` is refused: a bad memory region first, then code that does not fit.
pub open spec fn config_error(c: VmConfig) -> VmmError {
    if !region_valid(config_region(c)) {
        VmmError::InvalidMemoryRegion
    } else {
        VmmError::CodeOutOfBounds
    }
}

/// Flat addressing: the code segment has base 0 and selector 0, and the
/// instruction pointer holds the guest-physical address of the code.
pub open spec fn register_setup_of(c: VmConfig) -> RegisterSetup {
    RegisterSetup { rip: (c.guest_addr + c.code_offset) as u64, cs_base: 0, cs_selector: 0 }
}

impl Default for VmConfig {
    /// 16 MiB of guest memory at guest-physical 0x1000 with dirty-page logging,
    /// holding at its start the two bytes of a jump to itself.
    fn default() -> (r: VmConfig)
        ensures
            r.mem_size == DEFAULT_MEM_SIZE,
            r.guest_addr == DEFAULT_GUEST_ADDR,
            r.log_dirty_pages,
            r.code_offset == 0,
            r.code@ == seq![0xebu8, 0xfeu8],
            config_valid(r),
    {
        VmConfig {
            mem_size: DEFAULT_MEM_SIZE,
            guest_addr: DEFAULT_GUEST_ADDR,
            log_dirty_pages: true,
            code_offset: 0,
            code: vec![0xeb, 0xfe],
        }
    }
}

impl VmConfig {
    pub fn region(&self) -> (r: GuestMemoryRegion)
        ensures
            r == config_region(*self),
    {
        GuestMemoryRegion {
            slot: MEMORY_SLOT,
            guest_phys_addr: self.guest_addr,
            size: self.mem_size,
            log_dirty_pages: self.log_dirty_pages,
        }
    }

    /// Accepts a configuration whose memory region is valid and whose code fits
    /// in guest memory at its offset.
    pub fn validate(&self) -> (r: Result<(), VmmError>)
        ensures
            r is Ok <==> config_valid(*self),
            r is Err ==> r == Err::<(), VmmError>(config_error(*self)),
    {
        if !self.region().is_valid() {
            return Err(VmmError::InvalidMemoryRegion);
        }
        if self.code_offset > self.mem_size || (self.code.len() as u64) > self.mem_size
            - self.code_offset {
            return Err(VmmError::CodeOutOfBounds);
        }
        Ok(())
    }

    /// The register values that start the vCPU at the first code byte.
    pub fn register_setup(&self) -> (r: RegisterSetup)
        requires
            config_valid(*self),
        ensures
            r == register_setup_of(*self),
            r.rip == self.guest_addr + self.code_offset,
    {
        RegisterSetup { rip: self.guest_addr + self.code_offset, cs_base: 0, cs_selector: 0 }
    }
}

} // verus!
