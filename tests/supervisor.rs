use minivmm::config::{RegisterSetup, VmConfig, DEFAULT_GUEST_ADDR, DEFAULT_MEM_SIZE};
use minivmm::dispatch::{Decision, ExitEvent, RunState};
use minivmm::error::VmmError;
use minivmm::region::GuestMemoryRegion;
use minivmm::supervisor::{HostCommand, Supervisor};

/// A stand-in host that counts live allocations and can refuse one step.
struct FakeHost {
    live_allocations: usize,
    refuse: Option<(usize, VmmError)>,
    performed: Vec<HostCommand>,
}

impl FakeHost {
    fn new(refuse: Option<(usize, VmmError)>) -> Self {
        FakeHost { live_allocations: 0, refuse, performed: Vec::new() }
    }

    fn perform(&mut self, cmd: HostCommand) -> Result<(), VmmError> {
        let step = self.performed.len();
        self.performed.push(cmd);
        if let Some((at, e)) = self.refuse {
            if at == step {
                return Err(e);
            }
        }
        if let HostCommand::AllocateMemory { .. } = cmd {
            self.live_allocations += 1;
        }
        Ok(())
    }

    fn release(&mut self) {
        self.live_allocations -= 1;
    }
}

fn initialize(sup: &mut Supervisor, host: &mut FakeHost) {
    while let Some(cmd) = sup.next_init_command() {
        let r = host.perform(cmd);
        sup.record_init_result(r);
    }
}

fn config_with_code(code: Vec<u8>) -> VmConfig {
    VmConfig { mem_size: 0x4000, guest_addr: 0x1000, log_dirty_pages: true, code_offset: 0, code }
}

#[test]
fn initialization_issues_steps_in_order() {
    let mut sup = Supervisor::new(config_with_code(vec![0xf4])).unwrap();
    let mut host = FakeHost::new(None);
    initialize(&mut sup, &mut host);
    assert!(sup.is_ready());
    assert_eq!(sup.init_failure(), None);
    assert_eq!(
        host.performed,
        vec![
            HostCommand::OpenContext,
            HostCommand::CreateVm,
            HostCommand::AllocateMemory { size: 0x4000 },
            HostCommand::RegisterRegion {
                region: GuestMemoryRegion { slot: 0, guest_phys_addr: 0x1000, size: 0x4000, log_dirty_pages: true }
            },
            HostCommand::CreateVcpu { index: 0 },
        ]
    );
    assert_eq!(sup.next_init_command(), None);
}

#[test]
fn jump_to_self_program_is_placed_at_entry() {
    let config = VmConfig::default();
    assert_eq!(config.mem_size, DEFAULT_MEM_SIZE);
    assert_eq!(config.guest_addr, DEFAULT_GUEST_ADDR);
    let mut sup = Supervisor::new(config).unwrap();
    let mut host = FakeHost::new(None);
    initialize(&mut sup, &mut host);
    let mut mem = vec![0u8; 0x3000];
    let setup = sup.configure(&mut mem).unwrap();
    assert_eq!(setup, RegisterSetup { rip: 0x1000, cs_base: 0, cs_selector: 0 });
    assert_eq!(&mem[..3], &[0xeb, 0xfe, 0]);
    assert!(sup.may_run());
}

#[test]
fn halt_program_halts_after_one_exit() {
    let mut sup = Supervisor::new(config_with_code(vec![0xf4])).unwrap();
    let mut host = FakeHost::new(None);
    initialize(&mut sup, &mut host);
    assert!(!sup.may_run());
    let mut mem = vec![0u8; 0x4000];
    sup.configure(&mut mem).unwrap();
    assert_eq!(mem[0], 0xf4);
    assert!(sup.may_run());
    assert_eq!(sup.on_exit(&ExitEvent::Halt), Decision::Halt);
    assert_eq!(sup.run_state(), RunState::Halted);
    assert!(!sup.may_run());
}

#[test]
fn io_then_halt_through_supervisor() {
    let mut sup = Supervisor::new(config_with_code(vec![0xf4])).unwrap();
    let mut host = FakeHost::new(None);
    initialize(&mut sup, &mut host);
    let mut mem = vec![0u8; 0x4000];
    sup.configure(&mut mem).unwrap();
    sup.on_exit(&ExitEvent::IoOut { port: 0x3f8, bytes: vec![1, 2, 3] });
    assert_eq!(sup.run_state(), RunState::Running);
    sup.on_exit(&ExitEvent::IoIn { port: 0x3f8, width: 1 });
    assert_eq!(sup.run_state(), RunState::Running);
    sup.on_exit(&ExitEvent::Halt);
    assert_eq!(sup.run_state(), RunState::Halted);
}

#[test]
fn fault_aborts_the_run() {
    let mut sup = Supervisor::new(config_with_code(vec![0xf4])).unwrap();
    let mut host = FakeHost::new(None);
    initialize(&mut sup, &mut host);
    let mut mem = vec![0u8; 0x4000];
    sup.configure(&mut mem).unwrap();
    assert_eq!(sup.on_exit(&ExitEvent::Error { cause: 4 }), Decision::Abort(VmmError::VcpuFault));
    assert_eq!(sup.run_state(), RunState::Aborted(VmmError::VcpuFault));
    assert!(!sup.may_run());
}

#[test]
fn configure_refuses_code_past_memory_end() {
    let config = VmConfig { mem_size: 0x1000, guest_addr: 0x1000, log_dirty_pages: false, code_offset: 0xfff, code: vec![0xeb, 0xfe] };
    assert_eq!(Supervisor::new(config).err(), Some(VmmError::CodeOutOfBounds));
    let mut sup = Supervisor::new(config_with_code(vec![0xeb, 0xfe])).unwrap();
    let mut host = FakeHost::new(None);
    initialize(&mut sup, &mut host);
    let mut mem = vec![9u8; 1];
    assert_eq!(sup.configure(&mut mem), Err(VmmError::CodeOutOfBounds));
    assert_eq!(mem, vec![9]);
    assert!(!sup.may_run());
}

#[test]
fn invalid_region_config_is_refused() {
    let mut config = config_with_code(vec![0xf4]);
    config.mem_size = 0;
    assert_eq!(Supervisor::new(config).err(), Some(VmmError::InvalidMemoryRegion));
    let mut config = config_with_code(vec![0xf4]);
    config.guest_addr = 0x1234;
    assert_eq!(Supervisor::new(config).err(), Some(VmmError::InvalidMemoryRegion));
}

#[test]
fn teardown_twice_is_safe() {
    let mut sup = Supervisor::new(config_with_code(vec![0xf4])).unwrap();
    let mut host = FakeHost::new(None);
    initialize(&mut sup, &mut host);
    if sup.teardown() {
        host.release();
    }
    assert_eq!(host.live_allocations, 0);
    assert!(!sup.teardown());
    assert_eq!(host.live_allocations, 0);
    assert!(!sup.is_ready());
    assert_eq!(sup.next_init_command(), None);
}

#[test]
fn failed_registration_releases_memory() {
    let mut sup = Supervisor::new(config_with_code(vec![0xf4])).unwrap();
    let mut host = FakeHost::new(Some((3, VmmError::InvalidMemoryRegion)));
    initialize(&mut sup, &mut host);
    assert_eq!(sup.init_failure(), Some(VmmError::InvalidMemoryRegion));
    assert_eq!(host.performed.len(), 4);
    assert_eq!(host.live_allocations, 1);
    assert!(sup.teardown());
    host.release();
    assert_eq!(host.live_allocations, 0);
    assert!(!sup.teardown());
}

#[test]
fn failed_allocation_stops_before_registration() {
    let mut sup = Supervisor::new(config_with_code(vec![0xf4])).unwrap();
    let mut host = FakeHost::new(Some((2, VmmError::AllocationFailed)));
    initialize(&mut sup, &mut host);
    assert_eq!(sup.init_failure(), Some(VmmError::AllocationFailed));
    assert_eq!(host.performed.len(), 3);
    assert!(!sup.teardown());
    assert_eq!(host.live_allocations, 0);
}

#[test]
fn failed_context_open_acquires_nothing() {
    let mut sup = Supervisor::new(config_with_code(vec![0xf4])).unwrap();
    let mut host = FakeHost::new(Some((0, VmmError::CapabilityUnavailable)));
    initialize(&mut sup, &mut host);
    assert_eq!(sup.init_failure(), Some(VmmError::CapabilityUnavailable));
    assert_eq!(host.performed, vec![HostCommand::OpenContext]);
    assert!(!sup.teardown());
}

#[test]
fn failed_vcpu_creation_releases_memory() {
    let mut sup = Supervisor::new(config_with_code(vec![0xf4])).unwrap();
    let mut host = FakeHost::new(Some((4, VmmError::ResourceExhausted)));
    initialize(&mut sup, &mut host);
    assert_eq!(sup.init_failure(), Some(VmmError::ResourceExhausted));
    assert!(!sup.is_ready());
    assert!(sup.teardown());
}
