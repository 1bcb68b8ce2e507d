use vstd::prelude::*;

use crate::config::{config_error, config_region, config_valid, register_setup_of, RegisterSetup, VmConfig, BOOT_VCPU_INDEX};
use crate::dispatch::{dispatch, next_state, step_decision, Decision, ExitEvent, RunState};
use crate::error::VmmError;
use crate::guest_code::{code_fits, load_code, spliced};
use crate::region::{region_admissible, GuestMemoryRegion, RegionTable};

verus! {

/// Number of host steps that initialization takes.
pub const INIT_STEPS: usize = 5;

/// A host operation that the supervisor asks its caller to perform, in the
/// order: open the context, create the VM, allocate the guest's host memory,
/// register it as a region, create the vCPU.
#[derive(Clone, Copy, Debug, PartialEq, Eq, Structural)]
pub enum HostCommand {
    OpenContext,
    CreateVm,
    AllocateMemory { size: u64 },
    RegisterRegion { region: GuestMemoryRegion },
    CreateVcpu { index: u32 },
}

/// The supervisor's state as a mathematical value.
pub struct SupervisorView {
    pub config: VmConfig,
    /// Regions installed in the VM.
    pub regions: Seq<GuestMemoryRegion>,
    /// Initialization steps that succeeded.
    pub steps_done: nat,
    /// The error that stopped initialization, if any.
    pub failure: Option<VmmError>,
    /// Whether the guest's host memory is allocated and not yet released.
    pub memory_held: bool,
    /// Whether registers are set and guest code is loaded.
    pub configured: bool,
    pub torn_down: bool,
    pub run_state: RunState,
}

/// The host operation of initialization step `i` for configuration `c`.
pub open spec fn command_for_step(c: VmConfig, i: nat) -> HostCommand {
    if i == 0 {
        HostCommand::OpenContext
    } else if i == 1 {
        HostCommand::CreateVm
    } else if i == 2 {
        HostCommand::AllocateMemory { size: c.mem_size }
    } else if i == 3 {
        HostCommand::RegisterRegion { region: config_region(c) }
    } else {
        HostCommand::CreateVcpu { index: BOOT_VCPU_INDEX }
    }
}

/// The next host operation of initialization; none once it is complete, has
/// failed, or the supervisor is torn down.
pub open spec fn init_command(v: SupervisorView) -> Option<HostCommand> {
    if v.torn_down || v.failure is Some || v.steps_done >= INIT_STEPS {
        None
    } else {
        Some(command_for_step(v.config, v.steps_done))
    }
}

/// Every initialization step succeeded and nothing is torn down yet.
pub open spec fn is_ready(v: SupervisorView) -> bool {
    v.steps_done == INIT_STEPS && !v.torn_down
}

/// The vCPU may be run: the region is registered, the vCPU exists and is
/// configured, and the run loop has not reached a terminal state.
pub open spec fn may_run(v: SupervisorView) -> bool {
    is_ready(v) && v.configured && v.run_state is Running
}

pub open spec fn initial_view(c: VmConfig) -> SupervisorView {
    SupervisorView {
        config: c,
        regions: Seq::empty(),
        steps_done: 0,
        failure: None,
        memory_held: false,
        configured: false,
        torn_down: false,
        run_state: RunState::Running,
    }
}

/// The state after the current initialization step reported `r`. A success
/// moves to the next step; the allocation step's success takes the memory,
/// the registration step's installs the region. A failure is recorded and
/// stops initialization, keeping what was acquired for teardown to release.
pub open spec fn after_init_result(v: SupervisorView, r: Result<(), VmmError>) -> SupervisorView {
    match r {
        Ok(_) => SupervisorView {
            config: v.config,
            regions: if v.steps_done == 3 {
                v.regions.push(config_region(v.config))
            } else {
                v.regions
            },
            steps_done: v.steps_done + 1,
            failure: v.failure,
            memory_held: v.memory_held || v.steps_done == 2,
            configured: v.configured,
            torn_down: v.torn_down,
            run_state: v.run_state,
        },
        Err(e) => SupervisorView {
            config: v.config,
            regions: v.regions,
            steps_done: v.steps_done,
            failure: Some(e),
            memory_held: v.memory_held,
            configured: v.configured,
            torn_down: v.torn_down,
            run_state: v.run_state,
        },
    }
}

/// Teardown releases the memory and the VM with its regions.
pub open spec fn after_teardown(v: SupervisorView) -> SupervisorView {
    SupervisorView {
        config: v.config,
        regions: Seq::empty(),
        steps_done: v.steps_done,
        failure: v.failure,
        memory_held: false,
        configured: v.configured,
        torn_down: true,
        run_state: v.run_state,
    }
}

pub open spec fn after_configure(v: SupervisorView) -> SupervisorView {
    SupervisorView {
        config: v.config,
        regions: v.regions,
        steps_done: v.steps_done,
        failure: v.failure,
        memory_held: v.memory_held,
        configured: true,
        torn_down: v.torn_down,
        run_state: v.run_state,
    }
}

pub open spec fn after_exit(v: SupervisorView, e: ExitEvent) -> SupervisorView {
    SupervisorView {
        config: v.config,
        regions: v.regions,
        steps_done: v.steps_done,
        failure: v.failure,
        memory_held: v.memory_held,
        configured: v.configured,
        torn_down: v.torn_down,
        run_state: next_state(v.run_state, e),
    }
}

/// What holds of the supervisor in every reachable state: the host memory is
/// held exactly from a successful allocation until teardown; the region is
/// installed exactly from a successful registration until teardown; the vCPU
/// is configured only once initialization is complete, and runs only when
/// configured.
pub open spec fn supervisor_inv(v: SupervisorView) -> bool {
    &&& config_valid(v.config)
    &&& v.steps_done <= INIT_STEPS
    &&& v.memory_held == (v.steps_done >= 3 && !v.torn_down)
    &&& v.regions == (if v.steps_done >= 4 && !v.torn_down {
        Seq::empty().push(config_region(v.config))
    } else {
        Seq::empty()
    })
    &&& v.failure is Some ==> v.steps_done < INIT_STEPS
    &&& v.configured ==> v.steps_done == INIT_STEPS
    &&& !(v.run_state is Running) ==> v.configured
}

/// Owns the lifecycle of one VM with one vCPU and one memory region. The
/// caller performs the host operations; the supervisor decides which comes
/// next, what they are given, and what must be released.
pub struct Supervisor {
    config: VmConfig,
    regions: RegionTable,
    steps_done: usize,
    failure: Option<VmmError>,
    memory_held: bool,
    configured: bool,
    torn_down: bool,
    run_state: RunState,
}

impl View for Supervisor {
    type V = SupervisorView;

    closed spec fn view(&self) -> SupervisorView {
        SupervisorView {
            config: self.config,
            regions: self.regions@,
            steps_done: self.steps_done as nat,
            failure: self.failure,
            memory_held: self.memory_held,
            configured: self.configured,
            torn_down: self.torn_down,
            run_state: self.run_state,
        }
    }
}

impl Supervisor {
    pub closed spec fn wf(&self) -> bool {
        supervisor_inv(self@) && self.regions.wf()
    }

    /// A supervisor for `config`, with nothing acquired yet. Refuses a
    /// configuration whose region is invalid or whose code does not fit.
    pub fn new(config: VmConfig) -> (r: Result<Supervisor, VmmError>)
        ensures
            r is Ok <==> config_valid(config),
            r matches Ok(s) ==> s.wf() && s@ == initial_view(config),
            r matches Err(e) ==> e == config_error(config),
    {
        match config.validate() {
            Ok(()) => Ok(
                Supervisor {
                    config,
                    regions: RegionTable::new(),
                    steps_done: 0,
                    failure: None,
                    memory_held: false,
                    configured: false,
                    torn_down: false,
                    run_state: RunState::Running,
                },
            ),
            Err(e) => Err(e),
        }
    }

    /// The next host operation of initialization, if one is due.
    pub fn next_init_command(&self) -> (r: Option<HostCommand>)
        requires
            self.wf(),
        ensures
            r == init_command(self@),
    {
        if self.torn_down || self.failure.is_some() || self.steps_done >= INIT_STEPS {
            return None;
        }
        let cmd = if self.steps_done == 0 {
            HostCommand::OpenContext
        } else if self.steps_done == 1 {
            HostCommand::CreateVm
        } else if self.steps_done == 2 {
            HostCommand::AllocateMemory { size: self.config.mem_size }
        } else if self.steps_done == 3 {
            HostCommand::RegisterRegion { region: self.config.region() }
        } else {
            HostCommand::CreateVcpu { index: BOOT_VCPU_INDEX }
        };
        Some(cmd)
    }

    /// Records how the host operation last handed out by `next_init_command`
    /// went.
    pub fn record_init_result(&mut self, r: Result<(), VmmError>)
        requires
            old(self).wf(),
            init_command(old(self)@) is Some,
        ensures
            final(self).wf(),
            final(self)@ == after_init_result(old(self)@, r),
    {
        match r {
            Ok(()) => {
                if self.steps_done == 2 {
                    self.memory_held = true;
                }
                if self.steps_done == 3 {
                    let region = self.config.region();
                    assert(region_admissible(self.regions@, region));
                    let reg = self.regions.register(region);
                    assert(reg is Ok);
                }
                self.steps_done = self.steps_done + 1;
            },
            Err(e) => {
                self.failure = Some(e);
            },
        }
    }

    /// The error that stopped initialization, if any.
    pub fn init_failure(&self) -> (r: Option<VmmError>)
        ensures
            r == self@.failure,
    {
        self.failure
    }

    pub fn is_ready(&self) -> (r: bool)
        requires
            self.wf(),
        ensures
            r == is_ready(self@),
    {
        self.steps_done == INIT_STEPS && !self.torn_down
    }

    /// Loads the guest code into `mem`, the guest memory, at its offset, and
    /// returns the registers to set so that the vCPU starts at that code. When
    /// the code does not fit in `mem`, fails with `CodeOutOfBounds` and changes
    /// nothing.
    pub fn configure(&mut self, mem: &mut [u8]) -> (r: Result<RegisterSetup, VmmError>)
        requires
            old(self).wf(),
            is_ready(old(self)@),
        ensures
            final(self).wf(),
            r is Ok <==> code_fits(
                old(mem)@.len() as int,
                old(self)@.config.code_offset as int,
                old(self)@.config.code@.len() as int,
            ),
            r matches Ok(setup) ==> setup == register_setup_of(old(self)@.config) && final(mem)@
                == spliced(
                old(mem)@,
                old(self)@.config.code_offset as int,
                old(self)@.config.code@,
            ) && final(self)@ == after_configure(old(self)@),
            r is Err ==> r == Err::<RegisterSetup, VmmError>(VmmError::CodeOutOfBounds)
                && final(mem)@ == old(mem)@ && final(self)@ == old(self)@,
    {
        if self.config.code_offset > mem.len() as u64 {
            return Err(VmmError::CodeOutOfBounds);
        }
        match load_code(mem, self.config.code_offset as usize, self.config.code.as_slice()) {
            Ok(()) => {
                self.configured = true;
                Ok(self.config.register_setup())
            },
            Err(e) => Err(e),
        }
    }

    /// Whether the caller may run the vCPU now.
    pub fn may_run(&self) -> (r: bool)
        requires
            self.wf(),
        ensures
            r == may_run(self@),
    {
        self.steps_done == INIT_STEPS && !self.torn_down && self.configured && match self.run_state {
            RunState::Running => true,
            _ => false,
        }
    }

    /// Feeds one vCPU exit to the dispatcher and returns what to do next.
    pub fn on_exit(&mut self, e: &ExitEvent) -> (r: Decision)
        requires
            old(self).wf(),
            old(self)@.configured,
        ensures
            final(self).wf(),
            final(self)@ == after_exit(old(self)@, *e),
            r == step_decision(old(self)@.run_state, *e),
    {
        let (next, decision) = dispatch(self.run_state, e);
        self.run_state = next;
        decision
    }

    /// The run loop's state: `Running`, or the terminal state it reached.
    pub fn run_state(&self) -> (r: RunState)
        ensures
            r == self@.run_state,
    {
        self.run_state
    }

    /// Releases what the supervisor holds. Returns whether the caller must
    /// unmap the guest's host memory; a second call finds nothing to release.
    pub fn teardown(&mut self) -> (r: bool)
        requires
            old(self).wf(),
        ensures
            final(self).wf(),
            final(self)@ == after_teardown(old(self)@),
            r == old(self)@.memory_held,
    {
        let release = self.memory_held;
        self.memory_held = false;
        self.torn_down = true;
        self.regions = RegionTable::new();
        release
    }
}

/// Teardown can be repeated: after one teardown a second finds no memory to
/// release and leaves the state as it is.
pub proof fn lemma_teardown_idempotent(v: SupervisorView)
    requires
        supervisor_inv(v),
    ensures
        supervisor_inv(after_teardown(v)),
        !after_teardown(v).memory_held,
        after_teardown(after_teardown(v)) == after_teardown(v),
{
}

/// When the host refuses the registration of the guest memory, initialization
/// stops and the memory allocated the step before is still held, so teardown
/// releases it.
pub proof fn lemma_failed_registration_releases_memory(v: SupervisorView, e: VmmError)
    requires
        supervisor_inv(v),
        init_command(v) == Some(HostCommand::RegisterRegion { region: config_region(v.config) }),
    ensures
        supervisor_inv(after_init_result(v, Err(e))),
        init_command(after_init_result(v, Err(e))) is None,
        after_init_result(v, Err(e)).memory_held,
        after_init_result(v, Err(e)).regions.len() == 0,
{
    assert(v.steps_done == 3);
}

/// A failure at any step before allocation leaves no memory to release.
pub proof fn lemma_early_failure_holds_no_memory(v: SupervisorView, e: VmmError)
    requires
        supervisor_inv(v),
        init_command(v) is Some,
        v.steps_done < 3,
    ensures
        !after_init_result(v, Err(e)).memory_held,
{
}

/// Each initialization step that succeeds keeps the invariant, and the vCPU
/// is created only after the region is registered.
pub proof fn lemma_init_step_preserves(v: SupervisorView, r: Result<(), VmmError>)
    requires
        supervisor_inv(v),
        init_command(v) is Some,
    ensures
        supervisor_inv(after_init_result(v, r)),
        init_command(v) == Some(HostCommand::CreateVcpu { index: BOOT_VCPU_INDEX }) ==> v.regions
            == Seq::empty().push(config_region(v.config)),
{
}

/// The vCPU may run only while the guest memory region is registered with the
/// VM, and while the memory backing it is held.
pub proof fn lemma_run_needs_registered_memory(v: SupervisorView)
    requires
        supervisor_inv(v),
        may_run(v),
    ensures
        v.regions == Seq::empty().push(config_region(v.config)),
        v.memory_held,
{
}

} // verus!
