//! The machine lifecycle: the global VM state machine, the per-vCPU states it
//! drives, and the queries the control channel answers from them.

use vstd::prelude::*;

use crate::boot::{
    boot_data_written, mem_end_of, ramdisk_spec, BootError, X86BootLayout, X86BootLoaderConfig,
};
use crate::cpu::{boot_config_spec, CPUBootConfig};
use crate::kernel::{
    kernel_layout_spec, kernel_loads, lemma_loaded_keeps_size, load_kernel, loaded, phnum,
};
use crate::memory::GuestMemory;
use crate::layout::{arch_ram_ranges, ram_ranges_spec, HIGH_MEMORY_START};
use crate::schema::{
    qom_path, qom_path_spec, CpuInfo, CpuInstanceProperties, HotpluggableCpu, RunState,
    StatusInfo,
};

verus! {

/// State of the whole machine.
#[derive(Clone, Copy, Debug, PartialEq, Eq, Structural)]
pub enum KvmVmState {
    Created,
    Running,
    Paused,
    Shutdown,
}

/// State of one vCPU.
#[derive(Clone, Copy, Debug, PartialEq, Eq, Structural)]
pub enum CpuLifecycleState {
    /// Created, registers not yet written.
    Created,
    /// Registers written from the boot layout; waiting to be started.
    Ready,
    Running,
    Paused,
    Destroyed,
}

/// Why a machine could not be built or driven.
#[derive(Clone, Copy, Debug, PartialEq, Eq, Structural)]
pub enum MachineError {
    /// A machine needs at least one vCPU.
    InvalidCpuCount,
    /// The memory does not reach the start of high memory.
    InvalidMemorySize,
    /// The operation does not apply in the machine's current state.
    InvalidState,
    /// The kernel and boot data could not be loaded.
    Boot(BootError),
}

/// The transitions of the machine state machine that a request may ask for.
pub open spec fn legal(from: KvmVmState, to: KvmVmState) -> bool {
    ||| from == KvmVmState::Created && to == KvmVmState::Running
    ||| from == KvmVmState::Running && to == KvmVmState::Paused
    ||| from == KvmVmState::Paused && to == KvmVmState::Running
    ||| from != KvmVmState::Shutdown && to == KvmVmState::Shutdown
}

/// One step of the machine state machine, staying put included; starting
/// paused is the one edge that only booting takes.
pub open spec fn valid_step(from: KvmVmState, to: KvmVmState) -> bool {
    from == to || legal(from, to) || (from == KvmVmState::Created && to == KvmVmState::Paused)
}

/// The state of every vCPU while the machine is in `s`, past `Created`.
pub open spec fn cpu_state_of(s: KvmVmState) -> CpuLifecycleState {
    match s {
        KvmVmState::Running => CpuLifecycleState::Running,
        KvmVmState::Paused => CpuLifecycleState::Paused,
        KvmVmState::Shutdown => CpuLifecycleState::Destroyed,
        KvmVmState::Created => CpuLifecycleState::Created,
    }
}

/// `n` vCPUs, all in state `c`.
pub open spec fn all_cpus(n: nat, c: CpuLifecycleState) -> Seq<CpuLifecycleState> {
    Seq::new(n, |i: int| c)
}

/// Every vCPU of `cpus` is realized.
pub open spec fn all_ready(cpus: Seq<CpuLifecycleState>) -> bool {
    forall|i: int| 0 <= i < cpus.len() ==> cpus[i] == CpuLifecycleState::Ready
}

/// Whether a request to go from `from` to `to` is carried out on a machine in
/// state `s` whose vCPUs are `cpus`.
pub open spec fn accepted(
    s: KvmVmState,
    cpus: Seq<CpuLifecycleState>,
    from: KvmVmState,
    to: KvmVmState,
) -> bool {
    &&& s == from
    &&& legal(from, to)
    &&& (from == KvmVmState::Created && to == KvmVmState::Running ==> all_ready(cpus))
}

/// The machine state and vCPU states after a request to go from `from` to `to`.
pub open spec fn transition(
    s: KvmVmState,
    cpus: Seq<CpuLifecycleState>,
    from: KvmVmState,
    to: KvmVmState,
) -> (KvmVmState, Seq<CpuLifecycleState>) {
    if accepted(s, cpus, from, to) {
        (to, all_cpus(cpus.len(), cpu_state_of(to)))
    } else {
        (s, cpus)
    }
}

/// Pausing a running machine and then resuming it gives back the machine
/// state and every vCPU state it started from.
pub proof fn lemma_pause_then_resume(m: LightMachine)
    requires
        m.wf(),
        m.state() == KvmVmState::Running,
    ensures
        ({
            let p = transition(m.state(), m.cpu_states(), KvmVmState::Running, KvmVmState::Paused);
            transition(p.0, p.1, KvmVmState::Paused, KvmVmState::Running) == (
                m.state(),
                m.cpu_states(),
            )
        }),
{
    let p = transition(m.state(), m.cpu_states(), KvmVmState::Running, KvmVmState::Paused);
    assert(transition(p.0, p.1, KvmVmState::Paused, KvmVmState::Running).1 =~= m.cpu_states());
}

/// Resuming a paused machine and then pausing it gives back the machine
/// state and every vCPU state it started from.
pub proof fn lemma_resume_then_pause(m: LightMachine)
    requires
        m.wf(),
        m.state() == KvmVmState::Paused,
    ensures
        ({
            let p = transition(m.state(), m.cpu_states(), KvmVmState::Paused, KvmVmState::Running);
            transition(p.0, p.1, KvmVmState::Running, KvmVmState::Paused) == (
                m.state(),
                m.cpu_states(),
            )
        }),
{
    let p = transition(m.state(), m.cpu_states(), KvmVmState::Paused, KvmVmState::Running);
    assert(transition(p.0, p.1, KvmVmState::Running, KvmVmState::Paused).1 =~= m.cpu_states());
}

/// Along any sequence of machine states in which each follows from the one
/// before by a step of the state machine, nothing follows `Shutdown` but
/// `Shutdown`, and `Created` is never entered again.
pub proof fn lemma_lifecycle_path(states: Seq<KvmVmState>)
    requires
        forall|i: int| 0 < i < states.len() ==> valid_step(#[trigger] states[i - 1], states[i]),
    ensures
        forall|i: int, j: int|
            #![trigger states[i], states[j]]
            0 <= i <= j < states.len() && states[i] == KvmVmState::Shutdown ==> states[j]
                == KvmVmState::Shutdown,
        forall|i: int, j: int|
            #![trigger states[i], states[j]]
            0 <= i <= j < states.len() && states[i] != KvmVmState::Created ==> states[j]
                != KvmVmState::Created,
    decreases states.len(),
{
    if states.len() > 0 {
        let init = states.drop_last();
        lemma_lifecycle_path(init);
        let n = states.len() - 1;
        assert(forall|i: int| 0 <= i < n ==> init[i] == states[i]);
        assert forall|i: int, j: int|
            #![trigger states[i], states[j]]
            0 <= i <= j < states.len() && states[i] == KvmVmState::Shutdown implies states[j]
                == KvmVmState::Shutdown by {
            if j == n && i < j {
                assert(init[i] == states[i]);
                assert(init[n - 1] == states[n - 1]);
                assert(valid_step(states[n - 1], states[n]));
            }
        }
        assert forall|i: int, j: int|
            #![trigger states[i], states[j]]
            0 <= i <= j < states.len() && states[i] != KvmVmState::Created implies states[j]
                != KvmVmState::Created by {
            if j == n && i < j {
                assert(init[i] == states[i]);
                assert(init[n - 1] == states[n - 1]);
                assert(valid_step(states[n - 1], states[n]));
            }
        }
    }
}

/// The slots among the first `n` of `mask` whose presence bit is set, in order.
pub open spec fn online_slots(mask: Seq<u8>, n: nat) -> Seq<int>
    decreases n,
{
    if n == 0 {
        Seq::empty()
    } else {
        let p = online_slots(mask, (n - 1) as nat);
        if mask[n - 1] == 1 {
            p.push(n - 1)
        } else {
            p
        }
    }
}

/// What `query-status` reports in state `s`.
pub open spec fn status_spec(s: KvmVmState) -> StatusInfo {
    match s {
        KvmVmState::Running => StatusInfo {
            singlestep: false,
            running: true,
            status: RunState::Running,
        },
        KvmVmState::Paused => StatusInfo { singlestep: false, running: true, status: RunState::Paused },
        _ => StatusInfo { singlestep: false, running: false, status: RunState::Created },
    }
}

/// The topology properties of slot `i`.
pub open spec fn props_spec(cores: u8, threads: u8, i: u8) -> CpuInstanceProperties {
    let t = topo_spec(cores, threads, i);
    CpuInstanceProperties {
        node_id: None,
        socket_id: Some(t.0 as isize),
        core_id: Some(t.1 as isize),
        thread_id: Some(t.2 as isize),
    }
}

/// The vCPU type reported for each slot.
pub open spec fn cpu_type_spec() -> Seq<char> {
    "host-x86-cpu"@
}

/// `r` is what `query-cpus` reports on `m`: one entry per online slot, by slot.
pub open spec fn cpus_report(m: LightMachine, r: Seq<CpuInfo>) -> bool {
    let slots = online_slots(m.topology().mask(), m.topology().max_cpus as nat);
    &&& r.len() == slots.len()
    &&& forall|k: int|
        0 <= k < r.len() ==> {
            let i = slots[k];
            &&& (#[trigger] r[k]).cpu == i
            &&& r[k].current
            &&& !r[k].halted
            &&& r[k].qom_path@ == qom_path_spec(i as u8)
            &&& r[k].props == Some(props_spec(m.topology().cores, m.topology().threads, i as u8))
            &&& r[k].thread_id == m.tids()[i] as isize
        }
}

/// `r` is what `query-hotpluggable-cpus` reports on `m`: one entry per slot.
pub open spec fn hotpluggable_report(m: LightMachine, r: Seq<HotpluggableCpu>) -> bool {
    &&& r.len() == m.topology().max_cpus
    &&& forall|i: int|
        0 <= i < r.len() ==> {
            &&& (#[trigger] r[i]).type_@ == cpu_type_spec()
            &&& r[i].vcpus_count == 1
            &&& r[i].props == props_spec(m.topology().cores, m.topology().threads, i as u8)
            &&& (m.topology().mask()[i] == 1 ==> (r[i].qom_path matches Some(p) && p@
                == qom_path_spec(i as u8)))
            &&& (m.topology().mask()[i] != 1 ==> r[i].qom_path is None)
        }
}

/// What a machine is built from.
#[derive(Clone, Copy, Debug, PartialEq, Eq, Structural)]
pub struct MachineConfig {
    pub nr_cpus: u8,
    pub mem_size: u64,
}

/// The vCPU topology: `sockets * cores * threads` slots, each online or not.
pub struct CpuTopology {
    pub sockets: u8,
    pub cores: u8,
    pub threads: u8,
    pub nrcpus: u8,
    pub max_cpus: u8,
    pub online_mask: Vec<u8>,
}

impl CpuTopology {
    /// One byte per slot: 1 where the vCPU is online.
    pub open spec fn mask(&self) -> Seq<u8> {
        self.online_mask@
    }

    pub open spec fn wf(&self) -> bool {
        &&& self.mask().len() == self.max_cpus
        &&& self.cores >= 1
        &&& self.threads >= 1
    }

    /// Whether slot `i` is online (1) or not (0).
    pub fn get_mask(&self, i: usize) -> (r: u8)
        requires
            i < self.mask().len(),
        ensures
            r == self.mask()[i as int],
    {
        self.online_mask[i]
    }

    /// The socket, core and thread of slot `i`.
    pub fn get_topo(&self, i: u8) -> (r: (u8, u8, u8))
        requires
            self.wf(),
        ensures
            r == topo_spec(self.cores, self.threads, i),
    {
        let c = self.cores as u32;
        let t = self.threads as u32;
        proof {
            assert(1 <= c * t <= 255 * 255) by (nonlinear_arith)
                requires
                    1 <= c <= 255,
                    1 <= t <= 255,
            ;
        }
        let per_socket = c * t;
        let socket = (i as u32 / per_socket) as u8;
        let core = ((i / self.threads) % self.cores) as u8;
        let thread = i % self.threads;
        (socket, core, thread)
    }
}

/// Socket, core and thread of slot `i` with `cores` cores of `threads` threads per socket.
pub open spec fn topo_spec(cores: u8, threads: u8, i: u8) -> (u8, u8, u8) {
    (
        (i as int / (cores as int * threads as int)) as u8,
        ((i as int / threads as int) % cores as int) as u8,
        (i as int % threads as int) as u8,
    )
}

/// A micro VM's lifecycle: its state, its vCPUs and their topology, its RAM
/// layout and how often its power button was pressed.
pub struct LightMachine {
    cpu_topo: CpuTopology,
    cpus: Vec<CpuLifecycleState>,
    thread_ids: Vec<u64>,
    vm_state: KvmVmState,
    ram_ranges: Vec<(u64, u64)>,
    power_button: bool,
}

impl LightMachine {
    pub closed spec fn state(&self) -> KvmVmState {
        self.vm_state
    }

    pub closed spec fn cpu_states(&self) -> Seq<CpuLifecycleState> {
        self.cpus@
    }

    /// OS thread id of each vCPU, 0 until its thread reports it.
    pub closed spec fn tids(&self) -> Seq<u64> {
        self.thread_ids@
    }

    pub closed spec fn topology(&self) -> &CpuTopology {
        &self.cpu_topo
    }

    /// The RAM ranges `(base, size)` of the guest.
    pub closed spec fn ram(&self) -> Seq<(u64, u64)> {
        self.ram_ranges@
    }

    /// Whether the power button was pressed: shutting down presses it.
    pub closed spec fn power_pressed(&self) -> bool {
        self.power_button
    }

    pub open spec fn wf(&self) -> bool {
        &&& self.topology().wf()
        &&& self.topology().max_cpus >= 1
        &&& self.cpu_states().len() == self.topology().max_cpus
        &&& self.tids().len() == self.topology().max_cpus
        &&& (self.state() == KvmVmState::Created ==> forall|i: int|
            0 <= i < self.cpu_states().len() ==> #[trigger] self.cpu_states()[i]
                == CpuLifecycleState::Created || self.cpu_states()[i]
                == CpuLifecycleState::Ready)
        &&& (self.state() != KvmVmState::Created ==> self.cpu_states() == all_cpus(
            self.cpu_states().len(),
            cpu_state_of(self.state()),
        ))
    }

    /// Builds a machine in state `Created` with `config.nr_cpus` vCPUs, one per
    /// socket, all online, and the RAM layout of `config.mem_size` bytes.
    pub fn new(config: MachineConfig) -> (r: Result<LightMachine, MachineError>)
        ensures
            r == Err::<LightMachine, MachineError>(MachineError::InvalidCpuCount) <==> config.nr_cpus
                == 0,
            r == Err::<LightMachine, MachineError>(MachineError::InvalidMemorySize) <==> config.nr_cpus
                > 0 && config.mem_size < HIGH_MEMORY_START,
            r is Ok <==> config.nr_cpus > 0 && config.mem_size >= HIGH_MEMORY_START,
            r matches Ok(m) ==> {
                &&& m.wf()
                &&& m.state() == KvmVmState::Created
                &&& m.cpu_states() == all_cpus(
                    config.nr_cpus as nat,
                    CpuLifecycleState::Created,
                )
                &&& m.tids() == Seq::new(config.nr_cpus as nat, |i: int| 0u64)
                &&& m.topology().sockets == config.nr_cpus
                &&& m.topology().cores == 1
                &&& m.topology().threads == 1
                &&& m.topology().nrcpus == config.nr_cpus
                &&& m.topology().max_cpus == config.nr_cpus
                &&& m.topology().mask() == Seq::new(config.nr_cpus as nat, |i: int| 1u8)
                &&& m.ram() == ram_ranges_spec(config.mem_size)
                &&& !m.power_pressed()
            },
    {
        if config.nr_cpus == 0 {
            return Err(MachineError::InvalidCpuCount);
        }
        if config.mem_size < HIGH_MEMORY_START {
            return Err(MachineError::InvalidMemorySize);
        }
        let n = config.nr_cpus;
        let mut mask: Vec<u8> = Vec::new();
        let mut cpus: Vec<CpuLifecycleState> = Vec::new();
        let mut tids: Vec<u64> = Vec::new();
        let mut i: u8 = 0;
        while i < n
            invariant
                0 <= i <= n,
                mask@ == Seq::new(i as nat, |k: int| 1u8),
                cpus@ == all_cpus(i as nat, CpuLifecycleState::Created),
                tids@ == Seq::new(i as nat, |k: int| 0u64),
            decreases n - i,
        {
            mask.push(1);
            cpus.push(CpuLifecycleState::Created);
            tids.push(0);
            i = i + 1;
            proof {
                assert(mask@ =~= Seq::new(i as nat, |k: int| 1u8));
                assert(cpus@ =~= all_cpus(i as nat, CpuLifecycleState::Created));
                assert(tids@ =~= Seq::new(i as nat, |k: int| 0u64));
            }
        }
        let cpu_topo = CpuTopology {
            sockets: n,
            cores: 1,
            threads: 1,
            nrcpus: n,
            max_cpus: n,
            online_mask: mask,
        };
        Ok(LightMachine {
            cpu_topo,
            cpus,
            thread_ids: tids,
            vm_state: KvmVmState::Created,
            ram_ranges: arch_ram_ranges(config.mem_size),
            power_button: false,
        })
    }
    /// Sets every vCPU to `c`.
    fn set_all_cpus(&mut self, c: CpuLifecycleState)
        ensures
            final(self).cpus@ == all_cpus(old(self).cpus@.len(), c),
            final(self).vm_state == old(self).vm_state,
            final(self).cpu_topo == old(self).cpu_topo,
            final(self).thread_ids == old(self).thread_ids,
            final(self).ram_ranges == old(self).ram_ranges,
            final(self).power_button == old(self).power_button,
    {
        let n = self.cpus.len();
        let mut i: usize = 0;
        while i < n
            invariant
                0 <= i <= n,
                n == self.cpus@.len(),
                n == old(self).cpus@.len(),
                forall|k: int| 0 <= k < i ==> self.cpus@[k] == c,
                self.vm_state == old(self).vm_state,
                self.cpu_topo == old(self).cpu_topo,
                self.thread_ids == old(self).thread_ids,
                self.ram_ranges == old(self).ram_ranges,
                self.power_button == old(self).power_button,
            decreases n - i,
        {
            self.cpus.set(i, c);
            i = i + 1;
        }
        proof {
            assert(self.cpus@ =~= all_cpus(n as nat, c));
        }
    }

    /// Whether every vCPU is in state `c`.
    fn all_cpus_in(&self, c: CpuLifecycleState) -> (r: bool)
        ensures
            r == (forall|i: int| 0 <= i < self.cpus@.len() ==> self.cpus@[i] == c),
    {
        let mut i: usize = 0;
        while i < self.cpus.len()
            invariant
                0 <= i <= self.cpus@.len(),
                forall|k: int| 0 <= k < i ==> self.cpus@[k] == c,
            decreases self.cpus@.len() - i,
        {
            if self.cpus[i] != c {
                return false;
            }
            i = i + 1;
        }
        true
    }

    /// Realizes the machine: loads the ELF64 kernel `kernel` and the boot data
    /// of `config` into `mem`, and moves every vCPU from `Created` to
    /// `Ready`. Returns the boot layout and the configuration each vCPU's
    /// registers are written from (see `cpu::boot_regs` and
    /// `cpu::boot_sregs`). Refused, with nothing written, unless the machine
    /// and all its vCPUs are still `Created`; a boot image that cannot be
    /// loaded fails with its boot error and leaves the vCPUs as they were.
    pub fn realize(
        &mut self,
        kernel: &[u8],
        config: &X86BootLoaderConfig,
        mem: &mut GuestMemory,
    ) -> (r: Result<(X86BootLayout, CPUBootConfig), MachineError>)
        requires
            old(self).wf(),
            old(mem).wf(),
        ensures
            final(self).wf(),
            final(mem).wf(),
            ({
                let ready = old(self).state() == KvmVmState::Created && old(self).cpu_states()
                    == all_cpus(old(self).cpu_states().len(), CpuLifecycleState::Created);
                let rs = old(mem).regions();
                &&& (r == Err::<(X86BootLayout, CPUBootConfig), MachineError>(
                    MachineError::InvalidState,
                ) <==> !ready)
                &&& (r is Ok <==> ready && kernel_loads(kernel@, config, rs))
                &&& (!ready ==> final(mem).regions() == rs)
                &&& (r matches Err(e) ==> e == MachineError::InvalidState || e matches MachineError::Boot(_))
                &&& (r matches Ok(p) ==> p.0.initrd_start == ramdisk_spec(
                    config.initrd_size,
                    mem_end_of(rs) as u64,
                ).0 as u64)
                &&& (r matches Ok(p) ==> p.0 == kernel_layout_spec(kernel@, config, rs) && p.1
                    == boot_config_spec(p.0) && final(mem).regions() == boot_data_written(
                    config,
                    loaded(rs, kernel@, phnum(kernel@)),
                ))
            }),
            r is Ok ==> final(self).cpu_states() == all_cpus(
                old(self).cpu_states().len(),
                CpuLifecycleState::Ready,
            ),
            r is Err ==> *final(self) == *old(self),
            final(self).state() == old(self).state(),
            final(self).topology() == old(self).topology(),
            final(self).tids() == old(self).tids(),
            final(self).ram() == old(self).ram(),
            final(self).power_pressed() == old(self).power_pressed(),
    {
        let created = self.all_cpus_in(CpuLifecycleState::Created);
        proof {
            if created {
                assert(self.cpus@ =~= all_cpus(self.cpus@.len(), CpuLifecycleState::Created));
            } else if self.cpus@ == all_cpus(self.cpus@.len(), CpuLifecycleState::Created) {
                assert(forall|i: int| 0 <= i < self.cpus@.len() ==> self.cpus@[i] == CpuLifecycleState::Created);
            }
        }
        if self.vm_state != KvmVmState::Created || !created {
            return Err(MachineError::InvalidState);
        }
        proof {
            lemma_loaded_keeps_size(mem.regions(), kernel@, phnum(kernel@));
        }
        let layout = match load_kernel(kernel, config, mem) {
            Ok(l) => l,
            Err(e) => {
                return Err(MachineError::Boot(e));
            },
        };
        let boot_config = CPUBootConfig::from_layout(&layout);
        self.set_all_cpus(CpuLifecycleState::Ready);
        Ok((layout, boot_config))
    }

    /// Starts every vCPU, paused or running, and moves the machine there.
    /// Refused unless the machine is `Created` with all vCPUs realized.
    pub fn vm_start(&mut self, paused: bool) -> (r: Result<(), MachineError>)
        requires
            old(self).wf(),
        ensures
            final(self).wf(),
            r is Ok <==> old(self).state() == KvmVmState::Created && all_ready(
                old(self).cpu_states(),
            ),
            r is Ok ==> final(self).state() == (if paused {
                KvmVmState::Paused
            } else {
                KvmVmState::Running
            }) && final(self).cpu_states() == all_cpus(
                old(self).cpu_states().len(),
                cpu_state_of(final(self).state()),
            ),
            r is Err ==> r == Err::<(), MachineError>(MachineError::InvalidState) && *final(self)
                == *old(self),
            valid_step(old(self).state(), final(self).state()),
            final(self).topology() == old(self).topology(),
            final(self).tids() == old(self).tids(),
            final(self).ram() == old(self).ram(),
            final(self).power_pressed() == old(self).power_pressed(),
    {
        if self.vm_state != KvmVmState::Created || !self.all_cpus_in(CpuLifecycleState::Ready) {
            return Err(MachineError::InvalidState);
        }
        if paused {
            self.set_all_cpus(CpuLifecycleState::Paused);
            self.vm_state = KvmVmState::Paused;
        } else {
            self.set_all_cpus(CpuLifecycleState::Running);
            self.vm_state = KvmVmState::Running;
        }
        Ok(())
    }

    /// Pauses every vCPU and marks the machine `Paused`.
    fn vm_pause(&mut self)
        requires
            old(self).wf(),
            old(self).state() == KvmVmState::Running,
        ensures
            final(self).wf(),
            final(self).state() == KvmVmState::Paused,
            final(self).cpu_states() == all_cpus(
                old(self).cpu_states().len(),
                CpuLifecycleState::Paused,
            ),
            final(self).topology() == old(self).topology(),
            final(self).tids() == old(self).tids(),
            final(self).ram() == old(self).ram(),
            final(self).power_pressed() == old(self).power_pressed(),
    {
        self.set_all_cpus(CpuLifecycleState::Paused);
        self.vm_state = KvmVmState::Paused;
    }

    /// Resumes every vCPU and marks the machine `Running`.
    fn vm_resume(&mut self)
        requires
            old(self).wf(),
            old(self).state() == KvmVmState::Paused,
        ensures
            final(self).wf(),
            final(self).state() == KvmVmState::Running,
            final(self).cpu_states() == all_cpus(
                old(self).cpu_states().len(),
                CpuLifecycleState::Running,
            ),
            final(self).topology() == old(self).topology(),
            final(self).tids() == old(self).tids(),
            final(self).ram() == old(self).ram(),
            final(self).power_pressed() == old(self).power_pressed(),
    {
        self.set_all_cpus(CpuLifecycleState::Running);
        self.vm_state = KvmVmState::Running;
    }

    /// Marks the machine `Shutdown` and destroys every vCPU.
    fn vm_destroy(&mut self)
        requires
            old(self).wf(),
        ensures
            final(self).wf(),
            final(self).state() == KvmVmState::Shutdown,
            final(self).cpu_states() == all_cpus(
                old(self).cpu_states().len(),
                CpuLifecycleState::Destroyed,
            ),
            final(self).topology() == old(self).topology(),
            final(self).tids() == old(self).tids(),
            final(self).ram() == old(self).ram(),
            final(self).power_pressed() == old(self).power_pressed(),
    {
        self.vm_state = KvmVmState::Shutdown;
        self.set_all_cpus(CpuLifecycleState::Destroyed);
    }

    /// Carries out a request to go from `from` to `to`: refused unless the
    /// machine is in `from` and the edge is legal; shutting down presses the
    /// power button.
    pub fn notify_lifecycle(&mut self, from: KvmVmState, to: KvmVmState) -> (r: bool)
        requires
            old(self).wf(),
        ensures
            final(self).wf(),
            r == accepted(old(self).state(), old(self).cpu_states(), from, to),
            (final(self).state(), final(self).cpu_states()) == transition(
                old(self).state(),
                old(self).cpu_states(),
                from,
                to,
            ),
            valid_step(old(self).state(), final(self).state()),
            final(self).power_pressed() == (old(self).power_pressed() || (r && to
                == KvmVmState::Shutdown)),
            final(self).topology() == old(self).topology(),
            final(self).tids() == old(self).tids(),
            final(self).ram() == old(self).ram(),
    {
        if self.vm_state != from {
            return false;
        }
        match (from, to) {
            (KvmVmState::Created, KvmVmState::Running) => {
                // a start that fails leaves the state as it was; the recheck refuses it
                let _ = self.vm_start(false);
            },
            (KvmVmState::Running, KvmVmState::Paused) => {
                self.vm_pause();
            },
            (KvmVmState::Paused, KvmVmState::Running) => {
                self.vm_resume();
            },
            (KvmVmState::Created, KvmVmState::Shutdown)
            | (KvmVmState::Running, KvmVmState::Shutdown)
            | (KvmVmState::Paused, KvmVmState::Shutdown) => {
                self.vm_destroy();
                self.power_button = true;
            },
            _ => {
                return false;
            },
        }
        self.vm_state == to
    }

    /// Pauses a running machine; `false` where it is not running.
    pub fn pause(&mut self) -> (r: bool)
        requires
            old(self).wf(),
        ensures
            final(self).wf(),
            r == (old(self).state() == KvmVmState::Running),
            (final(self).state(), final(self).cpu_states()) == transition(
                old(self).state(),
                old(self).cpu_states(),
                KvmVmState::Running,
                KvmVmState::Paused,
            ),
            valid_step(old(self).state(), final(self).state()),
            final(self).power_pressed() == old(self).power_pressed(),
            final(self).topology() == old(self).topology(),
            final(self).tids() == old(self).tids(),
            final(self).ram() == old(self).ram(),
    {
        self.notify_lifecycle(KvmVmState::Running, KvmVmState::Paused)
    }

    /// Resumes a paused machine; `false` where it is not paused.
    pub fn resume(&mut self) -> (r: bool)
        requires
            old(self).wf(),
        ensures
            final(self).wf(),
            r == (old(self).state() == KvmVmState::Paused),
            (final(self).state(), final(self).cpu_states()) == transition(
                old(self).state(),
                old(self).cpu_states(),
                KvmVmState::Paused,
                KvmVmState::Running,
            ),
            valid_step(old(self).state(), final(self).state()),
            final(self).power_pressed() == old(self).power_pressed(),
            final(self).topology() == old(self).topology(),
            final(self).tids() == old(self).tids(),
            final(self).ram() == old(self).ram(),
    {
        self.notify_lifecycle(KvmVmState::Paused, KvmVmState::Running)
    }

    /// Shuts the machine down from any state but `Shutdown`.
    pub fn destroy(&mut self) -> (r: bool)
        requires
            old(self).wf(),
        ensures
            final(self).wf(),
            r == (old(self).state() != KvmVmState::Shutdown),
            (final(self).state(), final(self).cpu_states()) == transition(
                old(self).state(),
                old(self).cpu_states(),
                old(self).state(),
                KvmVmState::Shutdown,
            ),
            valid_step(old(self).state(), final(self).state()),
            final(self).power_pressed() == (old(self).power_pressed() || r),
            final(self).topology() == old(self).topology(),
            final(self).tids() == old(self).tids(),
            final(self).ram() == old(self).ram(),
    {
        let current = self.vm_state;
        self.notify_lifecycle(current, KvmVmState::Shutdown)
    }

    /// Whether the main loop is done: the machine has shut down.
    pub fn main_loop_should_exit(&self) -> (r: bool)
        ensures
            r == (self.state() == KvmVmState::Shutdown),
    {
        self.vm_state == KvmVmState::Shutdown
    }

    /// The machine's state.
    pub fn vm_state(&self) -> (r: KvmVmState)
        ensures
            r == self.state(),
    {
        self.vm_state
    }

    /// The state of vCPU `i`.
    pub fn cpu_state(&self, i: usize) -> (r: CpuLifecycleState)
        requires
            i < self.cpu_states().len(),
        ensures
            r == self.cpu_states()[i as int],
    {
        self.cpus[i]
    }

    /// The number of vCPU slots.
    pub fn max_cpus(&self) -> (r: u8)
        ensures
            r == self.topology().max_cpus,
    {
        self.cpu_topo.max_cpus
    }

    /// Whether the power button was pressed.
    pub fn power_button_pressed(&self) -> (r: bool)
        ensures
            r == self.power_pressed(),
    {
        self.power_button
    }

    /// The RAM ranges `(base, size)` of the guest.
    pub fn ram_ranges(&self) -> (r: &Vec<(u64, u64)>)
        ensures
            r@ == self.ram(),
    {
        &self.ram_ranges
    }

    /// Records the OS thread id of vCPU `i`, once its thread runs.
    pub fn set_thread_id(&mut self, i: usize, tid: u64)
        requires
            old(self).wf(),
            i < old(self).tids().len(),
        ensures
            final(self).wf(),
            final(self).tids() == old(self).tids().update(i as int, tid),
            final(self).state() == old(self).state(),
            final(self).cpu_states() == old(self).cpu_states(),
            final(self).topology() == old(self).topology(),
            final(self).ram() == old(self).ram(),
            final(self).power_pressed() == old(self).power_pressed(),
    {
        self.thread_ids.set(i, tid);
    }
    /// The run state reported by `query-status`.
    pub fn query_status(&self) -> (r: StatusInfo)
        ensures
            r == status_spec(self.state()),
    {
        match self.vm_state {
            KvmVmState::Running => StatusInfo {
                singlestep: false,
                running: true,
                status: RunState::Running,
            },
            KvmVmState::Paused => StatusInfo {
                singlestep: false,
                running: true,
                status: RunState::Paused,
            },
            _ => StatusInfo { singlestep: false, running: false, status: RunState::Created },
        }
    }

    /// The topology properties of slot `i`.
    fn props(&self, i: u8) -> (r: CpuInstanceProperties)
        requires
            self.wf(),
        ensures
            r == props_spec(self.topology().cores, self.topology().threads, i),
    {
        let (socket, core, thread) = self.cpu_topo.get_topo(i);
        CpuInstanceProperties {
            node_id: None,
            socket_id: Some(socket as isize),
            core_id: Some(core as isize),
            thread_id: Some(thread as isize),
        }
    }

    /// One entry per online vCPU, by slot: its path, topology and thread id.
    pub fn query_cpus(&self) -> (r: Vec<CpuInfo>)
        requires
            self.wf(),
        ensures
            cpus_report(*self, r@),
    {
        let ghost mask = self.topology().mask();
        let n = self.cpu_topo.max_cpus;
        let mut out: Vec<CpuInfo> = Vec::new();
        let mut i: u8 = 0;
        while i < n
            invariant
                self.wf(),
                n == self.topology().max_cpus,
                mask == self.topology().mask(),
                0 <= i <= n,
                out@.len() == online_slots(mask, i as nat).len(),
                forall|k: int| 0 <= k < online_slots(mask, i as nat).len() ==> {
                    let s = #[trigger] online_slots(mask, i as nat)[k];
                    0 <= s < i
                },
                forall|k: int|
                    0 <= k < out@.len() ==> {
                        let s = online_slots(mask, i as nat)[k];
                        &&& (#[trigger] out@[k]).cpu == s
                        &&& out@[k].current
                        &&& !out@[k].halted
                        &&& out@[k].qom_path@ == qom_path_spec(s as u8)
                        &&& out@[k].props == Some(
                            props_spec(self.topology().cores, self.topology().threads, s as u8),
                        )
                        &&& out@[k].thread_id == self.tids()[s] as isize
                    },
            decreases n - i,
        {
            if self.cpu_topo.get_mask(i as usize) == 1 {
                let info = CpuInfo {
                    current: true,
                    qom_path: qom_path(i),
                    halted: false,
                    props: Some(self.props(i)),
                    cpu: i as isize,
                    thread_id: self.thread_ids[i as usize] as isize,
                };
                out.push(info);
            }
            i = i + 1;
        }
        out
    }

    /// One entry per vCPU slot: its type, topology, and its path where it is online.
    pub fn query_hotpluggable_cpus(&self) -> (r: Vec<HotpluggableCpu>)
        requires
            self.wf(),
        ensures
            hotpluggable_report(*self, r@),
    {
        let n = self.cpu_topo.max_cpus;
        let mut out: Vec<HotpluggableCpu> = Vec::new();
        let mut i: u8 = 0;
        while i < n
            invariant
                self.wf(),
                n == self.topology().max_cpus,
                0 <= i <= n,
                out@.len() == i,
                forall|k: int|
                    0 <= k < i ==> {
                        &&& (#[trigger] out@[k]).type_@ == cpu_type_spec()
                        &&& out@[k].vcpus_count == 1
                        &&& out@[k].props == props_spec(
                            self.topology().cores,
                            self.topology().threads,
                            k as u8,
                        )
                        &&& (self.topology().mask()[k] == 1 ==> (out@[k].qom_path matches Some(p)
                            && p@ == qom_path_spec(k as u8)))
                        &&& (self.topology().mask()[k] != 1 ==> out@[k].qom_path is None)
                    },
            decreases n - i,
        {
            let path = if self.cpu_topo.get_mask(i as usize) == 1 {
                Some(qom_path(i))
            } else {
                None
            };
            let entry = HotpluggableCpu {
                type_: "host-x86-cpu".to_owned(),
                vcpus_count: 1,
                props: self.props(i),
                qom_path: path,
            };
            out.push(entry);
            i = i + 1;
        }
        out
    }
}

} // verus!
