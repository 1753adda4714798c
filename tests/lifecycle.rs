use microvm::boot::{BootError, X86BootLoaderConfig};
use microvm::memory::GuestMemory;
use microvm::machine::{CpuLifecycleState, KvmVmState, LightMachine, MachineConfig, MachineError};
use microvm::schema::RunState;

/// A one-segment ELF64 kernel loaded at 16 MiB.
fn tiny_kernellc() -> Vec<u8> {
    let mut img = vec![0u8; 64 + 56];
    img[..6].copy_from_slice(&[0x7f, b'E', b'L', b'F', 2, 1]);
    img[24..32].copy_from_slice(&0x100_0000u64.to_le_bytes());
    img[32..40].copy_from_slice(&64u64.to_le_bytes());
    img[54..56].copy_from_slice(&56u16.to_le_bytes());
    img[56..58].copy_from_slice(&1u16.to_le_bytes());
    img[64..68].copy_from_slice(&1u32.to_le_bytes());
    img[72..80].copy_from_slice(&120u64.to_le_bytes());
    img[88..96].copy_from_slice(&0x100_0000u64.to_le_bytes());
    img[96..104].copy_from_slice(&4u64.to_le_bytes());
    img.extend_from_slice(b"kern");
    img
}

fn realize_lc(m: &mut LightMachine) -> Result<(), MachineError> {
    let mut mem = GuestMemory::new(0x2000_0000);
    mem.add_ram_region(0, 0x1000_0000).unwrap();
    let config = X86BootLoaderConfig {
        initrd_size: Some(0x1_0000),
        kernel_cmdline: String::from("this_is_a_piece_of_test_string"),
        cpu_count: 1,
    };
    m.realize(&tiny_kernellc(), &config, &mut mem).map(|_| ())
}


fn machine(n: u8) -> LightMachine {
    LightMachine::new(MachineConfig { nr_cpus: n, mem_size: 0x1000_0000 }).unwrap()
}

fn cpus(m: &LightMachine) -> Vec<CpuLifecycleState> {
    (0..m.max_cpus() as usize).map(|i| m.cpu_state(i)).collect()
}

#[test]
fn zero_vcpus_rejected() {
    let r = LightMachine::new(MachineConfig { nr_cpus: 0, mem_size: 0x1000_0000 });
    assert!(matches!(r, Err(MachineError::InvalidCpuCount)));
    let r = LightMachine::new(MachineConfig { nr_cpus: 1, mem_size: 0x1000 });
    assert!(matches!(r, Err(MachineError::InvalidMemorySize)));
}

#[test]
fn one_vcpu_goes_from_created_to_running() {
    let mut m = machine(1);
    assert_eq!(m.vm_state(), KvmVmState::Created);
    assert_eq!(realize_lc(&mut m), Ok(()));
    assert_eq!(cpus(&m), vec![CpuLifecycleState::Ready]);
    assert!(m.notify_lifecycle(KvmVmState::Created, KvmVmState::Running));
    assert_eq!(m.vm_state(), KvmVmState::Running);
    assert_eq!(cpus(&m), vec![CpuLifecycleState::Running]);
}

#[test]
fn start_needs_realized_vcpus() {
    let mut m = machine(2);
    assert!(!m.notify_lifecycle(KvmVmState::Created, KvmVmState::Running));
    assert_eq!(m.vm_state(), KvmVmState::Created);
    assert_eq!(m.vm_start(false), Err(MachineError::InvalidState));
    realize_lc(&mut m).unwrap();
    assert_eq!(realize_lc(&mut m), Err(MachineError::InvalidState));
    assert_eq!(m.vm_start(true), Ok(()));
    assert_eq!(m.vm_state(), KvmVmState::Paused);
    assert_eq!(cpus(&m), vec![CpuLifecycleState::Paused; 2]);
}

#[test]
fn stop_on_created_machine_is_refused() {
    let mut m = machine(2);
    assert!(!m.pause());
    assert_eq!(m.vm_state(), KvmVmState::Created);
    assert_eq!(cpus(&m), vec![CpuLifecycleState::Created; 2]);
}

#[test]
fn illegal_transitions_are_refused() {
    let mut m = machine(2);
    realize_lc(&mut m).unwrap();
    m.vm_start(true).unwrap();
    assert!(!m.notify_lifecycle(KvmVmState::Paused, KvmVmState::Paused));
    assert!(!m.notify_lifecycle(KvmVmState::Running, KvmVmState::Paused));
    assert_eq!(m.vm_state(), KvmVmState::Paused);
    assert!(m.destroy());
    assert!(m.power_button_pressed());
    assert!(m.main_loop_should_exit());
    assert!(!m.notify_lifecycle(KvmVmState::Shutdown, KvmVmState::Running));
    assert!(!m.destroy());
    assert_eq!(m.vm_state(), KvmVmState::Shutdown);
    assert_eq!(cpus(&m), vec![CpuLifecycleState::Destroyed; 2]);
}

#[test]
fn pause_resume_round_trips() {
    let mut m = machine(4);
    realize_lc(&mut m).unwrap();
    m.vm_start(false).unwrap();
    for _ in 0..100 {
        assert!(m.pause());
        assert_eq!(cpus(&m), vec![CpuLifecycleState::Paused; 4]);
        assert!(m.resume());
    }
    assert_eq!(m.vm_state(), KvmVmState::Running);
    assert_eq!(cpus(&m), vec![CpuLifecycleState::Running; 4]);
    assert!(m.pause());
    assert!(m.resume());
    assert!(m.pause());
    assert_eq!(m.vm_state(), KvmVmState::Paused);
    assert!(!m.power_button_pressed());
}

#[test]
fn query_status_follows_state() {
    let mut m = machine(1);
    let s = m.query_status();
    assert!(!s.running && !s.singlestep);
    assert_eq!(s.status, RunState::Created);
    assert_eq!(s.status.as_str(), "Created");
    realize_lc(&mut m).unwrap();
    m.vm_start(false).unwrap();
    let s = m.query_status();
    assert!(s.running);
    assert_eq!(s.status.as_str(), "running");
    m.pause();
    let s = m.query_status();
    assert!(s.running);
    assert_eq!(s.status.as_str(), "paused");
}

#[test]
fn query_cpus_lists_online_vcpus() {
    let mut m = machine(3);
    m.set_thread_id(1, 4242);
    let v = m.query_cpus();
    assert_eq!(v.len(), 3);
    assert_eq!(v[1].cpu, 1);
    assert_eq!(v[1].thread_id, 4242);
    assert_eq!(v[2].qom_path, "/machine/unattached/device[2]");
    let p = v[2].props.unwrap();
    assert_eq!((p.socket_id, p.core_id, p.thread_id), (Some(2), Some(0), Some(0)));
    assert!(v[0].current && !v[0].halted);
}

#[test]
fn qom_path_has_decimal_index() {
    let m = machine(12);
    let v = m.query_cpus();
    assert_eq!(v[11].qom_path, "/machine/unattached/device[11]");
    let h = m.query_hotpluggable_cpus();
    assert_eq!(h.len(), 12);
    assert_eq!(h[10].qom_path.as_deref(), Some("/machine/unattached/device[10]"));
    assert_eq!(h[10].type_, "host-x86-cpu");
    assert_eq!(h[10].vcpus_count, 1);
    assert_eq!(h[10].props.socket_id, Some(10));
}

#[test]
fn ram_layout_of_machine() {
    let m = LightMachine::new(MachineConfig { nr_cpus: 1, mem_size: 0x1_0000_0000 }).unwrap();
    assert_eq!(m.ram_ranges(), &vec![(0, 0xD000_0000), (0x1_0000_0000, 0x3000_0000)]);
}

#[test]
fn realize_writes_boot_data() {
    let mut m = machine(2);
    let mut mem = GuestMemory::new(0x2000_0000);
    mem.add_ram_region(0, 0x1000_0000).unwrap();
    let config = X86BootLoaderConfig {
        initrd_size: Some(0x1_0000),
        kernel_cmdline: String::from("this_is_a_piece_of_test_string"),
        cpu_count: 2,
    };
    let (layout, cfg) = m.realize(&tiny_kernellc(), &config, &mut mem).unwrap();
    assert_eq!(layout.initrd_start, 0x0fff_0000);
    assert_eq!(layout.zero_page_addr, 0x7000);
    assert_eq!(cfg.boot_ip, 0x100_0000);
    assert_eq!(cfg.zero_page, 0x7000);
    assert_eq!(cfg.pml4_start, 0x9000);
    assert_eq!(mem.read(0x7000 + 0x1e8, 1).unwrap(), vec![4]);
    assert_eq!(mem.read(0x100_0000, 4).unwrap(), b"kern".to_vec());
    assert_eq!(cpus(&m), vec![CpuLifecycleState::Ready; 2]);
}

#[test]
fn realize_refuses_a_bad_kernel() {
    let mut m = machine(1);
    let mut mem = GuestMemory::new(0x2000_0000);
    mem.add_ram_region(0, 0x1000_0000).unwrap();
    let config = X86BootLoaderConfig { initrd_size: None, kernel_cmdline: String::new(), cpu_count: 1 };
    let r = m.realize(b"MZ not elf", &config, &mut mem);
    assert_eq!(r.map(|_| ()), Err(MachineError::Boot(BootError::InvalidKernel)));
    assert_eq!(cpus(&m), vec![CpuLifecycleState::Created]);
}
