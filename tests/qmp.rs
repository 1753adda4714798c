use microvm::boot::X86BootLoaderConfig;
use microvm::memory::GuestMemory;
use microvm::channel::QmpChannel;
use microvm::devices::{blockdev_add, device_slot, netdev_add, CacheOptions, FileOptions};
use microvm::dispatch::{
    command_kind, command_not_found, kind_name, qmp_command_exec, BusRequest, CommandKind,
    QmpCommand, QmpRequest,
};
use microvm::machine::{KvmVmState, LightMachine, MachineConfig, MachineError};
use microvm::parse::{parse_hex, parse_i32};
use microvm::qmp::{create_timestamp, timestamp_from, Empty, QmpErrorClass, QmpEvent, QmpGreeting, QmpReturn, Response};

/// A one-segment ELF64 kernel loaded at 16 MiB.
fn tiny_kernelqmp() -> Vec<u8> {
    let mut img = vec![0u8; 64 + 56];
    img[..6].copy_from_slice(&[0x7f, b'E', b'L', b'F', 2, 1]);
    img[24..32].copy_from_slice(&0x100_0000u64.to_le_bytes());
    img[32..40].copy_from_slice(&64u64.to_le_bytes());
    img[54..56].copy_from_slice(&56u16.to_le_bytes());
    img[56..58].copy_from_slice(&1u16.to_le_bytes());
    img[64..68].copy_from_slice(&1u32.to_le_bytes());
    img[72..80].copy_from_slice(&120u64.to_le_bytes());
    img[88..96].copy_from_slice(&0x100_0000u64.to_le_bytes());
    img[96..104].copy_from_slice(&4u64.to_le_bytes());
    img.extend_from_slice(b"kern");
    img
}

fn realize_qmp(m: &mut LightMachine) -> Result<(), MachineError> {
    let mut mem = GuestMemory::new(0x2000_0000);
    mem.add_ram_region(0, 0x1000_0000).unwrap();
    let config = X86BootLoaderConfig {
        initrd_size: Some(0x1_0000),
        kernel_cmdline: String::from("this_is_a_piece_of_test_string"),
        cpu_count: 1,
    };
    m.realize(&tiny_kernelqmp(), &config, &mut mem).map(|_| ())
}


fn machine(n: u8) -> LightMachine {
    LightMachine::new(MachineConfig { nr_cpus: n, mem_size: 0x1000_0000 }).unwrap()
}

fn run(c: QmpCommand, id: Option<u32>, m: &mut LightMachine, ch: &mut QmpChannel, fd: Option<i32>) -> microvm::dispatch::CommandOutcome {
    qmp_command_exec(QmpRequest { command: c, id }, m, ch, fd)
}

fn is_empty(r: &Response) -> bool {
    r.error.is_none() && matches!(r.return_, Some(QmpReturn::Empty(Empty {})))
}

#[test]
fn test_qmp_greeting_msg() {
    let greeting_msg = QmpGreeting::create_greeting(1, 0, 4);
    let v = greeting_msg.qmp.version.application;
    assert_eq!((v.micro, v.minor, v.major), (1, 0, 4));
    assert_eq!(greeting_msg.qmp.version.package, "");
    assert!(greeting_msg.qmp.capabilities.is_empty());
}

#[test]
fn test_qmp_resp() {
    let mut resp = Response::create_empty_response();
    resp.change_id(Some(0));
    assert!(is_empty(&resp));
    assert_eq!(resp.id, Some(0));
    resp.change_id(Some(1));
    assert_eq!(resp.id, Some(1));

    let mut m = machine(1);
    realize_qmp(&mut m).unwrap();
    m.vm_start(false).unwrap();
    let resp = Response::create_response(QmpReturn::Status(m.query_status()), None);
    match resp.return_ {
        Some(QmpReturn::Status(s)) => {
            assert!(s.running);
            assert!(!s.singlestep);
            assert_eq!(s.status.as_str(), "running");
        }
        _ => panic!("not a status"),
    }
    assert!(resp.id.is_none());

    let qmp_err = QmpErrorClass::GenericError("Invalid Qmp command arguments!".to_string());
    let resp = Response::create_error_response(qmp_err, None);
    let e = resp.error.unwrap();
    assert_eq!(e.errorkind, "GenericError");
    assert_eq!(e.desc, "Invalid Qmp command arguments!");
    assert!(resp.return_.is_none());
}

#[test]
fn test_qmp_match_macro() {
    let mut m = machine(1);
    let mut ch = QmpChannel::new();
    let out = run(QmpCommand::Stop, Some(0), &mut m, &mut ch, None);
    assert_eq!(out.response.id, Some(0));
    assert!(matches!(out.response.return_, Some(QmpReturn::Bool(false))));
    let out = run(QmpCommand::QueryCpus, Some(0), &mut m, &mut ch, None);
    assert_eq!(out.response.id, Some(0));
    assert!(matches!(out.response.return_, Some(QmpReturn::Cpus(ref v)) if v.len() == 1));
    let out = run(QmpCommand::DeviceDel { id: "cpu_0".to_string() }, Some(0), &mut m, &mut ch, None);
    assert_eq!(out.response.id, Some(0));
    assert!(matches!(out.bus_request, Some(BusRequest::DeleteDevice { ref id }) if id == "cpu_0"));
}

#[test]
fn lifecycle_over_the_channel() {
    let mut m = machine(2);
    let mut ch = QmpChannel::new();
    let out = run(QmpCommand::QueryStatus, None, &mut m, &mut ch, None);
    match out.response.return_ {
        Some(QmpReturn::Status(s)) => {
            assert!(!s.running);
            assert_eq!(s.status.as_str(), "Created");
        }
        _ => panic!("not a status"),
    }
    realize_qmp(&mut m).unwrap();
    m.vm_start(true).unwrap();
    let out = run(QmpCommand::Cont, None, &mut m, &mut ch, None);
    assert!(matches!(out.events.as_slice(), [QmpEvent::Resume]));
    let out = run(QmpCommand::QueryStatus, None, &mut m, &mut ch, None);
    match out.response.return_ {
        Some(QmpReturn::Status(s)) => {
            assert!(s.running);
            assert_eq!(s.status.as_str(), "running");
        }
        _ => panic!("not a status"),
    }
    let out = run(QmpCommand::Stop, None, &mut m, &mut ch, None);
    assert!(matches!(out.events.as_slice(), [QmpEvent::Stop]));
    let out = run(QmpCommand::QueryStatus, None, &mut m, &mut ch, None);
    match out.response.return_ {
        Some(QmpReturn::Status(s)) => {
            assert!(s.running);
            assert_eq!(s.status.as_str(), "paused");
        }
        _ => panic!("not a status"),
    }
    let out = run(QmpCommand::Quit, None, &mut m, &mut ch, None);
    assert!(is_empty(&out.response));
    match out.shutdown {
        Some(QmpEvent::Shutdown { guest, ref reason }) => {
            assert!(!guest);
            assert_eq!(reason, "host-qmp-quit");
        }
        _ => panic!("no shutdown event"),
    }
    assert_eq!(out.shutdown.as_ref().unwrap().name(), "SHUTDOWN");
    assert_eq!(m.vm_state(), KvmVmState::Shutdown);
    assert!(m.power_button_pressed());
}

#[test]
fn stop_on_created_machine_changes_nothing() {
    let mut m = machine(1);
    let mut ch = QmpChannel::new();
    let out = run(QmpCommand::Stop, None, &mut m, &mut ch, None);
    assert!(out.events.is_empty());
    assert!(out.response.error.is_none());
    assert!(matches!(out.response.return_, Some(QmpReturn::Bool(false))));
    assert_eq!(m.vm_state(), KvmVmState::Created);
    let out = run(QmpCommand::Cont, Some(5), &mut m, &mut ch, None);
    assert!(matches!(out.response.return_, Some(QmpReturn::Bool(false))));
    assert_eq!(out.response.id, Some(5));
}

#[test]
fn refused_device_add_is_an_error() {
    let mut m = machine(1);
    let mut ch = QmpChannel::new();
    let cmd = QmpCommand::DeviceAdd {
        id: "d".to_string(),
        driver: "virtio-blk".to_string(),
        addr: Some("0x2".to_string()),
        lun: Some(1),
    };
    let out = run(cmd, None, &mut m, &mut ch, None);
    assert!(out.bus_request.is_none());
    let e = out.response.error.unwrap();
    assert_eq!(e.errorkind, "GenericError");
    assert_eq!(e.desc, "Invalid device slot");
    let cmd = QmpCommand::DeviceAdd {
        id: "d".to_string(),
        driver: "virtio-blk".to_string(),
        addr: Some("0x2".to_string()),
        lun: None,
    };
    let out = run(cmd, None, &mut m, &mut ch, None);
    assert!(is_empty(&out.response));
    assert!(matches!(out.bus_request, Some(BusRequest::AddDevice { slot: 2, .. })));
}

#[test]
fn response_echoes_id() {
    let mut m = machine(1);
    let mut ch = QmpChannel::new();
    let out = run(QmpCommand::QueryStatus, Some(42), &mut m, &mut ch, None);
    assert_eq!(out.response.id, Some(42));
    let out = run(QmpCommand::Getfd { fd_name: "x".to_string() }, Some(42), &mut m, &mut ch, None);
    assert_eq!(out.response.id, Some(42));
    assert!(out.response.error.is_some());
    let out = run(QmpCommand::QueryStatus, None, &mut m, &mut ch, None);
    assert_eq!(out.response.id, None);
}

#[test]
fn fd_passing_reaches_netdev() {
    let mut m = machine(1);
    let mut ch = QmpChannel::new();
    let out = run(QmpCommand::Getfd { fd_name: "tap0".to_string() }, None, &mut m, &mut ch, Some(37));
    assert!(is_empty(&out.response));
    assert_eq!(ch.get_fd("tap0"), Some(37));
    let out = run(
        QmpCommand::NetdevAdd { id: "net0".to_string(), if_name: None, fds: Some("tap0".to_string()) },
        None,
        &mut m,
        &mut ch,
        None,
    );
    match out.bus_request {
        Some(BusRequest::AddNetConfig(c)) => {
            assert_eq!(c.tap_fd, Some(37));
            assert_eq!(c.iface_id, "net0");
        }
        _ => panic!("no net config"),
    }
    let out = run(
        QmpCommand::NetdevAdd { id: "net1".to_string(), if_name: None, fds: Some("nope".to_string()) },
        None,
        &mut m,
        &mut ch,
        None,
    );
    assert!(out.bus_request.is_none());
    assert_eq!(out.response.error.unwrap().errorkind, "GenericError");
}

#[test]
fn getfd_without_descriptor_is_an_error() {
    let mut m = machine(1);
    let mut ch = QmpChannel::new();
    let out = run(QmpCommand::Getfd { fd_name: "tap0".to_string() }, None, &mut m, &mut ch, None);
    let e = out.response.error.unwrap();
    assert_eq!(e.errorkind, "GenericError");
    assert_eq!(e.desc, "Invalid SCM message");
    assert_eq!(ch.get_fd("tap0"), None);
}

#[test]
fn fd_table_replaces_and_keeps() {
    let mut ch = QmpChannel::new();
    ch.set_fd("a".to_string(), 3);
    ch.set_fd("b".to_string(), 4);
    ch.set_fd("a".to_string(), 5);
    assert_eq!(ch.get_fd("a"), Some(5));
    assert_eq!(ch.get_fd("b"), Some(4));
    assert_eq!(ch.get_fd("c"), None);
}

#[test]
fn netdev_fds_forms() {
    let mut ch = QmpChannel::new();
    ch.set_fd("tap1".to_string(), 9);
    let c = netdev_add("n".to_string(), None, Some("x:y:tap1".to_string()), &ch).unwrap();
    assert_eq!(c.tap_fd, Some(9));
    let c = netdev_add("n".to_string(), None, Some("12".to_string()), &ch).unwrap();
    assert_eq!(c.tap_fd, Some(12));
    let c = netdev_add("n".to_string(), Some("tap7".to_string()), None, &ch).unwrap();
    assert_eq!(c.tap_fd, None);
    assert_eq!(c.host_dev_name, "tap7");
    assert!(netdev_add("n".to_string(), None, Some("a:".to_string()), &ch).is_none());
}

#[test]
fn numbers_in_text() {
    assert_eq!(parse_i32(b"42"), Some(42));
    assert_eq!(parse_i32(b"-7"), Some(-7));
    assert_eq!(parse_i32(b"+7"), Some(7));
    assert_eq!(parse_i32(b"2147483647"), Some(i32::MAX));
    assert_eq!(parse_i32(b"-2147483648"), Some(i32::MIN));
    assert_eq!(parse_i32(b"2147483648"), None);
    assert_eq!(parse_i32(b"99999999999999"), None);
    assert_eq!(parse_i32(b""), None);
    assert_eq!(parse_i32(b"-"), None);
    assert_eq!(parse_i32(b"1a"), None);
    assert_eq!(parse_hex(b"1f"), Some(0x1f));
    assert_eq!(parse_hex(b"+A"), Some(10));
    assert_eq!(parse_hex(b"g"), None);
    assert_eq!(parse_hex(b""), None);
    assert_eq!(parse_hex(b"ffffffffffffffffff"), None);
    for s in ["0", "-0", "123", "-123", "+5", "x", "", "2147483648", "-2147483649"] {
        assert_eq!(parse_i32(s.as_bytes()), s.parse::<i32>().ok());
    }
    for s in ["0", "ff", "FF", "+1", "", "z", "10000000000000000"] {
        assert_eq!(parse_hex(s.as_bytes()), usize::from_str_radix(s, 16).ok());
    }
}

#[test]
fn device_slots() {
    assert_eq!(device_slot(Some("0x1f".to_string()), None), Some(0x1f));
    assert_eq!(device_slot(Some("0x0x2".to_string()), None), Some(2));
    assert_eq!(device_slot(Some("zz".to_string()), None), Some(0));
    assert_eq!(device_slot(None, Some(3)), Some(4));
    assert_eq!(device_slot(None, None), Some(0));
    assert_eq!(device_slot(Some("1".to_string()), Some(1)), None);
}

#[test]
fn blockdev_defaults() {
    let file = FileOptions { driver: "file".to_string(), filename: "/img".to_string() };
    let c = blockdev_add("d0".to_string(), file, None, None);
    assert!(!c.read_only && c.direct);
    assert_eq!(c.path_on_host, "/img");
    let file = FileOptions { driver: "file".to_string(), filename: "/img".to_string() };
    let c = blockdev_add(
        "d0".to_string(),
        file,
        Some(CacheOptions { direct: Some(false), no_flush: None }),
        Some(true),
    );
    assert!(c.read_only && !c.direct);
}

#[test]
fn timestamps() {
    let t = create_timestamp().unwrap();
    assert!(t.microseconds < 1_000_000);
    assert!(t.seconds > 1_500_000_000);
    let t = timestamp_from(1575531524, 91519);
    assert_eq!((t.seconds, t.microseconds), (1575531524, 91519));
}

#[test]
fn error_classes_and_events() {
    let e = Response::create_error_response(QmpErrorClass::CommandNotFound("The command foo has not been found".to_string()), Some(3));
    let m = e.error.unwrap();
    assert_eq!(m.errorkind, "CommandNotFound");
    assert_eq!(m.desc, "The command foo has not been found");
    assert_eq!(QmpErrorClass::KVMMissingCap(String::new()).name(), "KVMMissingCap");
    assert_eq!(QmpEvent::Stop.name(), "STOP");
    assert_eq!(QmpEvent::DeviceDeleted { device: None, path: String::new() }.name(), "DEVICE_DELETED");
}

#[test]
fn command_names() {
    assert_eq!(command_kind(&"query-status".to_string()), Some(CommandKind::QueryStatus));
    assert_eq!(command_kind(&"getfd".to_string()), Some(CommandKind::Getfd));
    assert_eq!(command_kind(&"blockdev_add".to_string()), Some(CommandKind::BlockdevAdd));
    assert_eq!(command_kind(&"reboot".to_string()), None);
    assert_eq!(kind_name(CommandKind::QueryHotpluggableCpus), "query-hotpluggable-cpus");
    let r = command_not_found(&"reboot".to_string(), Some(7));
    let e = r.error.unwrap();
    assert_eq!(e.errorkind, "CommandNotFound");
    assert_eq!(e.desc, "The command reboot has not been found");
    assert_eq!(r.id, Some(7));
}
