//! Runs one control-channel command against the machine and the session.

use vstd::prelude::*;
use vstd::string::StringExecFns;
use vstd::utf8::encode_utf8;

use crate::channel::{fd_lookup, QmpChannel};
use crate::devices::{
    blockdev_add, device_slot, device_slot_spec, netdev_add, tap_fd_spec, utf8_of, CacheOptions,
    DriveConfig, FileOptions, NetworkInterfaceConfig,
};
use crate::machine::{
    cpus_report, hotpluggable_report, status_spec, transition, KvmVmState, LightMachine,
};
use crate::qmp::{class_content, class_name, Empty, QmpErrorClass, QmpEvent, QmpReturn, Response};

verus! {

/// The commands the channel knows, without their arguments.
#[derive(Clone, Copy, Debug, PartialEq, Eq, Structural)]
pub enum CommandKind {
    Stop,
    Cont,
    Quit,
    QueryStatus,
    QueryCpus,
    QueryHotpluggableCpus,
    DeviceAdd,
    DeviceDel,
    BlockdevAdd,
    NetdevAdd,
    Getfd,
}

/// The name a command has on the wire.
pub open spec fn command_name(k: CommandKind) -> Seq<char> {
    match k {
        CommandKind::Stop => "stop"@,
        CommandKind::Cont => "cont"@,
        CommandKind::Quit => "quit"@,
        CommandKind::QueryStatus => "query-status"@,
        CommandKind::QueryCpus => "query-cpus"@,
        CommandKind::QueryHotpluggableCpus => "query-hotpluggable-cpus"@,
        CommandKind::DeviceAdd => "device_add"@,
        CommandKind::DeviceDel => "device_del"@,
        CommandKind::BlockdevAdd => "blockdev_add"@,
        CommandKind::NetdevAdd => "netdev_add"@,
        CommandKind::Getfd => "getfd"@,
    }
}

/// The name of command `k`.
pub fn kind_name(k: CommandKind) -> (r: &'static str)
    ensures
        r@ == command_name(k),
{
    match k {
        CommandKind::Stop => "stop",
        CommandKind::Cont => "cont",
        CommandKind::Quit => "quit",
        CommandKind::QueryStatus => "query-status",
        CommandKind::QueryCpus => "query-cpus",
        CommandKind::QueryHotpluggableCpus => "query-hotpluggable-cpus",
        CommandKind::DeviceAdd => "device_add",
        CommandKind::DeviceDel => "device_del",
        CommandKind::BlockdevAdd => "blockdev_add",
        CommandKind::NetdevAdd => "netdev_add",
        CommandKind::Getfd => "getfd",
    }
}

/// The command called `name`, if the channel knows one.
pub fn command_kind(name: &String) -> (r: Option<CommandKind>)
    ensures
        r matches Some(k) ==> command_name(k) == name@,
        r is None ==> forall|k: CommandKind| command_name(k) != name@,
{
    let kinds = [
        CommandKind::Stop,
        CommandKind::Cont,
        CommandKind::Quit,
        CommandKind::QueryStatus,
        CommandKind::QueryCpus,
        CommandKind::QueryHotpluggableCpus,
        CommandKind::DeviceAdd,
        CommandKind::DeviceDel,
        CommandKind::BlockdevAdd,
        CommandKind::NetdevAdd,
        CommandKind::Getfd,
    ];
    let mut i: usize = 0;
    while i < 11
        invariant
            0 <= i <= 11,
            kinds@.len() == 11,
            kinds@ == seq![
                CommandKind::Stop,
                CommandKind::Cont,
                CommandKind::Quit,
                CommandKind::QueryStatus,
                CommandKind::QueryCpus,
                CommandKind::QueryHotpluggableCpus,
                CommandKind::DeviceAdd,
                CommandKind::DeviceDel,
                CommandKind::BlockdevAdd,
                CommandKind::NetdevAdd,
                CommandKind::Getfd,
            ],
            forall|j: int| 0 <= j < i ==> command_name(#[trigger] kinds@[j]) != name@,
        decreases 11 - i,
    {
        let k = kinds[i];
        let candidate = kind_name(k).to_owned();
        if candidate == *name {
            return Some(k);
        }
        i = i + 1;
    }
    proof {
        assert forall|k: CommandKind| command_name(k) != name@ by {
            match k {
                CommandKind::Stop => assert(kinds@[0] == k),
                CommandKind::Cont => assert(kinds@[1] == k),
                CommandKind::Quit => assert(kinds@[2] == k),
                CommandKind::QueryStatus => assert(kinds@[3] == k),
                CommandKind::QueryCpus => assert(kinds@[4] == k),
                CommandKind::QueryHotpluggableCpus => assert(kinds@[5] == k),
                CommandKind::DeviceAdd => assert(kinds@[6] == k),
                CommandKind::DeviceDel => assert(kinds@[7] == k),
                CommandKind::BlockdevAdd => assert(kinds@[8] == k),
                CommandKind::NetdevAdd => assert(kinds@[9] == k),
                CommandKind::Getfd => assert(kinds@[10] == k),
            }
        }
    }
    None
}

/// The description of the error for a command nobody knows.
pub open spec fn not_found_desc(name: Seq<char>) -> Seq<char> {
    "The command "@ + name + " has not been found"@
}

/// The `CommandNotFound` response to a request for command `name`.
pub fn command_not_found(name: &String, id: Option<u32>) -> (r: Response)
    ensures
        r.return_ is None,
        r.error matches Some(e) && e.errorkind@ == "CommandNotFound"@ && e.desc@ == not_found_desc(
            name@,
        ),
        r.id == id,
{
    let mut desc = "The command ".to_owned();
    desc.append(name.as_str());
    desc.append(" has not been found");
    Response::create_error_response(QmpErrorClass::CommandNotFound(desc), id)
}

/// A command of the control channel, with its arguments.
pub enum QmpCommand {
    Stop,
    Cont,
    Quit,
    QueryStatus,
    QueryCpus,
    QueryHotpluggableCpus,
    DeviceAdd { id: String, driver: String, addr: Option<String>, lun: Option<usize> },
    DeviceDel { id: String },
    BlockdevAdd {
        node_name: String,
        file: FileOptions,
        cache: Option<CacheOptions>,
        read_only: Option<bool>,
    },
    NetdevAdd { id: String, if_name: Option<String>, fds: Option<String> },
    Getfd { fd_name: String },
}

/// A command and the id the client gave it.
pub struct QmpRequest {
    pub command: QmpCommand,
    pub id: Option<u32>,
}

/// A change to the device bus that a command asks for.
pub enum BusRequest {
    AddDevice { id: String, driver: String, slot: usize },
    DeleteDevice { id: String },
    AddDriveConfig(DriveConfig),
    AddNetConfig(NetworkInterfaceConfig),
}

/// What running a command produced.
pub struct CommandOutcome {
    /// Events to send before the response.
    pub events: Vec<QmpEvent>,
    pub response: Response,
    /// The bus change to carry out.
    pub bus_request: Option<BusRequest>,
    /// The event to send after the response, before the process exits.
    pub shutdown: Option<QmpEvent>,
}

/// The description of the error `getfd` answers without a descriptor.
pub open spec fn no_fd_desc() -> Seq<char> {
    "Invalid SCM message"@
}

/// The description of the error `netdev_add` answers for an unusable `fds`.
pub open spec fn bad_fds_desc() -> Seq<char> {
    "Invalid netdev fds"@
}

/// The response is a success that returns the empty object.
pub open spec fn is_empty_return(r: Response) -> bool {
    r.error is None && r.return_ == Some(QmpReturn::Empty(Empty {}))
}

/// The response reports that the request was refused: it returns `false`.
pub open spec fn is_refusal(r: Response) -> bool {
    r.error is None && r.return_ == Some(QmpReturn::Bool(false))
}

/// The description of the error `device_add` answers where it finds no slot.
pub open spec fn bad_slot_desc() -> Seq<char> {
    "Invalid device slot"@
}

/// The response is a `GenericError` with description `desc`.
pub open spec fn is_generic_error(r: Response, desc: Seq<char>) -> bool {
    &&& r.return_ is None
    &&& r.error matches Some(e) && e.errorkind@ == "GenericError"@ && e.desc@ == desc
}

/// Runs `req` on `machine` and `channel`. `if_fd` is the descriptor that came
/// with the request, if any. The response carries the request's id.
pub fn qmp_command_exec(
    req: QmpRequest,
    machine: &mut LightMachine,
    channel: &mut QmpChannel,
    if_fd: Option<i32>,
) -> (r: CommandOutcome)
    requires
        old(machine).wf(),
    ensures
        final(machine).wf(),
        r.response.id == req.id,
        r.shutdown is Some <==> req.command is Quit,
        !(req.command is Getfd) ==> final(channel).table() == old(channel).table(),
        !(req.command is Stop || req.command is Cont || req.command is Quit) ==> final(machine).state() == old(machine).state() && final(machine).cpu_states() == old(machine).cpu_states(),
        final(machine).topology() == old(machine).topology(),
        final(machine).tids() == old(machine).tids(),
        match req.command {
            QmpCommand::Stop => {
                let accepted = old(machine).state() == KvmVmState::Running;
                &&& (final(machine).state(), final(machine).cpu_states()) == transition(
                    old(machine).state(),
                    old(machine).cpu_states(),
                    KvmVmState::Running,
                    KvmVmState::Paused,
                )
                &&& (accepted ==> r.events@.len() == 1 && r.events@[0] is Stop)
                &&& (!accepted ==> r.events@.len() == 0)
                &&& (accepted ==> is_empty_return(r.response))
                &&& (!accepted ==> is_refusal(r.response))
                &&& r.bus_request is None
            },
            QmpCommand::Cont => {
                let accepted = old(machine).state() == KvmVmState::Paused;
                &&& (final(machine).state(), final(machine).cpu_states()) == transition(
                    old(machine).state(),
                    old(machine).cpu_states(),
                    KvmVmState::Paused,
                    KvmVmState::Running,
                )
                &&& (accepted ==> r.events@.len() == 1 && r.events@[0] is Resume)
                &&& (!accepted ==> r.events@.len() == 0)
                &&& (accepted ==> is_empty_return(r.response))
                &&& (!accepted ==> is_refusal(r.response))
                &&& r.bus_request is None
            },
            QmpCommand::Quit => {
                &&& (final(machine).state(), final(machine).cpu_states()) == transition(
                    old(machine).state(),
                    old(machine).cpu_states(),
                    old(machine).state(),
                    KvmVmState::Shutdown,
                )
                &&& r.events@.len() == 0
                &&& is_empty_return(r.response)
                &&& r.bus_request is None
                &&& r.shutdown matches Some(QmpEvent::Shutdown { guest, reason }) && !guest
                    && reason@ == "host-qmp-quit"@
            },
            QmpCommand::QueryStatus => {
                &&& r.events@.len() == 0
                &&& r.response.error is None
                &&& r.response.return_ == Some(QmpReturn::Status(status_spec(old(machine).state())))
                &&& r.bus_request is None
            },
            QmpCommand::QueryCpus => {
                &&& r.events@.len() == 0
                &&& r.response.error is None
                &&& r.response.return_ matches Some(QmpReturn::Cpus(v)) && cpus_report(
                    *old(machine),
                    v@,
                )
                &&& r.bus_request is None
            },
            QmpCommand::QueryHotpluggableCpus => {
                &&& r.events@.len() == 0
                &&& r.response.error is None
                &&& r.response.return_ matches Some(QmpReturn::HotpluggableCpus(v))
                    && hotpluggable_report(*old(machine), v@)
                &&& r.bus_request is None
            },
            QmpCommand::DeviceAdd { id, driver, addr, lun } => {
                &&& r.events@.len() == 0
                &&& match device_slot_spec(utf8_of(addr), lun) {
                    Some(slot) => is_empty_return(r.response) && (r.bus_request matches Some(
                        BusRequest::AddDevice { id: i, driver: d, slot: s },
                    ) && i@ == id@ && d@ == driver@ && s == slot),
                    None => is_generic_error(r.response, bad_slot_desc()) && r.bus_request is None,
                }
            },
            QmpCommand::DeviceDel { id } => {
                &&& r.events@.len() == 0
                &&& is_empty_return(r.response)
                &&& r.bus_request matches Some(BusRequest::DeleteDevice { id: i }) && i@ == id@
            },
            QmpCommand::BlockdevAdd { node_name, file, cache, read_only } => {
                &&& r.events@.len() == 0
                &&& is_empty_return(r.response)
                &&& r.bus_request matches Some(BusRequest::AddDriveConfig(c)) && c.drive_id@
                    == node_name@ && c.path_on_host@ == file.filename@ && c.read_only == (
                read_only == Some(true)) && c.direct == !(cache matches Some(o) && o.direct
                    == Some(false))
            },
            QmpCommand::NetdevAdd { id, if_name, fds } => {
                let refused = fds matches Some(f) && tap_fd_spec(
                    old(channel).table(),
                    encode_utf8(f@),
                ) is None;
                &&& r.events@.len() == 0
                &&& (refused ==> is_generic_error(r.response, bad_fds_desc())
                    && r.bus_request is None)
                &&& (!refused ==> is_empty_return(r.response))
                &&& (!refused ==> (r.bus_request matches Some(BusRequest::AddNetConfig(c))
                    && c.iface_id@ == id@ && (fds matches Some(f) ==> c.tap_fd == tap_fd_spec(
                    old(channel).table(),
                    encode_utf8(f@),
                ))))
            },
            QmpCommand::Getfd { fd_name } => {
                &&& r.events@.len() == 0
                &&& r.bus_request is None
                &&& match if_fd {
                    Some(fd) => {
                        &&& is_empty_return(r.response)
                        &&& fd_lookup(final(channel).table(), encode_utf8(fd_name@)) == Some(fd)
                        &&& forall|k: Seq<u8>|
                            k != encode_utf8(fd_name@) ==> #[trigger] fd_lookup(
                                final(channel).table(),
                                k,
                            ) == fd_lookup(old(channel).table(), k)
                    },
                    None => is_generic_error(r.response, no_fd_desc()) && final(channel).table()
                        == old(channel).table(),
                }
            },
        },
{
    let id = req.id;
    let mut events: Vec<QmpEvent> = Vec::new();
    let mut bus_request: Option<BusRequest> = None;
    let mut shutdown: Option<QmpEvent> = None;
    let mut response = Response::create_empty_response();
    match req.command {
        QmpCommand::Stop => {
            if machine.pause() {
                events.push(QmpEvent::Stop);
            } else {
                response = Response::create_response(QmpReturn::Bool(false), None);
            }
        },
        QmpCommand::Cont => {
            if machine.resume() {
                events.push(QmpEvent::Resume);
            } else {
                response = Response::create_response(QmpReturn::Bool(false), None);
            }
        },
        QmpCommand::Quit => {
            machine.destroy();
            shutdown = Some(QmpEvent::Shutdown { guest: false, reason: "host-qmp-quit".to_owned() });
        },
        QmpCommand::QueryStatus => {
            response = Response::create_response(QmpReturn::Status(machine.query_status()), None);
        },
        QmpCommand::QueryCpus => {
            response = Response::create_response(QmpReturn::Cpus(machine.query_cpus()), None);
        },
        QmpCommand::QueryHotpluggableCpus => {
            response = Response::create_response(
                QmpReturn::HotpluggableCpus(machine.query_hotpluggable_cpus()),
                None,
            );
        },
        QmpCommand::DeviceAdd { id: dev_id, driver, addr, lun } => {
            match device_slot(addr, lun) {
                Some(slot) => {
                    bus_request = Some(BusRequest::AddDevice { id: dev_id, driver, slot });
                },
                None => {
                    response = Response::create_error_response(
                        QmpErrorClass::GenericError("Invalid device slot".to_owned()),
                        None,
                    );
                },
            }
        },
        QmpCommand::DeviceDel { id: dev_id } => {
            bus_request = Some(BusRequest::DeleteDevice { id: dev_id });
        },
        QmpCommand::BlockdevAdd { node_name, file, cache, read_only } => {
            bus_request = Some(
                BusRequest::AddDriveConfig(blockdev_add(node_name, file, cache, read_only)),
            );
        },
        QmpCommand::NetdevAdd { id: dev_id, if_name, fds } => {
            match netdev_add(dev_id, if_name, fds, channel) {
                Some(config) => {
                    bus_request = Some(BusRequest::AddNetConfig(config));
                },
                None => {
                    response = Response::create_error_response(
                        QmpErrorClass::GenericError("Invalid netdev fds".to_owned()),
                        None,
                    );
                },
            }
        },
        QmpCommand::Getfd { fd_name } => {
            match if_fd {
                Some(fd) => {
                    channel.set_fd(fd_name, fd);
                },
                None => {
                    response = Response::create_error_response(
                        QmpErrorClass::GenericError("Invalid SCM message".to_owned()),
                        None,
                    );
                },
            }
        },
    }
    response.change_id(id);
    CommandOutcome { events, response, bus_request, shutdown }
}

} // verus!
