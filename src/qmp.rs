//! The control channel's messages: greeting, responses, errors, events and
//! timestamps.

use vstd::prelude::*;

use crate::schema::{CpuInfo, HotpluggableCpu, StatusInfo};

verus! {

/// The version numbers that the greeting announces.
#[derive(Clone, Copy, Debug, PartialEq, Eq, Structural)]
pub struct VersionNumber {
    pub micro: u8,
    pub minor: u8,
    pub major: u8,
}

/// The application version and package of the greeting.
pub struct Version {
    pub application: VersionNumber,
    pub package: String,
}

/// The body of the greeting.
pub struct Greeting {
    pub version: Version,
    pub capabilities: Vec<String>,
}

/// The message sent to a client as soon as it connects.
pub struct QmpGreeting {
    pub qmp: Greeting,
}

impl QmpGreeting {
    /// A greeting announcing version `major.minor.micro`, an empty package and
    /// no capabilities.
    pub fn create_greeting(micro: u8, minor: u8, major: u8) -> (r: Self)
        ensures
            r.qmp.version.application == (VersionNumber { micro, minor, major }),
            r.qmp.version.package@ == Seq::<char>::empty(),
            r.qmp.capabilities@.len() == 0,
    {
        let version_number = VersionNumber { micro, minor, major };
        let version = Version { application: version_number, package: String::new() };
        QmpGreeting { qmp: Greeting { version, capabilities: Vec::new() } }
    }
}

/// The error classes of the protocol, each with its description.
pub enum QmpErrorClass {
    GenericError(String),
    CommandNotFound(String),
    DeviceNotActive(String),
    DeviceNotFound(String),
    KVMMissingCap(String),
}

/// The wire name of an error class.
pub open spec fn class_name(e: QmpErrorClass) -> Seq<char> {
    match e {
        QmpErrorClass::GenericError(_) => "GenericError"@,
        QmpErrorClass::CommandNotFound(_) => "CommandNotFound"@,
        QmpErrorClass::DeviceNotActive(_) => "DeviceNotActive"@,
        QmpErrorClass::DeviceNotFound(_) => "DeviceNotFound"@,
        QmpErrorClass::KVMMissingCap(_) => "KVMMissingCap"@,
    }
}

/// The description carried by an error.
pub open spec fn class_content(e: QmpErrorClass) -> Seq<char> {
    match e {
        QmpErrorClass::GenericError(s) => s@,
        QmpErrorClass::CommandNotFound(s) => s@,
        QmpErrorClass::DeviceNotActive(s) => s@,
        QmpErrorClass::DeviceNotFound(s) => s@,
        QmpErrorClass::KVMMissingCap(s) => s@,
    }
}

impl QmpErrorClass {
    /// The description carried by this error.
    pub fn to_content(&self) -> (r: String)
        ensures
            r@ == class_content(*self),
    {
        match self {
            QmpErrorClass::GenericError(s) => s.clone(),
            QmpErrorClass::CommandNotFound(s) => s.clone(),
            QmpErrorClass::DeviceNotActive(s) => s.clone(),
            QmpErrorClass::DeviceNotFound(s) => s.clone(),
            QmpErrorClass::KVMMissingCap(s) => s.clone(),
        }
    }

    /// The wire name of this error class.
    pub fn name(&self) -> (r: &'static str)
        ensures
            r@ == class_name(*self),
    {
        match self {
            QmpErrorClass::GenericError(_) => "GenericError",
            QmpErrorClass::CommandNotFound(_) => "CommandNotFound",
            QmpErrorClass::DeviceNotActive(_) => "DeviceNotActive",
            QmpErrorClass::DeviceNotFound(_) => "DeviceNotFound",
            QmpErrorClass::KVMMissingCap(_) => "KVMMissingCap",
        }
    }
}

/// The `error` member of a failed response: class and description.
pub struct ErrorMessage {
    pub errorkind: String,
    pub desc: String,
}

impl ErrorMessage {
    /// The message for error `e`.
    pub fn new(e: &QmpErrorClass) -> (r: Self)
        ensures
            r.errorkind@ == class_name(*e),
            r.desc@ == class_content(*e),
    {
        ErrorMessage { errorkind: e.name().to_owned(), desc: e.to_content() }
    }
}

/// The empty object, returned by commands that report nothing.
#[derive(Clone, Copy, Debug, PartialEq, Eq, Structural)]
pub struct Empty {}

/// What a successful command returns.
pub enum QmpReturn {
    Empty(Empty),
    /// The verdict of a request that was refused or granted.
    Bool(bool),
    Status(StatusInfo),
    Cpus(Vec<CpuInfo>),
    HotpluggableCpus(Vec<HotpluggableCpu>),
}

/// A response: a return value or an error, and the id of the request.
pub struct Response {
    pub return_: Option<QmpReturn>,
    pub error: Option<ErrorMessage>,
    pub id: Option<u32>,
}

impl Response {
    /// A successful response returning `v`.
    pub fn create_response(v: QmpReturn, id: Option<u32>) -> (r: Self)
        ensures
            r.return_ == Some(v),
            r.error is None,
            r.id == id,
    {
        Response { return_: Some(v), error: None, id }
    }

    /// A successful response returning the empty object, without id.
    pub fn create_empty_response() -> (r: Self)
        ensures
            r.return_ == Some(QmpReturn::Empty(Empty {})),
            r.error is None,
            r.id is None,
    {
        Response { return_: Some(QmpReturn::Empty(Empty {})), error: None, id: None }
    }

    /// A failed response with the class and description of `err_class`.
    pub fn create_error_response(err_class: QmpErrorClass, id: Option<u32>) -> (r: Self)
        ensures
            r.return_ is None,
            r.error matches Some(e) && e.errorkind@ == class_name(err_class) && e.desc@
                == class_content(err_class),
            r.id == id,
    {
        Response { return_: None, error: Some(ErrorMessage::new(&err_class)), id }
    }

    /// Sets the id that the response echoes.
    pub fn change_id(&mut self, id: Option<u32>)
        ensures
            final(self).id == id,
            final(self).return_ == old(self).return_,
            final(self).error == old(self).error,
    {
        self.id = id;
    }
}

/// Seconds and microseconds since the Unix epoch.
#[derive(Clone, Copy, Debug, PartialEq, Eq, Structural)]
pub struct TimeStamp {
    pub seconds: u64,
    pub microseconds: u64,
}

/// Relies on `SystemTime::elapsed`, called on `UNIX_EPOCH`: the time since
/// the epoch; `None` where the clock reads before the epoch.
#[verifier::external_body]
fn elapsed_since_epoch() -> (r: Option<std::time::Duration>) {
    std::time::UNIX_EPOCH.elapsed().ok()
}

/// Relies on `Duration::as_secs`: the whole seconds of `d`.
#[verifier::external_body]
fn whole_seconds(d: &std::time::Duration) -> (r: u64) {
    d.as_secs()
}

/// Relies on `Duration::subsec_micros`: the microseconds past the whole
/// seconds, which the documentation bounds below one million.
#[verifier::external_body]
fn micros_past_second(d: &std::time::Duration) -> (r: u32)
    ensures
        r < 1_000_000,
{
    d.subsec_micros()
}

/// The timestamp of an instant `seconds` and `micros` after the epoch.
pub fn timestamp_from(seconds: u64, micros: u32) -> (r: TimeStamp)
    requires
        micros < 1_000_000,
    ensures
        r.seconds == seconds,
        r.microseconds == micros,
        r.microseconds < 1_000_000,
{
    TimeStamp { seconds, microseconds: micros as u64 }
}

/// The current time as a timestamp; `None` where the clock reads before the epoch.
pub fn create_timestamp() -> (r: Option<TimeStamp>)
    ensures
        r matches Some(t) ==> t.microseconds < 1_000_000,
{
    match elapsed_since_epoch() {
        Some(d) => Some(timestamp_from(whole_seconds(&d), micros_past_second(&d))),
        None => None,
    }
}

/// Asynchronous notifications to the client.
pub enum QmpEvent {
    Stop,
    Resume,
    Shutdown { guest: bool, reason: String },
    DeviceDeleted { device: Option<String>, path: String },
}

impl QmpEvent {
    /// The wire name of the event.
    pub fn name(&self) -> (r: &'static str)
        ensures
            r@ == event_name(*self),
    {
        match self {
            QmpEvent::Stop => "STOP",
            QmpEvent::Resume => "RESUME",
            QmpEvent::Shutdown { .. } => "SHUTDOWN",
            QmpEvent::DeviceDeleted { .. } => "DEVICE_DELETED",
        }
    }
}

pub open spec fn event_name(e: QmpEvent) -> Seq<char> {
    match e {
        QmpEvent::Stop => "STOP"@,
        QmpEvent::Resume => "RESUME"@,
        QmpEvent::Shutdown { .. } => "SHUTDOWN"@,
        QmpEvent::DeviceDeleted { .. } => "DEVICE_DELETED"@,
    }
}

} // verus!
