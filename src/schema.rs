//! Payloads of control-channel responses and events.

use vstd::prelude::*;
use vstd::string::StringExecFns;

verus! {

/// Run state reported by `query-status`.
#[derive(Clone, Copy, Debug, PartialEq, Eq, Structural)]
pub enum RunState {
    Created,
    Running,
    Paused,
}

impl RunState {
    /// The name this state has on the wire.
    pub fn as_str(&self) -> (r: &'static str)
        ensures
            r@ == run_state_name(*self),
    {
        match self {
            RunState::Created => "Created",
            RunState::Running => "running",
            RunState::Paused => "paused",
        }
    }
}

pub open spec fn run_state_name(s: RunState) -> Seq<char> {
    match s {
        RunState::Created => "Created"@,
        RunState::Running => "running"@,
        RunState::Paused => "paused"@,
    }
}

/// The answer to `query-status`.
#[derive(Clone, Copy, Debug, PartialEq, Eq, Structural)]
pub struct StatusInfo {
    pub singlestep: bool,
    pub running: bool,
    pub status: RunState,
}

/// Where a vCPU sits in the topology.
#[derive(Clone, Copy, Debug, PartialEq, Eq, Structural)]
pub struct CpuInstanceProperties {
    pub node_id: Option<isize>,
    pub socket_id: Option<isize>,
    pub core_id: Option<isize>,
    pub thread_id: Option<isize>,
}

/// One online vCPU, as `query-cpus` reports it.
pub struct CpuInfo {
    pub current: bool,
    pub qom_path: String,
    pub halted: bool,
    pub props: Option<CpuInstanceProperties>,
    pub cpu: isize,
    pub thread_id: isize,
}

/// One vCPU slot, as `query-hotpluggable-cpus` reports it.
pub struct HotpluggableCpu {
    pub type_: String,
    pub vcpus_count: isize,
    pub props: CpuInstanceProperties,
    pub qom_path: Option<String>,
}

/// The decimal digits of `n`, most significant first, without leading zeros.
pub open spec fn decimal(n: nat) -> Seq<char>
    decreases n,
{
    let digit = seq!['0', '1', '2', '3', '4', '5', '6', '7', '8', '9'][n as int % 10];
    if n < 10 {
        seq![digit]
    } else {
        decimal(n / 10).push(digit)
    }
}

/// The digit character of `d`, below ten.
pub open spec fn digit_char(d: int) -> char {
    seq!['0', '1', '2', '3', '4', '5', '6', '7', '8', '9'][d % 10]
}

/// The one-character text of digit `d`.
fn digit_str(d: u8) -> (r: &'static str)
    requires
        d < 10,
    ensures
        r@ == seq![digit_char(d as int)],
{
    proof {
        reveal_strlit("0");
        reveal_strlit("1");
        reveal_strlit("2");
        reveal_strlit("3");
        reveal_strlit("4");
        reveal_strlit("5");
        reveal_strlit("6");
        reveal_strlit("7");
        reveal_strlit("8");
        reveal_strlit("9");
    }
    let r = match d {
        0 => "0",
        1 => "1",
        2 => "2",
        3 => "3",
        4 => "4",
        5 => "5",
        6 => "6",
        7 => "7",
        8 => "8",
        _ => "9",
    };
    proof {
        assert(r@ =~= seq![digit_char(d as int)]);
    }
    r
}

/// The decimal text of `n`.
pub fn decimal_string(n: u8) -> (r: String)
    ensures
        r@ == decimal(n as nat),
{
    let mut s = String::new();
    proof {
        reveal_with_fuel(decimal, 3);
    }
    if n >= 100 {
        s.append(digit_str(n / 100));
    }
    if n >= 10 {
        s.append(digit_str((n / 10) % 10));
    }
    s.append(digit_str(n % 10));
    proof {
        let d = seq!['0', '1', '2', '3', '4', '5', '6', '7', '8', '9'];
        if n >= 100 {
            assert(decimal(n as nat / 100) == seq![d[(n / 100) as int]]);
            assert(decimal(n as nat / 10) == decimal(n as nat / 100).push(d[((n / 10) % 10) as int]));
            assert(s@ =~= decimal(n as nat));
        } else if n >= 10 {
            assert(s@ =~= decimal(n as nat));
        } else {
            assert(s@ =~= decimal(n as nat));
        }
    }
    s
}

/// The object path of the vCPU in slot `i`.
pub open spec fn qom_path_spec(i: u8) -> Seq<char> {
    "/machine/unattached/device["@ + decimal(i as nat) + "]"@
}

/// Builds the object path of the vCPU in slot `i`.
pub fn qom_path(i: u8) -> (r: String)
    ensures
        r@ == qom_path_spec(i),
{
    let mut path = "/machine/unattached/device[".to_owned();
    let digits = decimal_string(i);
    path.append(digits.as_str());
    path.append("]");
    path
}

} // verus!
