//! Device requests of the control channel: the backend configurations that
//! `blockdev_add` and `netdev_add` register, and the bus slot of `device_add`.

use vstd::prelude::*;
use vstd::utf8::encode_utf8;

use crate::channel::{fd_lookup, suffix_vec, QmpChannel};
use crate::parse::{parse_hex, parse_hex_spec, parse_i32, parse_i32_spec};

verus! {

/// A block backend: the image on the host and how it is opened.
pub struct DriveConfig {
    pub drive_id: String,
    pub path_on_host: String,
    pub read_only: bool,
    pub direct: bool,
    pub serial_num: Option<String>,
}

/// A network backend: a host device by name, or a tap file descriptor.
pub struct NetworkInterfaceConfig {
    pub iface_id: String,
    pub host_dev_name: String,
    pub mac: Option<String>,
    pub tap_fd: Option<i32>,
    pub vhost_type: Option<String>,
    pub vhost_fd: Option<i32>,
}

/// The image file of a block backend.
pub struct FileOptions {
    pub driver: String,
    pub filename: String,
}

/// The cache mode of a block backend.
#[derive(Clone, Copy, Debug, PartialEq, Eq, Structural)]
pub struct CacheOptions {
    pub direct: Option<bool>,
    pub no_flush: Option<bool>,
}

/// The configuration `blockdev_add` registers: read-write unless asked
/// otherwise, and opened with `O_DIRECT` unless the cache mode says not.
pub fn blockdev_add(
    node_name: String,
    file: FileOptions,
    cache: Option<CacheOptions>,
    read_only: Option<bool>,
) -> (r: DriveConfig)
    ensures
        r.drive_id@ == node_name@,
        r.path_on_host@ == file.filename@,
        r.read_only == (read_only == Some(true)),
        r.direct == !(cache matches Some(c) && c.direct == Some(false)),
        r.serial_num is None,
{
    let read_only = match read_only {
        Some(ro) => ro,
        None => false,
    };
    let direct = match cache {
        Some(c) => match c.direct {
            Some(d) => d,
            None => true,
        },
        None => true,
    };
    DriveConfig {
        drive_id: node_name,
        path_on_host: file.filename,
        read_only,
        direct,
        serial_num: None,
    }
}

/// Index of the last `:` in `s`, if any.
pub open spec fn last_colon(s: Seq<u8>) -> Option<int>
    decreases s.len(),
{
    if s.len() == 0 {
        None
    } else if s.last() == 0x3a {
        Some(s.len() - 1)
    } else {
        last_colon(s.drop_last())
    }
}

/// The descriptor name in the `fds` argument: what follows its last `:`.
pub open spec fn fd_name(fds: Seq<u8>) -> Seq<u8> {
    match last_colon(fds) {
        Some(i) => fds.skip(i + 1),
        None => fds,
    }
}

/// The tap descriptor `fds` names: one stored under that name in `t`, else
/// the name read as a number.
pub open spec fn tap_fd_spec(t: Seq<(Seq<u8>, i32)>, fds: Seq<u8>) -> Option<i32> {
    match fd_lookup(t, fd_name(fds)) {
        Some(fd) => Some(fd),
        None => parse_i32_spec(fd_name(fds)),
    }
}

/// Finds the last `:` in `s`.
fn find_last_colon(s: &[u8]) -> (r: Option<usize>)
    ensures
        r matches Some(i) ==> last_colon(s@) == Some(i as int) && i < s@.len(),
        r is None ==> last_colon(s@) is None,
{
    let mut i: usize = s.len();
    proof {
        assert(s@.take(i as int) =~= s@);
    }
    while i > 0
        invariant
            0 <= i <= s@.len(),
            last_colon(s@) == last_colon(s@.take(i as int)),
        decreases i,
    {
        proof {
            assert(s@.take(i as int).drop_last() =~= s@.take(i - 1));
        }
        if s[i - 1] == 0x3a {
            return Some(i - 1);
        }
        i = i - 1;
    }
    None
}

/// The configuration `netdev_add` registers for backend `id`. With `fds`, the
/// tap descriptor is the one the channel stores under the name after the last
/// `:`, else that name read as a number; `None` where it is neither. Without
/// `fds`, the backend is the host device `if_name`, if given.
pub fn netdev_add(
    id: String,
    if_name: Option<String>,
    fds: Option<String>,
    channel: &QmpChannel,
) -> (r: Option<NetworkInterfaceConfig>)
    ensures
        r is None <==> (fds matches Some(f) && tap_fd_spec(channel.table(), encode_utf8(f@))
            is None),
        r matches Some(c) ==> {
            &&& c.iface_id@ == id@
            &&& c.mac is None
            &&& c.vhost_type is None
            &&& c.vhost_fd is None
            &&& (fds matches Some(f) ==> c.tap_fd == tap_fd_spec(
                channel.table(),
                encode_utf8(f@),
            ) && c.host_dev_name@ == Seq::<char>::empty())
            &&& (fds is None ==> c.tap_fd is None && (if let Some(n) = if_name {
                c.host_dev_name@ == n@
            } else {
                c.host_dev_name@ == Seq::<char>::empty()
            }))
        },
{
    match fds {
        Some(f) => {
            let bytes = f.as_str().as_bytes();
            let _n = bytes.len();
            let start = match find_last_colon(bytes) {
                Some(i) => i + 1,
                None => 0,
            };
            let name = suffix_vec(bytes, start);
            proof {
                if start == 0 {
                    assert(bytes@.skip(0) =~= bytes@);
                }
                assert(name@ == fd_name(encode_utf8(f@)));
            }
            let tap_fd = match channel.get_fd_bytes(name.as_slice()) {
                Some(fd) => fd,
                None => match parse_i32(name.as_slice()) {
                    Some(fd) => fd,
                    None => {
                        return None;
                    },
                },
            };
            Some(
                NetworkInterfaceConfig {
                    iface_id: id,
                    host_dev_name: String::new(),
                    mac: None,
                    tap_fd: Some(tap_fd),
                    vhost_type: None,
                    vhost_fd: None,
                },
            )
        },
        None => {
            let host_dev_name = match if_name {
                Some(n) => n,
                None => String::new(),
            };
            Some(
                NetworkInterfaceConfig {
                    iface_id: id,
                    host_dev_name,
                    mac: None,
                    tap_fd: None,
                    vhost_type: None,
                    vhost_fd: None,
                },
            )
        },
    }
}

/// A descriptor stored under a name without `:` is the one `netdev_add`
/// hands to the backend when its `fds` is that name.
pub proof fn lemma_stored_fd_reaches_netdev(t: Seq<(Seq<u8>, i32)>, name: Seq<u8>, fd: i32)
    requires
        fd_lookup(t, name) == Some(fd),
        forall|i: int| 0 <= i < name.len() ==> #[trigger] name[i] != 0x3a,
    ensures
        tap_fd_spec(t, name) == Some(fd),
{
    lemma_no_colon(name);
}

proof fn lemma_no_colon(s: Seq<u8>)
    requires
        forall|i: int| 0 <= i < s.len() ==> #[trigger] s[i] != 0x3a,
    ensures
        last_colon(s) is None,
    decreases s.len(),
{
    if s.len() > 0 {
        assert(s.last() == s[s.len() - 1]);
        lemma_no_colon(s.drop_last());
    }
}

/// `s` with every leading `0x` removed.
pub open spec fn trim_hex_prefix(s: Seq<u8>) -> Seq<u8>
    decreases s.len(),
{
    if s.len() >= 2 && s[0] == 0x30 && s[1] == 0x78 {
        trim_hex_prefix(s.skip(2))
    } else {
        s
    }
}

/// The bus slot `device_add` asks for: the hexadecimal `addr` (0 where it
/// does not parse), or `lun + 1`, or 0 without either. Asking for both is
/// refused, as is a `lun` with no slot after it.
pub open spec fn device_slot_spec(addr: Option<Seq<u8>>, lun: Option<usize>) -> Option<usize> {
    match (addr, lun) {
        (Some(_), Some(_)) => None,
        (Some(a), None) => match parse_hex_spec(trim_hex_prefix(a)) {
            Some(n) => Some(n),
            None => Some(0),
        },
        (None, Some(l)) => if l < usize::MAX {
            Some((l + 1) as usize)
        } else {
            None
        },
        (None, None) => Some(0),
    }
}

/// The UTF-8 bytes of an optional string.
pub open spec fn utf8_of(s: Option<String>) -> Option<Seq<u8>> {
    match s {
        Some(t) => Some(encode_utf8(t@)),
        None => None,
    }
}

/// Computes the bus slot of a `device_add` request.
pub fn device_slot(addr: Option<String>, lun: Option<usize>) -> (r: Option<usize>)
    ensures
        r == device_slot_spec(utf8_of(addr), lun),
{
    match (addr, lun) {
        (Some(_), Some(_)) => None,
        (Some(a), None) => {
            let bytes = a.as_str().as_bytes();
            let mut start: usize = 0;
            proof {
                assert(bytes@.skip(0) =~= bytes@);
            }
            while bytes.len() - start >= 2 && bytes[start] == 0x30 && bytes[start + 1] == 0x78
                invariant
                    start <= bytes@.len(),
                    trim_hex_prefix(bytes@) == trim_hex_prefix(bytes@.skip(start as int)),
                decreases bytes@.len() - start,
            {
                proof {
                    assert(bytes@.skip(start as int).skip(2) =~= bytes@.skip(start + 2));
                }
                start = start + 2;
            }
            let digits = suffix_vec(bytes, start);
            proof {
                assert(trim_hex_prefix(bytes@.skip(start as int)) == bytes@.skip(start as int));
            }
            match parse_hex(digits.as_slice()) {
                Some(n) => Some(n),
                None => Some(0),
            }
        },
        (None, Some(l)) => if l < usize::MAX {
            Some(l + 1)
        } else {
            None
        },
        (None, None) => Some(0),
    }
}

} // verus!
