//! The read-only status endpoint of the service host: its pipe name and the
//! snapshot it reports.
use vstd::prelude::*;
use vstd::utf8::encode_utf8;
use crate::digest::{concat_strs, sha256_hex, sha256_hex_spec};
use crate::paths::{lowercase, to_lowercase};

verus! {

pub open spec fn status_pipe_prefix() -> Seq<char> {
    "\\\\.\\pipe\\singboard-status-"@
}

/// The status pipe of a service: a fixed prefix and the hex SHA-256 of the
/// UTF-8 bytes of the lowercased service name.
pub open spec fn pipe_name_spec(service_name: Seq<char>) -> Seq<char> {
    status_pipe_prefix() + sha256_hex_spec(encode_utf8(to_lowercase(service_name)))
}

/// The status pipe name of `service_name`; its length does not depend on the
/// length of the name.
pub fn pipe_name(service_name: &str) -> (res: String)
    ensures
        res@ == pipe_name_spec(service_name@),
        res@.len() == 90,
{
    let lower = lowercase(service_name);
    let hex = sha256_hex(lower.as_str().as_bytes());
    proof {
        reveal_strlit("\\\\.\\pipe\\singboard-status-");
    }
    concat_strs("\\\\.\\pipe\\singboard-status-", hex.as_str())
}

/// Service names that differ only in case share one status pipe.
pub proof fn pipe_name_ignores_case(a: Seq<char>, b: Seq<char>)
    requires
        to_lowercase(a) == to_lowercase(b),
    ensures
        pipe_name_spec(a) == pipe_name_spec(b),
{
}

/// What the status endpoint reports.
pub struct Snapshot {
    pub version: u32,
    pub pid: u32,
    pub uptime_seconds: u64,
}

/// The version of the snapshot format.
pub const SNAPSHOT_VERSION: u32 = 1;

/// The uptime a client accepts from snapshot `s`, read from a pipe whose
/// server is `server_pid`, when it asked about the host `expected_pid`: only
/// from the expected process, both as the pipe's server and as the
/// snapshot's sender, and only in the known format.
pub open spec fn accepted_uptime_spec(s: Snapshot, server_pid: u32, expected_pid: u32) -> Option<u64> {
    if server_pid == expected_pid && s.version == SNAPSHOT_VERSION && s.pid == expected_pid {
        Some(s.uptime_seconds)
    } else {
        None
    }
}

impl Snapshot {
    /// The snapshot a host with process id `pid` reports after `uptime_seconds`.
    pub fn current(pid: u32, uptime_seconds: u64) -> (res: Snapshot)
        ensures
            res == (Snapshot { version: SNAPSHOT_VERSION, pid, uptime_seconds }),
    {
        Snapshot { version: SNAPSHOT_VERSION, pid, uptime_seconds }
    }

    /// The uptime a client accepts from this snapshot.
    pub fn accepted_uptime(&self, server_pid: u32, expected_pid: u32) -> (res: Option<u64>)
        ensures
            res == accepted_uptime_spec(*self, server_pid, expected_pid),
    {
        if server_pid != expected_pid {
            return None;
        }
        if self.version == SNAPSHOT_VERSION && self.pid == expected_pid {
            Some(self.uptime_seconds)
        } else {
            None
        }
    }
}

/// A client that asks the host it reached gets that host's uptime, and a
/// client that asks about another process gets nothing from it, whichever
/// process serves the pipe.
pub proof fn snapshot_reaches_only_its_process(pid: u32, uptime: u64, other: u32, server: u32)
    requires
        other != pid,
    ensures
        accepted_uptime_spec(Snapshot { version: SNAPSHOT_VERSION, pid, uptime_seconds: uptime }, pid, pid)
            == Some(uptime),
        accepted_uptime_spec(
            Snapshot { version: SNAPSHOT_VERSION, pid, uptime_seconds: uptime },
            server,
            other,
        ) is None,
{
}

} // verus!
