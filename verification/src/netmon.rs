//! The network monitor's heartbeat.

use vstd::prelude::*;

verus! {

/// Seconds between two heartbeats.
pub const HEARTBEAT_INTERVAL_SECS: u64 = 5;

/// An event of the network monitor.
#[derive(Debug, Clone)]
pub struct NetEvent {
    pub timestamp_ms: i64,
    pub description: String,
}

/// The description of a heartbeat.
pub open spec fn heartbeat_description() -> Seq<char> {
    "Heartbeat"@
}

/// The heartbeat for the given time, in milliseconds since the epoch.
pub fn heartbeat(timestamp_ms: i64) -> (event: NetEvent)
    ensures
        event.timestamp_ms == timestamp_ms,
        event.description@ == heartbeat_description(),
{
    NetEvent { timestamp_ms, description: "Heartbeat".to_owned() }
}

} // verus!
