//! The agent's live status, published to the Screen Share window.
use vstd::prelude::*;
use crate::text::{push_str, string_of};

verus! {

/// What the agent reports about itself.
pub struct AgentStatus {
    pub system_id: String,
    /// `online`, `connecting`, `offline` or `error`.
    pub status: String,
    pub backend_connected: bool,
    pub relay_connected: bool,
    pub last_heartbeat_ms: u64,
    pub device_name: String,
    pub version: String,
    pub environment: String,
}

impl AgentStatus {
    /// The status at start-up: connecting, nothing connected yet. Without an
    /// environment name the agent reports `Production`.
    pub fn new(system_id: &str, device_name: &str, environment: Option<&str>, version: &str) -> (s:
        Self)
        ensures
            s.system_id@ == system_id@,
            s.status@ == "connecting"@,
            !s.backend_connected,
            !s.relay_connected,
            s.last_heartbeat_ms == 0,
            s.device_name@ == device_name@,
            s.version@ == version@,
            s.environment@ == (match environment {
                Some(e) => e@,
                None => "Production"@,
            }),
    {
        let env = match environment {
            Some(e) => String::from_str(e),
            None => String::from_str("Production"),
        };
        AgentStatus {
            system_id: String::from_str(system_id),
            status: String::from_str("connecting"),
            backend_connected: false,
            relay_connected: false,
            last_heartbeat_ms: 0,
            device_name: String::from_str(device_name),
            version: String::from_str(version),
            environment: env,
        }
    }
}

/// Relay connectivity changed: online (heartbeat time set to `now_ms`) when
/// connected, offline otherwise.
pub fn set_relay_state(status: &mut AgentStatus, connected: bool, now_ms: u64)
    ensures
        final(status).relay_connected == connected,
        final(status).status@ == (if connected {
            "online"@
        } else {
            "offline"@
        }),
        final(status).last_heartbeat_ms == (if connected {
            now_ms
        } else {
            old(status).last_heartbeat_ms
        }),
        final(status).system_id == old(status).system_id,
        final(status).backend_connected == old(status).backend_connected,
        final(status).device_name == old(status).device_name,
        final(status).version == old(status).version,
        final(status).environment == old(status).environment,
{
    status.relay_connected = connected;
    if connected {
        status.status = String::from_str("online");
        status.last_heartbeat_ms = now_ms;
    } else {
        status.status = String::from_str("offline");
    }
}

/// A heartbeat went through at `now_ms`.
pub fn touch_heartbeat(status: &mut AgentStatus, now_ms: u64)
    ensures
        final(status).last_heartbeat_ms == now_ms,
        final(status).relay_connected == old(status).relay_connected,
        final(status).status == old(status).status,
        final(status).system_id == old(status).system_id,
        final(status).backend_connected == old(status).backend_connected,
        final(status).device_name == old(status).device_name,
        final(status).version == old(status).version,
        final(status).environment == old(status).environment,
{
    status.last_heartbeat_ms = now_ms;
}

/// The outcome of one heartbeat request to the device registry.
#[derive(Clone, Copy, Debug, PartialEq, Eq, Structural)]
pub enum BackendReply {
    /// The registry answered with a success status.
    Success,
    /// It answered with an error status.
    Failure,
    /// The request did not go through.
    Unreachable,
}

/// Records a registry heartbeat: success marks the backend connected and
/// refreshes the heartbeat time, an unreachable registry marks it
/// disconnected, an error status changes nothing.
pub fn record_backend_reply(status: &mut AgentStatus, reply: BackendReply, now_ms: u64)
    ensures
        final(status).backend_connected == (match reply {
            BackendReply::Success => true,
            BackendReply::Unreachable => false,
            BackendReply::Failure => old(status).backend_connected,
        }),
        final(status).last_heartbeat_ms == (if reply == BackendReply::Success {
            now_ms
        } else {
            old(status).last_heartbeat_ms
        }),
        final(status).relay_connected == old(status).relay_connected,
        final(status).status == old(status).status,
        final(status).system_id == old(status).system_id,
        final(status).device_name == old(status).device_name,
        final(status).version == old(status).version,
        final(status).environment == old(status).environment,
{
    match reply {
        BackendReply::Success => {
            status.backend_connected = true;
            touch_heartbeat(status, now_ms);
        },
        BackendReply::Unreachable => {
            status.backend_connected = false;
        },
        BackendReply::Failure => {},
    }
}

/// The body the agent's local health endpoint answers with.
pub fn local_health_json(system_id: &str) -> (s: String)
    ensures
        s@ == "{\"running\": true, \"system_id\":\""@ + system_id@ + "\", \"status\": \"online\"}"@,
{
    let mut out: Vec<char> = Vec::new();
    push_str(&mut out, "{\"running\": true, \"system_id\":\"");
    push_str(&mut out, system_id);
    push_str(&mut out, "\", \"status\": \"online\"}");
    string_of(out.as_slice())
}

} // verus!
