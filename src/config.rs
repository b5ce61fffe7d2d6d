use vstd::prelude::*;

verus! {

/// Top-level server configuration.
#[derive(Clone, Debug)]
pub struct AppConfig {
    pub server: ServerConfig,
    pub database: DatabaseConfig,
    pub devices: Vec<DeviceConfig>,
}

/// HTTP server bind address and port.
#[derive(Clone, Debug)]
pub struct ServerConfig {
    pub host: String,
    pub port: u16,
}

/// Location of the persistence store.
#[derive(Clone, Debug)]
pub struct DatabaseConfig {
    pub path: String,
}

/// One field device: where it lives, how it is spoken to, which register
/// window is polled and which registers accept writes.
#[derive(Clone, Debug)]
pub struct DeviceConfig {
    pub id: String,
    pub name: String,
    pub address: String,
    pub protocol: String,
    pub poll_rate_ms: u64,
    pub register_start: u16,
    pub register_count: u16,
    pub writable: Vec<u16>,
}

/// The wire protocols a poller can be started with.
#[derive(Clone, Copy, Debug, PartialEq, Eq, Structural)]
pub enum ProtocolKind {
    Modbus,
}

/// The identifier under which the Modbus-TCP client is selected.
pub open spec fn modbus_id() -> Seq<char> {
    "modbus"@
}

/// Poll period of a device added without one, in milliseconds.
pub const DEFAULT_POLL_RATE_MS: u64 = 1000;

/// The poll period asked for, or the default one.
pub fn poll_rate_or_default(requested: Option<u64>) -> (r: u64)
    ensures
        r == (match requested {
            Some(ms) => ms,
            None => DEFAULT_POLL_RATE_MS,
        }),
{
    match requested {
        Some(ms) => ms,
        None => DEFAULT_POLL_RATE_MS,
    }
}

impl DeviceConfig {
    /// Whether `register` is in the device's writable set.
    pub fn is_writable(&self, register: u16) -> (r: bool)
        ensures
            r == self.writable@.contains(register),
    {
        let mut i: usize = 0;
        while i < self.writable.len()
            invariant
                i <= self.writable@.len(),
                forall|k: int| 0 <= k < i ==> self.writable@[k] != register,
            decreases self.writable@.len() - i,
        {
            if self.writable[i] == register {
                return true;
            }
            i = i + 1;
        }
        false
    }
}

/// Selects the protocol client for a protocol identifier; `None` for an
/// identifier that no client implements.
pub fn protocol_kind(protocol: &String) -> (r: Option<ProtocolKind>)
    ensures
        r == (if protocol@ == modbus_id() { Some(ProtocolKind::Modbus) } else { None::<ProtocolKind> }),
{
    let modbus = String::from_str("modbus");
    if *protocol == modbus {
        Some(ProtocolKind::Modbus)
    } else {
        None
    }
}

} // verus!
