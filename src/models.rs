use vstd::prelude::*;

verus! {

/// One reading: the value of one register of one device at one instant
/// (milliseconds since the Unix epoch).
#[derive(Clone, Debug)]
pub struct PlcData {
    pub device_id: String,
    pub register: u16,
    pub value: u16,
    pub timestamp_ms: i64,
}

/// Status of a registered device; `is_connected` tells whether its poller
/// task is still running.
#[derive(Clone, Debug)]
pub struct PlcDevice {
    pub id: String,
    pub name: String,
    pub address: String,
    pub protocol: String,
    pub is_connected: bool,
}

/// A request to write `value` into `register` of device `device_id`.
#[derive(Clone, Debug)]
pub struct WriteRequest {
    pub device_id: String,
    pub register: u16,
    pub value: u16,
}

/// Parameters of a history query.
#[derive(Clone, Debug)]
pub struct HistoryParams {
    pub device_id: String,
    pub limit: Option<i64>,
}

/// Number of readings a history query returns when it names no limit.
pub const DEFAULT_HISTORY_LIMIT: i64 = 100;

impl HistoryParams {
    /// The limit asked for, or the default one.
    pub fn effective_limit(&self) -> (r: i64)
        ensures
            r == (match self.limit {
                Some(l) => l,
                None => DEFAULT_HISTORY_LIMIT,
            }),
    {
        match self.limit {
            Some(l) => l,
            None => DEFAULT_HISTORY_LIMIT,
        }
    }
}

} // verus!
