use vstd::prelude::*;

use crate::config::DeviceConfig;
use crate::models::PlcData;

verus! {

/// Delay between two connection attempts of a device poller, in milliseconds.
pub const RECONNECT_DELAY_MS: u64 = 5000;

/// Where a device poller stands in its connection lifecycle.
#[derive(Clone, Copy, Debug, PartialEq, Eq, Structural)]
pub enum PollerState {
    Disconnected,
    Connecting,
    Polling,
}

/// What happened since the poller last decided. Outcomes of client calls
/// carry, after a failure, whether the client still reports itself connected.
#[derive(Debug)]
pub enum PollerEvent {
    /// The reconnect delay has elapsed (or the task has just started).
    RetryElapsed,
    ConnectDone(Result<(), String>),
    /// The poll timer fired.
    Tick,
    ReadDone(Result<Vec<u16>, String>, bool),
    /// A write command (register, value) was taken off the device's queue;
    /// the driver takes commands off only while the poller is polling.
    WriteArrived(u16, u16),
    WriteDone(Result<(), String>, bool),
}

/// What the poller asks its driver to do, in order.
#[derive(Debug)]
pub enum PollerAction {
    Connect,
    /// Arm the periodic poll timer with this period in milliseconds.
    StartTimer(u64),
    /// Read `count` registers starting at `start`.
    Read(u16, u16),
    /// Persist and broadcast these readings.
    Publish(Vec<PlcData>),
    /// Write `value` into `register`.
    Write(u16, u16),
    /// Complete the pending write command's reply slot.
    Reply(Result<(), String>),
    /// Wait this many milliseconds, then report `RetryElapsed`.
    Sleep(u64),
}

/// `rs` holds one reading per value, in order, for registers `start`,
/// `start + 1`, ... (in the 16-bit register space), all taken at `ts`.
pub open spec fn readings_of(rs: Seq<PlcData>, id: Seq<char>, start: u16, values: Seq<u16>, ts: i64) -> bool {
    &&& rs.len() == values.len()
    &&& forall|i: int|
        #![trigger rs[i]]
        0 <= i < rs.len() ==> {
            &&& rs[i].device_id@ == id
            &&& rs[i].register == (start as int + i) % 0x10000
            &&& rs[i].value == values[i]
            &&& rs[i].timestamp_ms == ts
        }
}

/// Whether a failed client call leaves the connection unusable.
pub open spec fn connection_lost<T>(r: Result<T, String>, connected: bool) -> bool {
    r is Err && !connected
}

/// The state the poller moves to on `e` from `s`.
pub open spec fn next_state(s: PollerState, e: PollerEvent) -> PollerState {
    match e {
        PollerEvent::RetryElapsed => if s == PollerState::Disconnected {
            PollerState::Connecting
        } else {
            s
        },
        PollerEvent::ConnectDone(r) => if s == PollerState::Connecting {
            if r is Ok {
                PollerState::Polling
            } else {
                PollerState::Disconnected
            }
        } else {
            s
        },
        PollerEvent::ReadDone(r, connected) => if s == PollerState::Polling && connection_lost(r, connected) {
            PollerState::Disconnected
        } else {
            s
        },
        PollerEvent::WriteDone(r, connected) => if s == PollerState::Polling && connection_lost(r, connected) {
            PollerState::Disconnected
        } else {
            s
        },
        _ => s,
    }
}

/// The actions the poller of device `cfg` asks for on `e` from `s`, where
/// readings taken are stamped `ts`.
pub open spec fn expected_actions(
    cfg: DeviceConfig,
    s: PollerState,
    e: PollerEvent,
    ts: i64,
    acts: Seq<PollerAction>,
) -> bool {
    match e {
        PollerEvent::RetryElapsed => if s == PollerState::Disconnected {
            acts =~= seq![PollerAction::Connect]
        } else {
            acts.len() == 0
        },
        PollerEvent::ConnectDone(r) => if s != PollerState::Connecting {
            acts.len() == 0
        } else if r is Ok {
            acts =~= seq![PollerAction::StartTimer(cfg.poll_rate_ms)]
        } else {
            acts =~= seq![PollerAction::Sleep(RECONNECT_DELAY_MS)]
        },
        PollerEvent::Tick => if s == PollerState::Polling {
            acts =~= seq![PollerAction::Read(cfg.register_start, cfg.register_count)]
        } else {
            acts.len() == 0
        },
        PollerEvent::ReadDone(r, connected) => if s != PollerState::Polling {
            acts.len() == 0
        } else {
            match r {
                Ok(values) => acts.len() == 1 && match acts[0] {
                    PollerAction::Publish(rs) => readings_of(rs@, cfg.id@, cfg.register_start, values@, ts),
                    _ => false,
                },
                Err(_) => if connected {
                    acts.len() == 0
                } else {
                    acts =~= seq![PollerAction::Sleep(RECONNECT_DELAY_MS)]
                },
            }
        },
        PollerEvent::WriteArrived(register, value) => if s == PollerState::Polling {
            acts =~= seq![PollerAction::Write(register, value)]
        } else {
            acts.len() == 0
        },
        PollerEvent::WriteDone(r, connected) => if s == PollerState::Polling && connection_lost(r, connected) {
            acts =~= seq![PollerAction::Reply(r), PollerAction::Sleep(RECONNECT_DELAY_MS)]
        } else {
            acts =~= seq![PollerAction::Reply(r)]
        },
    }
}

/// Number of write replies among `acts`.
pub open spec fn reply_count(acts: Seq<PollerAction>) -> nat
    decreases acts.len(),
{
    if acts.len() == 0 {
        0
    } else {
        reply_count(acts.drop_last()) + if acts.last() is Reply {
            1nat
        } else {
            0nat
        }
    }
}

/// The state reached from `s` after the events `evs`, in order.
pub open spec fn run(s: PollerState, evs: Seq<PollerEvent>) -> PollerState
    decreases evs.len(),
{
    if evs.len() == 0 {
        s
    } else {
        next_state(run(s, evs.drop_last()), evs.last())
    }
}

/// `n` connection attempts that each fail with `cause`, every one after a
/// reconnect delay.
pub open spec fn failed_attempts(n: nat, cause: String) -> Seq<PollerEvent>
    decreases n,
{
    if n == 0 {
        Seq::empty()
    } else {
        failed_attempts((n - 1) as nat, cause) + seq![
            PollerEvent::RetryElapsed,
            PollerEvent::ConnectDone(Err(cause)),
        ]
    }
}

/// Every write command gets exactly one reply: a command taken off the
/// queue while polling is handed to the client, the client's outcome gets
/// exactly one reply, and no other event produces a reply. Commands wait in
/// the queue while the device reconnects; a poller that is not polling
/// neither serves nor answers one.
pub proof fn lemma_one_reply_per_write(cfg: DeviceConfig, s: PollerState, e: PollerEvent, ts: i64, acts: Seq<PollerAction>)
    requires
        expected_actions(cfg, s, e, ts, acts),
    ensures
        reply_count(acts) == (match e {
            PollerEvent::WriteDone(_, _) => 1nat,
            _ => 0nat,
        }),
        e is WriteArrived && s == PollerState::Polling ==> acts.len() == 1 && acts[0] is Write,
{
    reveal_with_fuel(reply_count, 3);
    if acts.len() == 2 {
        assert(acts.drop_last() =~= seq![acts[0]]);
    }
    if acts.len() == 1 {
        assert(acts.drop_last() =~= Seq::<PollerAction>::empty());
    }
}

/// The client's write operation is asked for only when a write command has
/// been taken off the device's queue, and then with that command's register
/// and value: a write the router refused never reaches the client.
pub proof fn lemma_write_only_on_command(cfg: DeviceConfig, s: PollerState, e: PollerEvent, ts: i64, acts: Seq<PollerAction>, k: int)
    requires
        expected_actions(cfg, s, e, ts, acts),
        0 <= k < acts.len(),
        acts[k] is Write,
    ensures
        e is WriteArrived,
        acts[k] == (match e {
            PollerEvent::WriteArrived(register, value) => PollerAction::Write(register, value),
            _ => acts[k],
        }),
{
}

/// Running `a` then `b` is running their concatenation.
pub proof fn lemma_run_concat(s: PollerState, a: Seq<PollerEvent>, b: Seq<PollerEvent>)
    ensures
        run(s, a + b) == run(run(s, a), b),
    decreases b.len(),
{
    if b.len() == 0 {
        assert(a + b =~= a);
    } else {
        lemma_run_concat(s, a, b.drop_last());
        assert((a + b).drop_last() =~= a + b.drop_last());
        assert((a + b).last() == b.last());
    }
}

/// Failed connection attempts leave a disconnected poller disconnected.
pub proof fn lemma_failed_attempts(n: nat, cause: String)
    ensures
        run(PollerState::Disconnected, failed_attempts(n, cause)) == PollerState::Disconnected,
    decreases n,
{
    if n > 0 {
        let pre = failed_attempts((n - 1) as nat, cause);
        let pair = seq![PollerEvent::RetryElapsed, PollerEvent::ConnectDone(Err(cause))];
        lemma_failed_attempts((n - 1) as nat, cause);
        lemma_run_concat(PollerState::Disconnected, pre, pair);
        reveal_with_fuel(run, 3);
        assert(pair.drop_last() =~= seq![PollerEvent::RetryElapsed]);
        assert(pair.drop_last().drop_last() =~= Seq::<PollerEvent>::empty());
    }
}

/// After a transport failure while polling, the poller disconnects, and
/// however many reconnection attempts fail, the first one that succeeds
/// brings it back to polling: the device need not be added again.
pub proof fn lemma_reconnects(fault: PollerEvent, n: nat, cause: String)
    requires
        match fault {
            PollerEvent::ReadDone(r, connected) => connection_lost(r, connected),
            PollerEvent::WriteDone(r, connected) => connection_lost(r, connected),
            _ => false,
        },
    ensures
        next_state(PollerState::Polling, fault) == PollerState::Disconnected,
        run(
            PollerState::Polling,
            seq![fault] + failed_attempts(n, cause) + seq![
                PollerEvent::RetryElapsed,
                PollerEvent::ConnectDone(Ok(())),
            ],
        ) == PollerState::Polling,
{
    let first = seq![fault];
    let mid = failed_attempts(n, cause);
    let last = seq![PollerEvent::RetryElapsed, PollerEvent::ConnectDone(Ok(()))];
    reveal_with_fuel(run, 3);
    assert(first.drop_last() =~= Seq::<PollerEvent>::empty());
    assert(run(PollerState::Polling, first) == PollerState::Disconnected);
    lemma_run_concat(PollerState::Polling, first, mid);
    lemma_failed_attempts(n, cause);
    lemma_run_concat(PollerState::Polling, first + mid, last);
    assert(last.drop_last() =~= seq![PollerEvent::RetryElapsed]);
    assert(last.drop_last().drop_last() =~= Seq::<PollerEvent>::empty());
}

/// Builds the readings of one poll: one per value, for consecutive
/// registers from `start`, all stamped `ts`.
pub fn readings_at(device_id: &String, start: u16, values: &Vec<u16>, ts: i64) -> (rs: Vec<PlcData>)
    ensures
        readings_of(rs@, device_id@, start, values@, ts),
{
    let mut rs: Vec<PlcData> = Vec::new();
    let mut register: u16 = start;
    let mut i: usize = 0;
    while i < values.len()
        invariant
            i <= values@.len(),
            rs@.len() == i,
            register == (start as int + i) % 0x10000,
            forall|k: int|
                #![trigger rs@[k]]
                0 <= k < i ==> {
                    &&& rs@[k].device_id@ == device_id@
                    &&& rs@[k].register == (start as int + k) % 0x10000
                    &&& rs@[k].value == values@[k]
                    &&& rs@[k].timestamp_ms == ts
                },
        decreases values@.len() - i,
    {
        rs.push(PlcData { device_id: device_id.clone(), register, value: values[i], timestamp_ms: ts });
        register = if register == 0xffff {
            0
        } else {
            register + 1
        };
        i = i + 1;
    }
    rs
}

/// Relies on chrono's conversion of std::time::SystemTime into DateTime<Utc>
/// (which accepts clocks set before 1970) and DateTime::timestamp_millis: the
/// current time in milliseconds since the Unix epoch. Nothing is known of
/// its value.
#[verifier::external_body]
fn now_millis() -> (r: i64) {
    chrono::DateTime::<chrono::Utc>::from(std::time::SystemTime::now()).timestamp_millis()
}

/// The per-device poller: the connect, poll, fault, reconnect cycle, with
/// write commands interleaved between poll ticks. It owns no connection; its
/// driver performs the actions it returns and reports what came of them.
#[derive(Debug)]
pub struct Poller {
    pub config: DeviceConfig,
    pub state: PollerState,
}

impl Poller {
    /// A poller for `config`, not yet connected.
    pub fn new(config: DeviceConfig) -> (p: Poller)
        ensures
            p.config == config,
            p.state == PollerState::Disconnected,
    {
        Poller { config, state: PollerState::Disconnected }
    }

    /// Decides on `event`; readings taken are stamped `ts`.
    pub fn step_at(&mut self, event: PollerEvent, ts: i64) -> (acts: Vec<PollerAction>)
        ensures
            final(self).config == old(self).config,
            final(self).state == next_state(old(self).state, event),
            expected_actions(old(self).config, old(self).state, event, ts, acts@),
    {
        let s = self.state;
        match event {
            PollerEvent::RetryElapsed => {
                if s == PollerState::Disconnected {
                    self.state = PollerState::Connecting;
                    vec![PollerAction::Connect]
                } else {
                    Vec::new()
                }
            },
            PollerEvent::ConnectDone(r) => {
                if s != PollerState::Connecting {
                    Vec::new()
                } else if r.is_ok() {
                    self.state = PollerState::Polling;
                    vec![PollerAction::StartTimer(self.config.poll_rate_ms)]
                } else {
                    self.state = PollerState::Disconnected;
                    vec![PollerAction::Sleep(RECONNECT_DELAY_MS)]
                }
            },
            PollerEvent::Tick => {
                if s == PollerState::Polling {
                    vec![PollerAction::Read(self.config.register_start, self.config.register_count)]
                } else {
                    Vec::new()
                }
            },
            PollerEvent::ReadDone(r, connected) => {
                if s != PollerState::Polling {
                    Vec::new()
                } else {
                    match r {
                        Ok(values) => {
                            let rs = readings_at(&self.config.id, self.config.register_start, &values, ts);
                            vec![PollerAction::Publish(rs)]
                        },
                        Err(_) => {
                            if connected {
                                Vec::new()
                            } else {
                                self.state = PollerState::Disconnected;
                                vec![PollerAction::Sleep(RECONNECT_DELAY_MS)]
                            }
                        },
                    }
                }
            },
            PollerEvent::WriteArrived(register, value) => {
                if s == PollerState::Polling {
                    vec![PollerAction::Write(register, value)]
                } else {
                    Vec::new()
                }
            },
            PollerEvent::WriteDone(r, connected) => {
                if s == PollerState::Polling && r.is_err() && !connected {
                    self.state = PollerState::Disconnected;
                    vec![PollerAction::Reply(r), PollerAction::Sleep(RECONNECT_DELAY_MS)]
                } else {
                    vec![PollerAction::Reply(r)]
                }
            },
        }
    }

    /// Decides on `event`, stamping readings taken with the current time.
    pub fn step(&mut self, event: PollerEvent) -> (acts: Vec<PollerAction>)
        ensures
            final(self).config == old(self).config,
            final(self).state == next_state(old(self).state, event),
            exists|ts: i64| expected_actions(old(self).config, old(self).state, event, ts, acts@),
    {
        let ts = now_millis();
        self.step_at(event, ts)
    }
}

} // verus!
