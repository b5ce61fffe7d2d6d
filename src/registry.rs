use vstd::prelude::*;

use crate::config::{protocol_kind, DeviceConfig, ProtocolKind, modbus_id};
use crate::models::{PlcDevice, WriteRequest};

verus! {

#[verifier::external_type_specification]
#[verifier::external_body]
#[verifier::reject_recursive_types(T)]
pub struct ExQueueSender<T>(tokio::sync::mpsc::Sender<T>);

#[verifier::external_type_specification]
#[verifier::external_body]
#[verifier::reject_recursive_types(T)]
pub struct ExReplySender<T>(tokio::sync::oneshot::Sender<T>);

#[verifier::external_type_specification]
#[verifier::external_body]
#[verifier::reject_recursive_types(T)]
pub struct ExReplyReceiver<T>(tokio::sync::oneshot::Receiver<T>);

#[verifier::external_type_specification]
#[verifier::external_body]
#[verifier::reject_recursive_types(T)]
pub struct ExJoinHandle<T>(tokio::task::JoinHandle<T>);

// The two error types below are named by the `Future` impls of the reply
// receiver and the task handle; Verus asks for them to be declared.
#[verifier::external_type_specification]
#[verifier::external_body]
pub struct ExRecvError(tokio::sync::oneshot::error::RecvError);

#[verifier::external_type_specification]
#[verifier::external_body]
pub struct ExJoinError(tokio::task::JoinError);

/// The outcome of a write as the device's poller reports it.
pub type WriteReply = Result<(), String>;

/// A write routed to one device's poller, with the single-use slot that
/// receives its outcome.
#[derive(Debug)]
pub struct WriteCommand {
    pub register: u16,
    pub value: u16,
    pub response: tokio::sync::oneshot::Sender<WriteReply>,
}

/// What the registry holds for one running device.
pub struct DeviceHandle {
    pub write_tx: tokio::sync::mpsc::Sender<WriteCommand>,
    pub task: tokio::task::JoinHandle<()>,
    pub config: DeviceConfig,
}

/// Failures of adding or removing a device.
#[derive(Clone, Copy, Debug, PartialEq, Eq, Structural)]
pub enum RegistryError {
    AlreadyExists,
    UnsupportedProtocol,
    NotFound,
}

/// Failures of a routed write.
#[derive(Clone, Debug)]
pub enum WriteError {
    UnknownDevice,
    NotWritable,
    /// The device's queue is full or its poller has exited.
    QueueUnavailable,
    /// The device rejected the write or the connection failed.
    Failed(String),
    /// The reply slot was dropped without an outcome.
    ChannelDropped,
}

/// Relies on tokio::sync::mpsc::Sender::try_send: enqueues `cmd` unless the
/// queue is full or closed, and reports whether it did.
#[verifier::external_body]
fn enqueue(tx: &tokio::sync::mpsc::Sender<WriteCommand>, cmd: WriteCommand) -> (r: bool) {
    tx.try_send(cmd).is_ok()
}

/// Relies on tokio::sync::oneshot::channel: a fresh single-use reply slot.
#[verifier::external_body]
fn reply_slot() -> (r: (tokio::sync::oneshot::Sender<WriteReply>, tokio::sync::oneshot::Receiver<WriteReply>)) {
    tokio::sync::oneshot::channel()
}

/// Relies on tokio::task::JoinHandle::abort: asks the runtime to cancel the
/// task. The cancellation is a side effect on the runtime that no value
/// here reflects, so nothing is stated of it.
#[verifier::external_body]
fn abort_task(task: &tokio::task::JoinHandle<()>) {
    task.abort()
}

/// Relies on tokio::task::JoinHandle::is_finished: whether the task has
/// completed at the moment of the call.
#[verifier::external_body]
fn task_finished(task: &tokio::task::JoinHandle<()>) -> (r: bool) {
    task.is_finished()
}

/// `d` names the device configured by `cfg`.
pub open spec fn describes(d: PlcDevice, cfg: DeviceConfig) -> bool {
    &&& d.id@ == cfg.id@
    &&& d.name@ == cfg.name@
    &&& d.address@ == cfg.address@
    &&& d.protocol@ == cfg.protocol@
}

/// The status entry of a device whose poller is (or is not) running.
pub open spec fn status_of(d: PlcDevice, cfg: DeviceConfig, running: bool) -> bool {
    describes(d, cfg) && d.is_connected == running
}

/// Status of one device, given whether its poller task is still running.
pub fn device_status(cfg: &DeviceConfig, running: bool) -> (d: PlcDevice)
    ensures
        status_of(d, *cfg, running),
{
    PlcDevice {
        id: cfg.id.clone(),
        name: cfg.name.clone(),
        address: cfg.address.clone(),
        protocol: cfg.protocol.clone(),
        is_connected: running,
    }
}

/// The command that carries `req`'s register and value to its device's
/// poller, with `response` as its reply slot.
pub fn write_command(req: &WriteRequest, response: tokio::sync::oneshot::Sender<WriteReply>) -> (c: WriteCommand)
    ensures
        c.register == req.register,
        c.value == req.value,
        c.response == response,
{
    WriteCommand { register: req.register, value: req.value, response }
}

/// The caller's view of a write, from the poller's reply (`None` when the
/// reply slot was dropped).
pub fn finish_write(reply: Option<WriteReply>) -> (r: Result<(), WriteError>)
    ensures
        r == (match reply {
            Some(Ok(())) => Ok(()),
            Some(Err(e)) => Err(WriteError::Failed(e)),
            None => Err(WriteError::ChannelDropped),
        }),
{
    match reply {
        Some(Ok(())) => Ok(()),
        Some(Err(e)) => Err(WriteError::Failed(e)),
        None => Err(WriteError::ChannelDropped),
    }
}

/// The registry's decision on adding a device with identifier `id` and
/// protocol identifier `protocol` to a registry holding `ids`.
pub open spec fn add_decision(ids: Seq<Seq<char>>, id: Seq<char>, protocol: Seq<char>) -> Result<ProtocolKind, RegistryError> {
    if ids.contains(id) {
        Err(RegistryError::AlreadyExists)
    } else if protocol == modbus_id() {
        Ok(ProtocolKind::Modbus)
    } else {
        Err(RegistryError::UnsupportedProtocol)
    }
}

/// The routing decision for a write to register `register` of device `id`,
/// before any queue is touched: `None` when the write may be enqueued.
pub open spec fn write_rejection(configs: Seq<DeviceConfig>, id: Seq<char>, register: u16) -> Option<WriteError> {
    if !(exists|i: int| 0 <= i < configs.len() && #[trigger] configs[i].id@ == id) {
        Some(WriteError::UnknownDevice)
    } else if exists|i: int| 0 <= i < configs.len() && #[trigger] configs[i].id@ == id && !configs[i].writable@.contains(register) {
        Some(WriteError::NotWritable)
    } else {
        None
    }
}

/// At most one poller per device: once an identifier has been admitted, a
/// second addition of it (concurrent additions are serialised by the
/// registry's lock) is refused with `AlreadyExists`, and the identifiers
/// stay distinct.
pub proof fn lemma_add_exclusive(ids: Seq<Seq<char>>, id: Seq<char>, p1: Seq<char>, p2: Seq<char>)
    requires
        ids.no_duplicates(),
        add_decision(ids, id, p1) is Ok,
    ensures
        ids.push(id).no_duplicates(),
        add_decision(ids.push(id), id, p2) == Err::<ProtocolKind, RegistryError>(RegistryError::AlreadyExists),
{
    let after = ids.push(id);
    assert(after[ids.len() as int] == id);
    assert forall|a: int, b: int| 0 <= a < b < after.len() implies after[a] != after[b] by {
        if b == ids.len() {
            assert(after[a] == ids[a]);
        }
    }
}

/// The running devices, by identifier; at most one handle per identifier.
pub struct Registry {
    entries: Vec<DeviceHandle>,
}

impl Registry {
    /// The configurations of the registered devices, in order of addition.
    pub closed spec fn configs(&self) -> Seq<DeviceConfig> {
        self.entries@.map_values(|h: DeviceHandle| h.config)
    }

    /// The identifiers of the registered devices.
    pub open spec fn ids(&self) -> Seq<Seq<char>> {
        self.configs().map_values(|c: DeviceConfig| c.id@)
    }

    /// No identifier is registered twice.
    pub open spec fn wf(&self) -> bool {
        self.ids().no_duplicates()
    }

    /// An empty registry.
    pub fn new() -> (r: Registry)
        ensures
            r.wf(),
            r.configs().len() == 0,
    {
        let r = Registry { entries: Vec::new() };
        assert(r.ids() =~= Seq::<Seq<char>>::empty());
        r
    }

    /// Number of registered devices.
    pub fn len(&self) -> (n: usize)
        ensures
            n == self.configs().len(),
    {
        self.entries.len()
    }

    /// The position of device `id`, if it is registered.
    pub fn position(&self, id: &String) -> (r: Option<usize>)
        ensures
            match r {
                Some(i) => i < self.configs().len() && self.configs()[i as int].id@ == id@,
                None => !self.ids().contains(id@),
            },
    {
        let mut i: usize = 0;
        while i < self.entries.len()
            invariant
                i <= self.entries@.len(),
                forall|k: int| 0 <= k < i ==> #[trigger] self.entries@[k].config.id@ != id@,
            decreases self.entries@.len() - i,
        {
            if self.entries[i].config.id == *id {
                return Some(i);
            }
            i = i + 1;
        }
        proof {
            if self.ids().contains(id@) {
                let k = choose|k: int| 0 <= k < self.ids().len() && self.ids()[k] == id@;
                assert(self.entries@[k].config.id@ == id@);
            }
        }
        None
    }

    /// Whether device `id` is registered.
    pub fn contains(&self, id: &String) -> (r: bool)
        ensures
            r == self.ids().contains(id@),
    {
        match self.position(id) {
            Some(i) => {
                assert(self.ids()[i as int] == id@);
                true
            },
            None => false,
        }
    }

    /// Checks, before anything is started, whether a device with `config`
    /// may be added, and selects its protocol client.
    pub fn check_add(&self, config: &DeviceConfig) -> (r: Result<ProtocolKind, RegistryError>)
        ensures
            r == add_decision(self.ids(), config.id@, config.protocol@),
    {
        if self.contains(&config.id) {
            Err(RegistryError::AlreadyExists)
        } else {
            match protocol_kind(&config.protocol) {
                Some(k) => Ok(k),
                None => Err(RegistryError::UnsupportedProtocol),
            }
        }
    }

    /// Registers a started device. A device whose identifier is already
    /// registered is refused and its task cancelled; the registry is then
    /// unchanged.
    pub fn add(&mut self, handle: DeviceHandle) -> (r: Result<(), RegistryError>)
        requires
            old(self).wf(),
        ensures
            final(self).wf(),
            old(self).ids().contains(handle.config.id@) ==> r == Err::<(), RegistryError>(RegistryError::AlreadyExists)
                && final(self).configs() == old(self).configs(),
            !old(self).ids().contains(handle.config.id@) ==> r is Ok
                && final(self).configs() == old(self).configs().push(handle.config),
    {
        if self.contains(&handle.config.id) {
            abort_task(&handle.task);
            return Err(RegistryError::AlreadyExists);
        }
        let ghost old_ids = self.ids();
        self.entries.push(handle);
        proof {
            assert(self.configs() =~= old(self).configs().push(handle.config));
            assert(self.ids() =~= old_ids.push(handle.config.id@));
            assert forall|a: int, b: int| 0 <= a < b < self.ids().len() implies self.ids()[a] != self.ids()[b] by {
                if b == old_ids.len() {
                    assert(old_ids[a] == self.ids()[a]);
                }
            }
        }
        Ok(())
    }

    /// Unregisters device `id` and cancels its poller task; returns the
    /// configuration it ran with.
    pub fn remove(&mut self, id: &String) -> (r: Result<DeviceConfig, RegistryError>)
        requires
            old(self).wf(),
        ensures
            final(self).wf(),
            !final(self).ids().contains(id@),
            !old(self).ids().contains(id@) ==> r == Err::<DeviceConfig, RegistryError>(RegistryError::NotFound)
                && final(self).configs() == old(self).configs(),
            old(self).ids().contains(id@) ==> exists|i: int|
                0 <= i < old(self).configs().len() && old(self).configs()[i].id@ == id@
                && r == Ok::<DeviceConfig, RegistryError>(old(self).configs()[i])
                && final(self).configs() == old(self).configs().remove(i),
    {
        match self.position(id) {
            None => Err(RegistryError::NotFound),
            Some(i) => {
                let ghost old_ids = self.ids();
                assert(old_ids[i as int] == id@);
                assert(old(self).configs()[i as int].id@ == id@);
                let handle = self.entries.remove(i);
                abort_task(&handle.task);
                proof {
                    assert(self.configs() =~= old(self).configs().remove(i as int));
                    assert(self.ids() =~= old_ids.remove(i as int));
                    assert forall|a: int, b: int| 0 <= a < b < self.ids().len() implies self.ids()[a] != self.ids()[b] by {
                        let oa = if a < i { a } else { a + 1 };
                        let ob = if b < i { b } else { b + 1 };
                        assert(self.ids()[a] == old_ids[oa]);
                        assert(self.ids()[b] == old_ids[ob]);
                    }
                    if self.ids().contains(id@) {
                        let k = choose|k: int| 0 <= k < self.ids().len() && self.ids()[k] == id@;
                        let ok = if k < i { k } else { k + 1 };
                        assert(old_ids[ok] == id@);
                        assert(old_ids[i as int] == id@);
                    }
                }
                Ok(handle.config)
            },
        }
    }

    /// A snapshot of every registered device with the liveness of its
    /// poller task.
    pub fn list(&self) -> (r: Vec<PlcDevice>)
        ensures
            r@.len() == self.configs().len(),
            forall|i: int| 0 <= i < r@.len() ==> describes(#[trigger] r@[i], self.configs()[i]),
    {
        let mut r: Vec<PlcDevice> = Vec::new();
        let mut i: usize = 0;
        while i < self.entries.len()
            invariant
                i <= self.entries@.len(),
                r@.len() == i,
                forall|k: int| 0 <= k < i ==> describes(#[trigger] r@[k], self.configs()[k]),
            decreases self.entries@.len() - i,
        {
            let running = !task_finished(&self.entries[i].task);
            let d = device_status(&self.entries[i].config, running);
            r.push(d);
            proof {
                assert(status_of(r@[i as int], self.configs()[i as int], running));
            }
            i = i + 1;
        }
        r
    }

    /// Routes a write to its device's queue. Unknown devices and registers
    /// outside the writable set are refused before any queue is touched;
    /// otherwise the command built by `write_command` from `req` is offered
    /// to the queue with a fresh reply slot, whose receiving end is returned
    /// when the queue took it.
    pub fn route_write(&self, req: &WriteRequest) -> (r: Result<tokio::sync::oneshot::Receiver<WriteReply>, WriteError>)
        requires
            self.wf(),
        ensures
            match write_rejection(self.configs(), req.device_id@, req.register) {
                Some(e) => r == Err::<tokio::sync::oneshot::Receiver<WriteReply>, WriteError>(e),
                None => r is Ok || r == Err::<tokio::sync::oneshot::Receiver<WriteReply>, WriteError>(WriteError::QueueUnavailable),
            },
    {
        let i = match self.position(&req.device_id) {
            None => {
                proof {
                    if exists|k: int| 0 <= k < self.configs().len() && #[trigger] self.configs()[k].id@ == req.device_id@ {
                        let k = choose|k: int| 0 <= k < self.configs().len() && #[trigger] self.configs()[k].id@ == req.device_id@;
                        assert(self.ids()[k] == req.device_id@);
                    }
                }
                return Err(WriteError::UnknownDevice);
            },
            Some(i) => i,
        };
        let handle = &self.entries[i];
        proof {
            assert forall|k: int| 0 <= k < self.configs().len() && #[trigger] self.configs()[k].id@ == req.device_id@ implies k == i by {
                assert(self.ids()[k] == self.ids()[i as int]);
            }
        }
        if !handle.config.is_writable(req.register) {
            return Err(WriteError::NotWritable);
        }
        let (tx, rx) = reply_slot();
        let cmd = write_command(req, tx);
        if enqueue(&handle.write_tx, cmd) {
            Ok(rx)
        } else {
            Err(WriteError::QueueUnavailable)
        }
    }
}

} // verus!
