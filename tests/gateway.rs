use plc_gateway::config::{poll_rate_or_default, protocol_kind, DeviceConfig, ProtocolKind};
use plc_gateway::discovery::{collect_found, default_scan_targets, probe_plan, reachable_device, scan_inputs};
use plc_gateway::models::{HistoryParams, WriteRequest};
use plc_gateway::poller::{readings_at, Poller, PollerAction, PollerEvent, PollerState, RECONNECT_DELAY_MS};
use plc_gateway::store::{device_from_row, device_row};
use plc_gateway::registry::{
    device_status, finish_write, write_command, DeviceHandle, Registry, RegistryError, WriteCommand, WriteError,
};

fn plc01() -> DeviceConfig {
    DeviceConfig {
        id: "plc-01".to_string(),
        name: "Reactor".to_string(),
        address: "127.0.0.1:5020".to_string(),
        protocol: "modbus".to_string(),
        poll_rate_ms: 1000,
        register_start: 1028,
        register_count: 8,
        writable: vec![1032],
    }
}

fn runtime() -> tokio::runtime::Runtime {
    tokio::runtime::Builder::new_current_thread().enable_all().build().unwrap()
}

fn idle_handle(config: DeviceConfig) -> (DeviceHandle, tokio::sync::mpsc::Receiver<WriteCommand>) {
    let (write_tx, write_rx) = tokio::sync::mpsc::channel(32);
    let task = tokio::spawn(std::future::pending::<()>());
    (DeviceHandle { write_tx, task, config }, write_rx)
}

fn write_req(device: &str, register: u16, value: u16) -> WriteRequest {
    WriteRequest { device_id: device.to_string(), register, value }
}

fn polling(config: DeviceConfig) -> Poller {
    let mut p = Poller::new(config);
    p.step(PollerEvent::RetryElapsed);
    p.step(PollerEvent::ConnectDone(Ok(())));
    assert_eq!(p.state, PollerState::Polling);
    p
}

#[test]
fn poll_tick_yields_one_reading_per_register() {
    let mut p = Poller::new(plc01());
    assert!(matches!(p.step(PollerEvent::RetryElapsed)[..], [PollerAction::Connect]));
    assert_eq!(p.state, PollerState::Connecting);
    assert!(matches!(p.step(PollerEvent::ConnectDone(Ok(())))[..], [PollerAction::StartTimer(1000)]));
    assert!(matches!(p.step(PollerEvent::Tick)[..], [PollerAction::Read(1028, 8)]));
    let values: Vec<u16> = vec![10, 1013, 42, 5, 1, 50, 7, 65];
    let acts = p.step(PollerEvent::ReadDone(Ok(values.clone()), true));
    assert_eq!(acts.len(), 1);
    let PollerAction::Publish(rs) = &acts[0] else { panic!("expected readings") };
    assert_eq!(rs.len(), 8);
    for (i, r) in rs.iter().enumerate() {
        assert_eq!(r.device_id, "plc-01");
        assert_eq!(r.register, 1028 + i as u16);
        assert_eq!(r.value, values[i]);
        assert_eq!(r.timestamp_ms, rs[0].timestamp_ms);
    }
    // stamped with the current time, not a constant
    assert!(rs[0].timestamp_ms > 1_600_000_000_000);
    assert_eq!(p.state, PollerState::Polling);
}

#[test]
fn write_to_writable_register_is_queued_and_other_is_refused() {
    runtime().block_on(async {
        let mut reg = Registry::new();
        let (h, mut write_rx) = idle_handle(plc01());
        assert!(reg.add(h).is_ok());
        let rx = reg.route_write(&write_req("plc-01", 1032, 77));
        assert!(rx.is_ok());
        let cmd = write_rx.try_recv().unwrap();
        assert_eq!((cmd.register, cmd.value), (1032, 77));
        let refused = reg.route_write(&write_req("plc-01", 1030, 5));
        assert!(matches!(refused, Err(WriteError::NotWritable)));
        // nothing reached the device's queue, so the client is never called
        assert!(write_rx.try_recv().is_err());
        // the poller replies to the queued command and the caller sees success
        let mut p = polling(plc01());
        assert!(matches!(p.step(PollerEvent::WriteArrived(cmd.register, cmd.value))[..], [PollerAction::Write(1032, 77)]));
        let acts = p.step(PollerEvent::WriteDone(Ok(()), true));
        let [PollerAction::Reply(reply)] = &acts[..] else { panic!("expected one reply") };
        cmd.response.send(reply.clone()).unwrap();
        assert!(finish_write(rx.unwrap().await.ok()).is_ok());
    });
}

#[test]
fn write_to_unknown_device_is_refused() {
    runtime().block_on(async {
        let mut reg = Registry::new();
        let (h, _rx) = idle_handle(plc01());
        reg.add(h).unwrap();
        assert!(matches!(reg.route_write(&write_req("plc-02", 1032, 1)), Err(WriteError::UnknownDevice)));
    });
}

#[test]
fn write_to_closed_queue_is_unavailable() {
    runtime().block_on(async {
        let mut reg = Registry::new();
        let (h, rx) = idle_handle(plc01());
        drop(rx);
        reg.add(h).unwrap();
        assert!(matches!(reg.route_write(&write_req("plc-01", 1032, 1)), Err(WriteError::QueueUnavailable)));
    });
}

#[test]
fn second_add_of_same_id_fails() {
    runtime().block_on(async {
        let mut reg = Registry::new();
        let (h1, _r1) = idle_handle(plc01());
        let (h2, _r2) = idle_handle(plc01());
        assert_eq!(reg.check_add(&plc01()), Ok(ProtocolKind::Modbus));
        assert!(reg.add(h1).is_ok());
        assert_eq!(reg.check_add(&plc01()), Err(RegistryError::AlreadyExists));
        assert_eq!(reg.add(h2), Err(RegistryError::AlreadyExists));
        assert_eq!(reg.len(), 1);
        assert!(reg.contains(&"plc-01".to_string()));
    });
}

#[test]
fn unsupported_protocol_is_refused() {
    let reg = Registry::new();
    let mut cfg = plc01();
    cfg.protocol = "opcua".to_string();
    assert_eq!(reg.check_add(&cfg), Err(RegistryError::UnsupportedProtocol));
    assert_eq!(protocol_kind(&"modbus".to_string()), Some(ProtocolKind::Modbus));
    assert_eq!(protocol_kind(&"Modbus".to_string()), None);
}

#[test]
fn remove_then_re_add() {
    runtime().block_on(async {
        let mut reg = Registry::new();
        let (h, _r) = idle_handle(plc01());
        reg.add(h).unwrap();
        let removed = reg.remove(&"plc-01".to_string()).unwrap();
        assert_eq!(removed.id, "plc-01");
        assert_eq!(reg.len(), 0);
        assert!(matches!(reg.remove(&"plc-01".to_string()), Err(RegistryError::NotFound)));
        let (h2, _r2) = idle_handle(plc01());
        assert!(reg.add(h2).is_ok());
    });
}

#[test]
fn removal_completes_in_flight_write() {
    runtime().block_on(async {
        let mut reg = Registry::new();
        let (write_tx, mut write_rx) = tokio::sync::mpsc::channel::<WriteCommand>(32);
        // a poller that takes the command and never finishes servicing it
        let task = tokio::spawn(async move {
            let _cmd = write_rx.recv().await;
            std::future::pending::<()>().await;
        });
        reg.add(DeviceHandle { write_tx, task, config: plc01() }).unwrap();
        let rx = reg.route_write(&write_req("plc-01", 1032, 9)).unwrap();
        tokio::task::yield_now().await;
        reg.remove(&"plc-01".to_string()).unwrap();
        let outcome = finish_write(rx.await.ok());
        assert!(matches!(outcome, Err(WriteError::ChannelDropped)));
    });
}

#[test]
fn list_reports_task_liveness() {
    runtime().block_on(async {
        let mut reg = Registry::new();
        let (h, _r) = idle_handle(plc01());
        reg.add(h).unwrap();
        let mut cfg = plc01();
        cfg.id = "plc-02".to_string();
        let (write_tx, _r2) = tokio::sync::mpsc::channel(32);
        let task = tokio::spawn(async {});
        tokio::task::yield_now().await;
        tokio::task::yield_now().await;
        reg.add(DeviceHandle { write_tx, task, config: cfg }).unwrap();
        let list = reg.list();
        assert_eq!(list.len(), 2);
        assert_eq!(list[0].id, "plc-01");
        assert_eq!(list[0].address, "127.0.0.1:5020");
        assert!(list[0].is_connected);
        assert_eq!(list[1].id, "plc-02");
        assert!(!list[1].is_connected);
    });
}

#[test]
fn status_copies_configuration() {
    let d = device_status(&plc01(), false);
    assert_eq!(d.id, "plc-01");
    assert_eq!(d.name, "Reactor");
    assert_eq!(d.protocol, "modbus");
    assert!(!d.is_connected);
}

#[test]
fn each_write_gets_exactly_one_reply() {
    let mut p = polling(plc01());
    assert!(matches!(p.step(PollerEvent::WriteArrived(1032, 1))[..], [PollerAction::Write(1032, 1)]));
    let acts = p.step(PollerEvent::WriteDone(Err("exception".to_string()), true));
    assert!(matches!(&acts[..], [PollerAction::Reply(Err(e))] if e == "exception"));
    assert_eq!(p.state, PollerState::Polling);
    let acts = p.step(PollerEvent::WriteDone(Err("broken pipe".to_string()), false));
    assert!(matches!(&acts[..], [PollerAction::Reply(Err(_)), PollerAction::Sleep(5000)]));
    assert_eq!(p.state, PollerState::Disconnected);
    // while reconnecting, commands are neither served nor answered
    assert!(p.step(PollerEvent::WriteArrived(1032, 2)).is_empty());
    assert_eq!(p.state, PollerState::Disconnected);
}

#[test]
fn reply_outcomes_map_to_caller_results() {
    assert!(finish_write(Some(Ok(()))).is_ok());
    assert!(matches!(finish_write(Some(Err("timeout".to_string()))), Err(WriteError::Failed(e)) if e == "timeout"));
    assert!(matches!(finish_write(None), Err(WriteError::ChannelDropped)));
}

#[test]
fn reconnects_after_transport_error() {
    let mut p = polling(plc01());
    let acts = p.step(PollerEvent::ReadDone(Err("reset".to_string()), false));
    assert!(matches!(acts[..], [PollerAction::Sleep(RECONNECT_DELAY_MS)]));
    assert_eq!(p.state, PollerState::Disconnected);
    for _ in 0..3 {
        assert!(matches!(p.step(PollerEvent::RetryElapsed)[..], [PollerAction::Connect]));
        let acts = p.step(PollerEvent::ConnectDone(Err("refused".to_string())));
        assert!(matches!(acts[..], [PollerAction::Sleep(5000)]));
        assert_eq!(p.state, PollerState::Disconnected);
    }
    p.step(PollerEvent::RetryElapsed);
    assert!(matches!(p.step(PollerEvent::ConnectDone(Ok(())))[..], [PollerAction::StartTimer(1000)]));
    assert_eq!(p.state, PollerState::Polling);
    assert!(matches!(p.step(PollerEvent::Tick)[..], [PollerAction::Read(1028, 8)]));
}

#[test]
fn protocol_exception_on_read_keeps_polling() {
    let mut p = polling(plc01());
    let acts = p.step(PollerEvent::ReadDone(Err("illegal address".to_string()), true));
    assert!(acts.is_empty());
    assert_eq!(p.state, PollerState::Polling);
}

#[test]
fn events_out_of_state_are_ignored() {
    let mut p = Poller::new(plc01());
    assert!(p.step(PollerEvent::Tick).is_empty());
    assert!(p.step(PollerEvent::ConnectDone(Ok(()))).is_empty());
    assert_eq!(p.state, PollerState::Disconnected);
}

#[test]
fn register_numbers_wrap_at_top_of_space() {
    let rs = readings_at(&"d".to_string(), 65535, &vec![1, 2], 7);
    assert_eq!(rs.len(), 2);
    assert_eq!((rs[0].register, rs[1].register), (65535, 0));
    assert_eq!((rs[0].value, rs[1].value), (1, 2));
    assert_eq!(rs[1].timestamp_ms, 7);
    assert!(readings_at(&"d".to_string(), 0, &vec![], 7).is_empty());
}

#[test]
fn one_open_port_of_ten_gives_one_device() {
    let hosts = vec!["127.0.0.1".to_string()];
    let ports: Vec<u16> = (5020..5030).collect();
    let plan = probe_plan(&hosts, &ports);
    assert_eq!(plan.len(), 10);
    let probes: Vec<_> = plan
        .iter()
        .map(|t| if t.port == 5023 { Some(reachable_device(t.host.clone(), t.port)) } else { None })
        .collect();
    let found = collect_found(probes);
    assert_eq!(found.len(), 1);
    assert_eq!(found[0].address, "127.0.0.1");
    assert_eq!(found[0].port, 5023);
    assert_eq!(found[0].protocol, "modbus");
    assert!(found[0].reachable);
}

#[test]
fn probe_plan_covers_matrix_in_order() {
    let hosts = vec!["10.0.0.1".to_string(), "10.0.0.2".to_string()];
    let plan = probe_plan(&hosts, &vec![502, 5020]);
    let pairs: Vec<(String, u16)> = plan.into_iter().map(|t| (t.host, t.port)).collect();
    assert_eq!(
        pairs,
        vec![
            ("10.0.0.1".to_string(), 502),
            ("10.0.0.1".to_string(), 5020),
            ("10.0.0.2".to_string(), 502),
            ("10.0.0.2".to_string(), 5020),
        ]
    );
    assert!(probe_plan(&vec![], &vec![502]).is_empty());
    assert!(collect_found(vec![None, None]).is_empty());
}

#[test]
fn default_targets_are_local_simulator_ports() {
    let (targets, ports) = default_scan_targets();
    assert_eq!(targets, vec!["127.0.0.1".to_string()]);
    assert_eq!(ports, vec![502, 5020, 5021, 5022, 5023, 5024, 5025]);
}

#[test]
fn history_limit_defaults_to_hundred() {
    let p = HistoryParams { device_id: "plc-01".to_string(), limit: None };
    assert_eq!(p.effective_limit(), 100);
    let p = HistoryParams { device_id: "plc-01".to_string(), limit: Some(5) };
    assert_eq!(p.effective_limit(), 5);
}

#[test]
fn writable_set_membership() {
    let cfg = plc01();
    assert!(cfg.is_writable(1032));
    assert!(!cfg.is_writable(1030));
}

#[test]
fn device_row_round_trip() {
    let row = device_row(plc01());
    assert_eq!(row.writable, "[1032]");
    assert_eq!((row.poll_rate_ms, row.register_start, row.register_count), (1000, 1028, 8));
    let back = device_from_row(row);
    assert_eq!(back.id, "plc-01");
    assert_eq!(back.writable, vec![1032]);
    assert_eq!(back.register_start, 1028);
}

#[test]
fn unparsable_writable_set_reads_as_empty() {
    let mut row = device_row(plc01());
    row.writable = "[1, 2, 70000]".to_string();
    assert!(device_from_row(row.clone()).writable.is_empty());
    row.writable = "[3,4]".to_string();
    assert_eq!(device_from_row(row).writable, vec![3, 4]);
}

#[test]
fn write_command_carries_request_values() {
    let (tx, _rx) = tokio::sync::oneshot::channel();
    let cmd = write_command(&write_req("plc-01", 1032, 1), tx);
    assert_eq!((cmd.register, cmd.value), (1032, 1));
}

#[test]
fn poll_rate_defaults_to_one_second() {
    assert_eq!(poll_rate_or_default(None), 1000);
    assert_eq!(poll_rate_or_default(Some(250)), 250);
}

#[test]
fn scan_request_falls_back_to_defaults() {
    let (t, p) = scan_inputs(None, Some(vec![5020]));
    assert_eq!(t, vec!["127.0.0.1".to_string()]);
    assert_eq!(p, vec![5020]);
    let (t, p) = scan_inputs(Some(vec!["10.0.0.9".to_string()]), None);
    assert_eq!(t, vec!["10.0.0.9".to_string()]);
    assert_eq!(p, vec![502, 5020, 5021, 5022, 5023, 5024, 5025]);
}

#[test]
fn writable_set_json_is_compact_array() {
    let mut cfg = plc01();
    cfg.writable = vec![];
    assert_eq!(device_row(cfg.clone()).writable, "[]");
    cfg.writable = vec![0, 7, 65535];
    let row = device_row(cfg);
    assert_eq!(row.writable, "[0,7,65535]");
    assert_eq!(device_from_row(row).writable, vec![0, 7, 65535]);
}
