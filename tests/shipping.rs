use my_telemetry_writer::{
    grpc_record, grpc_records, http_record, http_records, is_success_status, GrpcConnection, ProbeAction, RpcOutcome,
    TelemetryEvent, TelemetryEventTag, TelemetryTimer, TickAction, TickPhase, WriteMode,
    WriteModeKeeper, HTTP_ADD_SEGMENT, HTTP_API_SEGMENT, RPC_TIMEOUT_SECS, TICK_INTERVAL_SECS,
};

fn tag(key: &str, value: &str) -> TelemetryEventTag {
    TelemetryEventTag { key: key.to_string(), value: value.to_string() }
}

fn event(process_id: i64, data: &str) -> TelemetryEvent {
    TelemetryEvent {
        process_id,
        started: 1000 + process_id,
        finished: 2000 + process_id,
        data: data.to_string(),
        success: None,
        fail: None,
        ip: None,
        tags: None,
    }
}

fn full_event() -> TelemetryEvent {
    TelemetryEvent {
        process_id: 42,
        started: 100,
        finished: 250,
        data: "select".to_string(),
        success: Some("done".to_string()),
        fail: Some("broken".to_string()),
        ip: Some("10.0.0.1".to_string()),
        tags: Some(vec![tag("user", "u1"), tag("table", "orders")]),
    }
}

fn three_events() -> Vec<TelemetryEvent> {
    vec![event(1, "first"), event(2, "second"), event(3, "third")]
}

#[test]
fn write_mode_is_unknown() {
    assert!(WriteMode::Unknown.is_unknown());
    assert!(!WriteMode::Grpc.is_unknown());
    assert!(!WriteMode::Http.is_unknown());
}

#[test]
fn keeper_starts_unknown_and_keeps_the_last_write() {
    let mut keeper = WriteModeKeeper::new();
    assert_eq!(keeper.get_write_mode(), WriteMode::Unknown);
    keeper.set_write_mode(WriteMode::Grpc);
    assert_eq!(keeper.get_write_mode(), WriteMode::Grpc);
    keeper.set_write_mode(WriteMode::Http);
    assert_eq!(keeper.get_write_mode(), WriteMode::Http);
    keeper.set_write_mode(WriteMode::Unknown);
    assert_eq!(keeper.get_write_mode(), WriteMode::Unknown);
}

#[test]
fn http_record_copies_every_field() {
    let r = http_record("billing", &full_event());
    assert_eq!(r.process_id, 42);
    assert_eq!(r.started, 100);
    assert_eq!(r.ended, 250);
    assert_eq!(r.service_name, "billing");
    assert_eq!(r.event_data, "select");
    assert_eq!(r.success.as_deref(), Some("done"));
    assert_eq!(r.fail.as_deref(), Some("broken"));
    assert_eq!(r.ip.as_deref(), Some("10.0.0.1"));
    let tags = r.tags.unwrap();
    assert_eq!(tags.len(), 2);
    assert_eq!((tags[0].key.as_str(), tags[0].value.as_str()), ("user", "u1"));
    assert_eq!((tags[1].key.as_str(), tags[1].value.as_str()), ("table", "orders"));
}

#[test]
fn http_record_keeps_missing_tags_missing() {
    let r = http_record("svc", &event(5, "x"));
    assert!(r.tags.is_none());
    assert!(r.success.is_none());
    assert!(r.ip.is_none());
}

#[test]
fn grpc_record_copies_every_field() {
    let r = grpc_record("billing", &full_event());
    assert_eq!(r.process_id, 42);
    assert_eq!(r.started_at, 100);
    assert_eq!(r.finished_at, 250);
    assert_eq!(r.service_name, "billing");
    assert_eq!(r.event_data, "select");
    assert_eq!(r.success.as_deref(), Some("done"));
    assert_eq!(r.fail.as_deref(), Some("broken"));
    assert_eq!(r.tags.len(), 2);
    assert_eq!((r.tags[0].key.as_str(), r.tags[0].value.as_str()), ("user", "u1"));
    assert_eq!((r.tags[1].key.as_str(), r.tags[1].value.as_str()), ("table", "orders"));
}

#[test]
fn grpc_record_without_tags_gets_an_empty_list() {
    let r = grpc_record("svc", &event(5, "x"));
    assert!(r.tags.is_empty());
}

#[test]
fn batches_keep_order_and_values_on_both_transports() {
    let events = three_events();
    let g = grpc_records("svc", &events);
    let h = http_records("svc", &events);
    assert_eq!(g.len(), 3);
    assert_eq!(h.len(), 3);
    for i in 0..3 {
        assert_eq!(g[i].process_id, events[i].process_id);
        assert_eq!(g[i].started_at, events[i].started);
        assert_eq!(g[i].finished_at, events[i].finished);
        assert_eq!(g[i].event_data, events[i].data);
        assert_eq!(g[i].service_name, "svc");
        assert_eq!(h[i].process_id, events[i].process_id);
        assert_eq!(h[i].started, events[i].started);
        assert_eq!(h[i].ended, events[i].finished);
        assert_eq!(h[i].event_data, events[i].data);
        assert_eq!(h[i].service_name, "svc");
    }
    assert_eq!(h[2].event_data, "third");
}

#[test]
fn empty_batch_gives_no_records() {
    let events: Vec<TelemetryEvent> = Vec::new();
    assert!(grpc_records("svc", &events).is_empty());
    assert!(http_records("svc", &events).is_empty());
}

#[test]
fn connection_is_established_lazily() {
    let mut conn: GrpcConnection<u32> = GrpcConnection::new();
    assert!(!conn.has_channel());
    assert_eq!(conn.probe_action(), ProbeAction::ConnectThenPing);
    assert!(!conn.store_connection(None));
    assert!(!conn.has_channel());
    assert!(conn.store_connection(Some(7)));
    assert_eq!(conn.probe_action(), ProbeAction::PingCached);
    assert_eq!(conn.take_channel(), Some(7));
    assert!(!conn.has_channel());
    assert_eq!(conn.take_channel(), None);
}

#[test]
fn completed_upload_keeps_the_connection() {
    let mut conn: GrpcConnection<u32> = GrpcConnection::new();
    conn.store_connection(Some(7));
    let ch = conn.take_channel().unwrap();
    assert!(conn.finish_upload(ch, RpcOutcome::Completed));
    assert_eq!(conn.take_channel(), Some(7));
}

#[test]
fn timed_out_upload_drops_the_connection() {
    let mut conn: GrpcConnection<u32> = GrpcConnection::new();
    conn.store_connection(Some(7));
    let ch = conn.take_channel().unwrap();
    assert!(!conn.finish_upload(ch, RpcOutcome::TimedOut));
    assert!(!conn.has_channel());
    assert_eq!(conn.probe_action(), ProbeAction::ConnectThenPing);
    assert_eq!(RPC_TIMEOUT_SECS, 3);
}

#[test]
fn failed_upload_drops_the_connection() {
    let mut conn: GrpcConnection<u32> = GrpcConnection::new();
    conn.store_connection(Some(9));
    let ch = conn.take_channel().unwrap();
    assert!(!conn.finish_upload(ch, RpcOutcome::Failed));
    assert!(!conn.has_channel());
}

#[test]
fn timed_out_ping_drops_a_cached_connection() {
    let mut conn: GrpcConnection<u32> = GrpcConnection::new();
    conn.store_connection(Some(4));
    assert_eq!(conn.probe_action(), ProbeAction::PingCached);
    let ch = conn.take_channel().unwrap();
    assert!(!conn.finish_probe(ch, RpcOutcome::TimedOut));
    assert!(!conn.has_channel());
    assert_eq!(conn.probe_action(), ProbeAction::ConnectThenPing);
}

#[test]
fn completed_ping_keeps_a_cached_connection() {
    let mut conn: GrpcConnection<u32> = GrpcConnection::new();
    conn.store_connection(Some(4));
    let ch = conn.take_channel().unwrap();
    assert!(conn.finish_probe(ch, RpcOutcome::Completed));
    assert_eq!(conn.take_channel(), Some(4));
}

#[test]
fn fresh_connection_is_cached_only_after_a_good_ping() {
    let mut conn: GrpcConnection<u32> = GrpcConnection::new();
    assert!(!conn.finish_probe(1, RpcOutcome::Failed));
    assert!(!conn.has_channel());
    assert!(conn.finish_probe(2, RpcOutcome::Completed));
    assert_eq!(conn.take_channel(), Some(2));
}

#[test]
fn idle_tick_makes_no_call_and_keeps_the_mode() {
    let mut timer = TelemetryTimer::new("svc".to_string());
    assert!(matches!(timer.start_tick(), TickAction::Probe));
    timer.on_probe(false);
    assert!(matches!(timer.on_drained(None), TickAction::Finished));
    assert_eq!(timer.write_mode(), WriteMode::Http);
    assert_eq!(timer.phase(), TickPhase::Idle);
    assert!(matches!(timer.start_tick(), TickAction::Drain));
    assert!(matches!(timer.on_drained(Some(Vec::new())), TickAction::Finished));
    assert_eq!(timer.write_mode(), WriteMode::Http);
    assert_eq!(timer.phase(), TickPhase::Idle);
}

#[test]
fn failed_probe_never_leaves_grpc() {
    let mut timer = TelemetryTimer::new("svc".to_string());
    timer.start_tick();
    timer.on_probe(false);
    assert_ne!(timer.write_mode(), WriteMode::Grpc);
    assert_eq!(timer.write_mode(), WriteMode::Http);
}

#[test]
fn failed_delivery_forces_a_probe_next_tick() {
    let mut timer = TelemetryTimer::new("svc".to_string());
    timer.start_tick();
    timer.on_probe(false);
    assert!(matches!(timer.on_drained(Some(three_events())), TickAction::PostHttp(_)));
    timer.on_delivered(false);
    assert_eq!(timer.write_mode(), WriteMode::Unknown);
    assert!(matches!(timer.start_tick(), TickAction::Probe));
}

#[test]
fn successful_http_send_does_not_reprobe() {
    let mut timer = TelemetryTimer::new("svc".to_string());
    timer.start_tick();
    timer.on_probe(false);
    timer.on_drained(Some(three_events()));
    timer.on_delivered(true);
    assert_eq!(timer.write_mode(), WriteMode::Http);
    assert!(matches!(timer.start_tick(), TickAction::Drain));
}

#[test]
fn end_to_end_failover_from_rpc_to_http() {
    assert_eq!(TICK_INTERVAL_SECS, 1);
    let mut timer = TelemetryTimer::new("svc".to_string());
    let mut conn: GrpcConnection<u32> = GrpcConnection::new();
    assert_eq!(timer.app_name(), "svc");

    // First tick: unknown, the probe connects and succeeds, 3 events go over RPC.
    assert!(matches!(timer.start_tick(), TickAction::Probe));
    let action = conn.probe_action();
    assert_eq!(action, ProbeAction::ConnectThenPing);
    assert!(conn.store_connection(Some(11)));
    let ch = conn.take_channel().unwrap();
    let reachable = conn.finish_probe(ch, RpcOutcome::Completed);
    assert!(matches!(timer.on_probe(reachable), TickAction::Drain));
    match timer.on_drained(Some(three_events())) {
        TickAction::UploadGrpc(recs) => {
            assert_eq!(recs.len(), 3);
            assert_eq!(recs[0].event_data, "first");
            assert_eq!(recs[1].event_data, "second");
            assert_eq!(recs[2].event_data, "third");
        }
        _ => panic!("expected an RPC upload"),
    }
    let ch = conn.take_channel().unwrap();
    assert!(matches!(
        timer.on_delivered(conn.finish_upload(ch, RpcOutcome::Completed)),
        TickAction::Finished
    ));
    assert_eq!(timer.write_mode(), WriteMode::Grpc);

    // Second tick: the upload times out; the mode resets and the handle goes.
    assert!(matches!(timer.start_tick(), TickAction::Drain));
    assert!(matches!(timer.on_drained(Some(three_events())), TickAction::UploadGrpc(_)));
    let ch = conn.take_channel().unwrap();
    timer.on_delivered(conn.finish_upload(ch, RpcOutcome::TimedOut));
    assert_eq!(timer.write_mode(), WriteMode::Unknown);
    assert!(!conn.has_channel());

    // Third tick: the probe has to reconnect, fails, and HTTP takes the batch.
    assert!(matches!(timer.start_tick(), TickAction::Probe));
    assert_eq!(conn.probe_action(), ProbeAction::ConnectThenPing);
    assert!(!conn.store_connection(None));
    timer.on_probe(false);
    assert_eq!(timer.write_mode(), WriteMode::Http);
    match timer.on_drained(Some(vec![event(4, "fourth")])) {
        TickAction::PostHttp(recs) => {
            assert_eq!(recs.len(), 1);
            assert_eq!(recs[0].event_data, "fourth");
            assert_eq!(recs[0].service_name, "svc");
        }
        _ => panic!("expected an HTTP post"),
    }
    assert_eq!((HTTP_API_SEGMENT, HTTP_ADD_SEGMENT), ("api", "add"));
    timer.on_delivered(true);
    assert_eq!(timer.write_mode(), WriteMode::Http);
}

#[test]
fn abandoned_tick_resets_the_mode_and_probes_next() {
    let mut timer = TelemetryTimer::new("svc".to_string());
    timer.start_tick();
    timer.on_probe(true);
    assert!(matches!(timer.on_drained(Some(three_events())), TickAction::UploadGrpc(_)));
    assert_eq!(timer.phase(), TickPhase::Dispatching);
    timer.abandon_tick();
    assert_eq!(timer.phase(), TickPhase::Idle);
    assert_eq!(timer.write_mode(), WriteMode::Unknown);
    assert!(matches!(timer.start_tick(), TickAction::Probe));
}

#[test]
fn abandon_between_ticks_changes_nothing() {
    let mut timer = TelemetryTimer::new("svc".to_string());
    timer.start_tick();
    timer.on_probe(true);
    timer.on_drained(None);
    timer.abandon_tick();
    assert_eq!(timer.phase(), TickPhase::Idle);
    assert_eq!(timer.write_mode(), WriteMode::Grpc);
}

#[test]
fn only_success_statuses_accept_a_batch() {
    assert!(is_success_status(200));
    assert!(is_success_status(204));
    assert!(is_success_status(299));
    assert!(!is_success_status(199));
    assert!(!is_success_status(301));
    assert!(!is_success_status(404));
    assert!(!is_success_status(500));
}
