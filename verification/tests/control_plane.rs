use streamblur_core::config::EngineConfig;
use streamblur_core::digits::dec_u8;
use streamblur_core::payload::{
    ai_payload_json, ai_push_result, blur_payload_json, blur_push_result, empty_payload_json,
    greet, start_message,
};
use streamblur_core::state::{
    ControlState, EngineError, EngineStatus, FetchOutcome, HttpOutcome, KillOutcome,
    ProcessHandle, SpawnOutcome,
};

fn sample_status() -> EngineStatus {
    EngineStatus {
        running: true,
        fps_bits: (30.0f32).to_bits(),
        cpu_usage_bits: (12.5f32).to_bits(),
        memory_usage_bits: (256.0f32).to_bits(),
    }
}

#[test]
fn fresh_state_tracks_nothing() {
    let s = ControlState::new();
    assert!(s.handle.is_none());
    assert!(s.last_sync.is_none());
    assert!(!s.status.running);
    assert_eq!(s.status.fps_bits, 0);
    assert_eq!(s.status.cpu_usage_bits, 0);
    assert_eq!(s.status.memory_usage_bits, 0);
}

#[test]
fn successful_start_tracks_exactly_one_handle() {
    let mut s = ControlState::new();
    let r = s.apply_spawn(SpawnOutcome::Spawned(ProcessHandle { pid: 42 }));
    assert!(r.is_ok());
    assert_eq!(s.handle, Some(ProcessHandle { pid: 42 }));
    assert!(s.status.running);
}

#[test]
fn failed_spawn_mutates_nothing() {
    let mut s = ControlState::new();
    let before = s;
    let r = s.apply_spawn(SpawnOutcome::Failed("no such file or directory".to_string()));
    assert_eq!(
        r,
        Err(EngineError::SpawnError("no such file or directory".to_string()))
    );
    assert_eq!(s, before);
    assert!(!s.status.running);
    assert!(s.handle.is_none());
}

#[test]
fn start_unreachable_engine_still_counts_as_started() {
    let mut s = ControlState::new();
    s.apply_spawn(SpawnOutcome::Spawned(ProcessHandle { pid: 7 }))
        .unwrap();
    let m = start_message(HttpOutcome::Unreachable);
    assert_eq!(m, "Engine process started (still establishing connectivity)");
    assert!(s.status.running);
    assert_eq!(s.handle, Some(ProcessHandle { pid: 7 }));
}

#[test]
fn start_messages_for_each_outcome() {
    assert_eq!(start_message(HttpOutcome::Success), "Engine started successfully");
    assert_eq!(
        start_message(HttpOutcome::NonSuccess(500)),
        "Engine process started, but the engine did not report a successful start"
    );
}

#[test]
fn stop_without_process_fails_and_mutates_nothing() {
    let mut s = ControlState::new();
    let before = s;
    let r = s.begin_stop();
    assert_eq!(r, Err(EngineError::NotRunningError));
    assert_eq!(s, before);
}

#[test]
fn successful_stop_untracks_and_second_stop_fails() {
    let mut s = ControlState::new();
    s.apply_spawn(SpawnOutcome::Spawned(ProcessHandle { pid: 9 }))
        .unwrap();
    let h = s.begin_stop().unwrap();
    assert_eq!(h, ProcessHandle { pid: 9 });
    let r = s.finish_stop(h, KillOutcome::Killed);
    assert_eq!(r, Ok("Engine stopped successfully".to_string()));
    assert!(!s.status.running);
    assert!(s.handle.is_none());
    let again = s.begin_stop();
    assert_eq!(again, Err(EngineError::NotRunningError));
}

#[test]
fn failed_kill_restores_the_handle() {
    let mut s = ControlState::new();
    s.apply_spawn(SpawnOutcome::Spawned(ProcessHandle { pid: 3 }))
        .unwrap();
    let h = s.begin_stop().unwrap();
    let r = s.finish_stop(h, KillOutcome::KillFailed("operation not permitted".to_string()));
    assert_eq!(
        r,
        Err(EngineError::TerminationError("operation not permitted".to_string()))
    );
    assert_eq!(s.handle, Some(ProcessHandle { pid: 3 }));
    assert!(s.status.running);
}

#[test]
fn parsed_fetch_overwrites_cache_and_is_returned() {
    let mut s = ControlState::new();
    let fresh = sample_status();
    let got = s.reconcile_status(FetchOutcome::Parsed(fresh), 1700000000);
    assert_eq!(got, fresh);
    assert_eq!(s.status, fresh);
    assert_eq!(s.last_sync, Some(1700000000));
}

#[test]
fn malformed_body_returns_cached_status_unchanged() {
    let mut s = ControlState::new();
    let fresh = sample_status();
    s.reconcile_status(FetchOutcome::Parsed(fresh), 11);
    let before = s;
    let got = s.reconcile_status(FetchOutcome::Malformed, 12);
    assert_eq!(got, fresh);
    assert_eq!(s, before);
    assert_eq!(s.last_sync, Some(11));
}

#[test]
fn any_failed_fetch_degrades_to_the_last_parsed_snapshot() {
    let mut s = ControlState::new();
    let fresh = sample_status();
    s.reconcile_status(FetchOutcome::Parsed(fresh), 20);
    assert_eq!(s.reconcile_status(FetchOutcome::Unreachable, 21), fresh);
    assert_eq!(s.reconcile_status(FetchOutcome::HttpFailure, 22), fresh);
    assert_eq!(s.reconcile_status(FetchOutcome::Malformed, 23), fresh);
    assert_eq!(s.status, fresh);
    assert_eq!(s.last_sync, Some(20));
}

#[test]
fn blur_payload_enabled() {
    let p = blur_payload_json(50, true);
    assert_eq!(p, "{\"strength\":50,\"mode\":\"gaussian\"}");
}

#[test]
fn blur_payload_disabled() {
    let p = blur_payload_json(0, false);
    assert_eq!(p, "{\"strength\":0,\"mode\":\"none\"}");
}

#[test]
fn blur_payload_is_well_formed_json() {
    let p = blur_payload_json(50, true);
    let v: serde_json::Value = serde_json::from_str(&p).unwrap();
    assert_eq!(v["strength"].as_u64(), Some(50));
    assert_eq!(v["mode"].as_str(), Some("gaussian"));
}

#[test]
fn ai_payload_high_quality() {
    let p = ai_payload_json(true, true, false);
    assert_eq!(p, "{\"quality\":\"high\",\"smoothing\":0.8}");
}

#[test]
fn ai_payload_medium_quality() {
    let p = ai_payload_json(false, false, false);
    assert_eq!(p, "{\"quality\":\"medium\",\"smoothing\":0.3}");
}

#[test]
fn ai_payload_ignores_temporal_smoothing() {
    assert_eq!(ai_payload_json(true, true, true), ai_payload_json(true, true, false));
    assert_eq!(ai_payload_json(false, false, true), ai_payload_json(false, false, false));
}

#[test]
fn ai_payload_is_well_formed_json() {
    let p = ai_payload_json(true, true, false);
    let v: serde_json::Value = serde_json::from_str(&p).unwrap();
    assert_eq!(v["quality"].as_str(), Some("high"));
    assert_eq!(v["smoothing"].as_f64(), Some(0.8));
}

#[test]
fn empty_payload_is_the_empty_object() {
    let p = empty_payload_json();
    assert_eq!(p, "{}");
    let v: serde_json::Value = serde_json::from_str(&p).unwrap();
    assert!(v.as_object().unwrap().is_empty());
}

#[test]
fn decimal_rendering() {
    assert_eq!(dec_u8(0), "0");
    assert_eq!(dec_u8(7), "7");
    assert_eq!(dec_u8(10), "10");
    assert_eq!(dec_u8(42), "42");
    assert_eq!(dec_u8(100), "100");
    assert_eq!(dec_u8(255), "255");
}

#[test]
fn blur_push_success_reports_what_was_pushed() {
    let r = blur_push_result(50, true, HttpOutcome::Success);
    assert_eq!(r, Ok("Blur updated: 50% (ON)".to_string()));
    let r = blur_push_result(0, false, HttpOutcome::Success);
    assert_eq!(r, Ok("Blur updated: 0% (OFF)".to_string()));
}

#[test]
fn blur_push_failures() {
    assert_eq!(
        blur_push_result(50, true, HttpOutcome::NonSuccess(500)),
        Err(EngineError::RemoteRejected(500))
    );
    assert_eq!(
        blur_push_result(50, true, HttpOutcome::Unreachable),
        Err(EngineError::ConnectionError)
    );
}

#[test]
fn ai_push_results() {
    assert_eq!(
        ai_push_result(HttpOutcome::Success),
        Ok("AI settings updated".to_string())
    );
    assert_eq!(
        ai_push_result(HttpOutcome::NonSuccess(404)),
        Err(EngineError::RemoteRejected(404))
    );
    assert_eq!(ai_push_result(HttpOutcome::Unreachable), Err(EngineError::ConnectionError));
}

#[test]
fn greeting_names_the_caller() {
    assert_eq!(greet("World"), "Hello, World! StreamBlur Pro is working with Tauri v1! \u{1F389}");
}

#[test]
fn config_builds_the_engine_endpoints() {
    let c = EngineConfig::new(
        "/usr/bin/python3".to_string(),
        "engine.py".to_string(),
        "/opt/engine".to_string(),
        "http://127.0.0.1:8080".to_string(),
    );
    assert_eq!(c.start_url(), "http://127.0.0.1:8080/api/start");
    assert_eq!(c.stop_url(), "http://127.0.0.1:8080/api/stop");
    assert_eq!(c.status_url(), "http://127.0.0.1:8080/api/status");
    assert_eq!(c.blur_url(), "http://127.0.0.1:8080/api/blur");
    assert_eq!(c.ai_url(), "http://127.0.0.1:8080/api/ai");
}
