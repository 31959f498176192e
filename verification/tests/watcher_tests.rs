use webview_optimizer::process_table::ProcessTable;
use webview_optimizer::telemetry::get_elevation_telemetry;
use webview_optimizer::tracking::ElevationTracker;
use webview_optimizer::watcher::{OptimizerContext, WatcherState, SWEEP_INTERVAL_CYCLES};

const HOST: u32 = 100;

fn table(entries: &[(u32, u32, &str)]) -> ProcessTable {
    let mut t = ProcessTable::new();
    for (pid, parent, name) in entries {
        t.push(*pid, *parent, name.as_bytes().to_vec());
    }
    t
}

#[test]
fn start_is_idempotent() {
    let mut ctx = OptimizerContext::new(HOST);
    let mut spawned = 0;
    for _ in 0..5 {
        if ctx.start_webview_optimizer() {
            spawned += 1;
        }
    }
    assert_eq!(spawned, 1);
}

#[test]
fn event_init_success_enters_event_driven_mode() {
    let mut ctx = OptimizerContext::new(HOST);
    ctx.start_webview_optimizer();
    ctx.event_init_result(true);
    assert_eq!(ctx.current_state(), WatcherState::EventDriven);
    let t = get_elevation_telemetry(&ctx);
    assert_eq!(t.mode, "wmi");
    assert!(t.wmi_available);
    assert!(t.is_active);
}

#[test]
fn event_init_failure_falls_back_to_polling() {
    let mut ctx = OptimizerContext::new(HOST);
    ctx.start_webview_optimizer();
    ctx.event_init_result(false);
    assert_eq!(ctx.current_state(), WatcherState::Polling);
    let t = get_elevation_telemetry(&ctx);
    assert_eq!(t.mode, "polling");
    assert!(!t.wmi_available);
    assert!(t.is_active);
}

#[test]
fn polling_after_fallback_still_elevates_matching_child() {
    let mut ctx = OptimizerContext::new(HOST);
    ctx.start_webview_optimizer();
    ctx.event_init_result(false);
    let t = table(&[
        (HOST, 1, "host.exe"),
        (200, HOST, "msedgewebview2.exe"),
        (300, 1, "explorer.exe"),
    ]);
    let candidates = ctx.polling_candidates(&t);
    assert_eq!(candidates, vec![200]);
}

#[test]
fn polling_candidates_skip_unrelated_and_tracked() {
    let mut ctx = OptimizerContext::new(HOST);
    let t = table(&[
        (HOST, 1, "host.exe"),
        (200, HOST, "msedgewebview2.exe"),
        (210, 200, "msedgewebview2.exe"),
        (220, 999, "msedgewebview2.exe"),
        (230, HOST, "explorer.exe"),
    ]);
    let first = ctx.polling_candidates(&t);
    assert_eq!(first, vec![200, 210]);
    ctx.record_sighting(200, true);
    let second = ctx.polling_candidates(&t);
    assert_eq!(second, vec![210]);
}

#[test]
fn polling_candidates_list_each_pid_once() {
    let ctx = OptimizerContext::new(HOST);
    // The same pid enumerated twice yields one candidate entry.
    let t = table(&[
        (HOST, 1, "host.exe"),
        (200, HOST, "msedgewebview2.exe"),
        (200, HOST, "msedgewebview2.exe"),
    ]);
    assert_eq!(ctx.polling_candidates(&t), vec![200]);
}

#[test]
fn decide_elevation_checks_name_ancestry_and_tracking() {
    let mut ctx = OptimizerContext::new(HOST);
    let t = table(&[(HOST, 1, "host.exe"), (200, HOST, "msedgewebview2.exe")]);
    let name = b"msedgewebview2.exe".to_vec();
    // Direct child by parent pid, no snapshot walk needed.
    assert!(ctx.decide_elevation(&t, 200, HOST, &name));
    // Wrong name.
    assert!(!ctx.decide_elevation(&t, 200, HOST, &b"explorer.exe".to_vec()));
    // Unrelated parent and no ancestry path.
    assert!(!ctx.decide_elevation(&t, 999, 7, &name));
    // Descendant through the snapshot rather than direct parent.
    let t2 = table(&[
        (HOST, 1, "host.exe"),
        (200, HOST, "msedgewebview2.exe"),
        (300, 200, "msedgewebview2.exe"),
    ]);
    assert!(ctx.decide_elevation(&t2, 300, 200, &name));
    // Already tracked.
    ctx.record_sighting(200, true);
    assert!(!ctx.decide_elevation(&t, 200, HOST, &name));
}

#[test]
fn sighting_of_same_pid_elevates_at_most_once() {
    let mut ctx = OptimizerContext::new(HOST);
    let t = table(&[(HOST, 1, "host.exe"), (200, HOST, "msedgewebview2.exe")]);
    let name = b"msedgewebview2.exe".to_vec();
    let mut attempts = 0;
    for _ in 0..4 {
        if ctx.decide_elevation(&t, 200, HOST, &name) {
            attempts += 1;
            ctx.record_sighting(200, true);
        }
    }
    assert_eq!(attempts, 1);
    assert_eq!(ctx.current_elevated_count(), 1);
    assert_eq!(ctx.tracked_len(), 1);
    assert!(ctx.is_tracked(200));
    assert!(!ctx.is_tracked(201));
}

#[test]
fn failed_elevation_is_not_retried_and_not_counted() {
    let mut ctx = OptimizerContext::new(HOST);
    let t = table(&[(HOST, 1, "host.exe"), (200, HOST, "msedgewebview2.exe")]);
    let name = b"msedgewebview2.exe".to_vec();
    assert!(ctx.decide_elevation(&t, 200, HOST, &name));
    ctx.record_sighting(200, false);
    assert_eq!(ctx.current_elevated_count(), 0);
    assert!(!ctx.decide_elevation(&t, 200, HOST, &name));
}

#[test]
fn sweep_keeps_exactly_the_live_pids() {
    let mut tracker = ElevationTracker::new();
    tracker.observe(100);
    tracker.observe(200);
    tracker.observe(300);
    // 200 no longer resolves to a live process.
    tracker.sweep(&vec![100, 300, 999]);
    assert!(tracker.contains(100));
    assert!(!tracker.contains(200));
    assert!(tracker.contains(300));
    assert!(!tracker.contains(999));
    assert_eq!(tracker.len(), 2);
}

#[test]
fn sweep_on_dead_process_removes_it_and_allows_re_elevation() {
    let mut tracker = ElevationTracker::new();
    assert!(tracker.observe(200));
    assert!(!tracker.observe(200));
    tracker.sweep(&vec![]);
    assert_eq!(tracker.len(), 0);
    // The pid is eligible again after its process exited.
    assert!(tracker.observe(200));
}

#[test]
fn elevated_count_never_decreases_across_gc() {
    let mut ctx = OptimizerContext::new(HOST);
    ctx.record_sighting(200, true);
    ctx.record_sighting(201, true);
    assert_eq!(ctx.current_elevated_count(), 2);
    // Both processes exit; the sweep shrinks the tracking set only.
    ctx.apply_sweep(&vec![]);
    assert_eq!(ctx.tracked_len(), 0);
    assert_eq!(ctx.current_elevated_count(), 2);
}

#[test]
fn sweep_cadence_fires_every_twelfth_pass() {
    let mut ctx = OptimizerContext::new(HOST);
    let mut fired = Vec::new();
    for pass in 1..=(2 * SWEEP_INTERVAL_CYCLES) {
        if ctx.sweep_due() {
            fired.push(pass);
        }
    }
    assert_eq!(fired, vec![SWEEP_INTERVAL_CYCLES, 2 * SWEEP_INTERVAL_CYCLES]);
}

#[test]
fn stream_end_stops_event_driven_watcher() {
    let mut ctx = OptimizerContext::new(HOST);
    ctx.start_webview_optimizer();
    ctx.event_init_result(true);
    ctx.on_event_stream_end();
    assert_eq!(ctx.current_state(), WatcherState::Stopped);
    let t = get_elevation_telemetry(&ctx);
    assert_eq!(t.mode, "polling");
    assert!(!t.wmi_available);
}

#[test]
fn stop_request_is_observed_cooperatively() {
    let mut ctx = OptimizerContext::new(HOST);
    ctx.start_webview_optimizer();
    ctx.event_init_result(false);
    assert!(ctx.should_continue());
    ctx.request_stop();
    assert!(!ctx.should_continue());
    ctx.acknowledge_stop();
    assert_eq!(ctx.current_state(), WatcherState::Stopped);
}

#[test]
fn telemetry_defaults_before_start() {
    let ctx = OptimizerContext::new(HOST);
    let t = get_elevation_telemetry(&ctx);
    assert_eq!(t.processes_elevated, 0);
    assert_eq!(t.mode, "polling");
    assert!(!t.is_active);
    assert!(!t.wmi_available);
}
