use webview_optimizer::host_info::{bytes_to_mb, SystemInfo, UpdateInfo};
use webview_optimizer::name_match::is_engine_process;
use webview_optimizer::window_mode::{
    toggle_fullscreen_target, window_transition_plan, WindowAction, WindowMode,
};

#[test]
fn engine_names_match_case_insensitively() {
    assert!(is_engine_process(&b"msedgewebview2.exe".to_vec()));
    assert!(is_engine_process(&b"MSEDGEWEBVIEW2.EXE".to_vec()));
    assert!(is_engine_process(&b"MsEdgeWebView2.exe".to_vec()));
    assert!(is_engine_process(&b"wrapper-msedgewebview2-helper".to_vec()));
}

#[test]
fn other_names_do_not_match() {
    assert!(!is_engine_process(&b"explorer.exe".to_vec()));
    assert!(!is_engine_process(&b"msedge.exe".to_vec()));
    assert!(!is_engine_process(&b"msedgewebview".to_vec()));
    assert!(!is_engine_process(&Vec::new()));
}

#[test]
fn window_mode_round_trips_through_its_code() {
    for mode in [
        WindowMode::Windowed,
        WindowMode::Fullscreen,
        WindowMode::BorderlessWindowed,
    ] {
        assert_eq!(WindowMode::from_u8(mode.to_u8()), mode);
    }
}

#[test]
fn unknown_mode_codes_decode_to_windowed() {
    assert_eq!(WindowMode::from_u8(7), WindowMode::Windowed);
    assert_eq!(WindowMode::from_u8(255), WindowMode::Windowed);
}

#[test]
fn toggle_enters_and_leaves_fullscreen() {
    assert_eq!(toggle_fullscreen_target(WindowMode::Windowed), WindowMode::Fullscreen);
    assert_eq!(
        toggle_fullscreen_target(WindowMode::BorderlessWindowed),
        WindowMode::Fullscreen
    );
    assert_eq!(toggle_fullscreen_target(WindowMode::Fullscreen), WindowMode::Windowed);
}

#[test]
fn transition_to_same_mode_is_empty() {
    for mode in [
        WindowMode::Windowed,
        WindowMode::Fullscreen,
        WindowMode::BorderlessWindowed,
    ] {
        assert!(window_transition_plan(mode, mode).is_empty());
    }
}

#[test]
fn transition_windowed_to_fullscreen() {
    assert_eq!(
        window_transition_plan(WindowMode::Windowed, WindowMode::Fullscreen),
        vec![WindowAction::SetFullscreen(true)]
    );
}

#[test]
fn transition_fullscreen_to_windowed_restores_decorations() {
    assert_eq!(
        window_transition_plan(WindowMode::Fullscreen, WindowMode::Windowed),
        vec![
            WindowAction::SetFullscreen(false),
            WindowAction::Delay,
            WindowAction::SetDecorations(true),
            WindowAction::Delay,
        ]
    );
}

#[test]
fn transition_borderless_to_fullscreen_cleans_up_first() {
    assert_eq!(
        window_transition_plan(WindowMode::BorderlessWindowed, WindowMode::Fullscreen),
        vec![
            WindowAction::SetDecorations(true),
            WindowAction::Unmaximize,
            WindowAction::Delay,
            WindowAction::SetFullscreen(true),
        ]
    );
}

#[test]
fn transition_windowed_to_borderless_drops_decorations_then_maximizes() {
    assert_eq!(
        window_transition_plan(WindowMode::Windowed, WindowMode::BorderlessWindowed),
        vec![
            WindowAction::SetDecorations(false),
            WindowAction::Delay,
            WindowAction::Maximize,
        ]
    );
}

#[test]
fn transition_borderless_to_windowed_unmaximizes_last() {
    assert_eq!(
        window_transition_plan(WindowMode::BorderlessWindowed, WindowMode::Windowed),
        vec![
            WindowAction::SetDecorations(true),
            WindowAction::Delay,
            WindowAction::Unmaximize,
        ]
    );
}

#[test]
fn megabytes_are_whole_divisions_of_bytes() {
    assert_eq!(bytes_to_mb(0), 0);
    assert_eq!(bytes_to_mb(1024 * 1024 - 1), 0);
    assert_eq!(bytes_to_mb(1024 * 1024), 1);
    assert_eq!(bytes_to_mb(16 * 1024 * 1024 * 1024), 16384);
}

#[test]
fn system_info_reports_memory_in_megabytes() {
    let info = SystemInfo::new(
        "Windows".to_string(),
        16,
        8 * 1024 * 1024 * 1024,
        Some("Example GPU 9000".to_string()),
    );
    assert_eq!(info.os, "Windows");
    assert_eq!(info.cpu_cores, 16);
    assert_eq!(info.total_memory_mb, 8192);
    assert_eq!(info.gpu_name.as_deref(), Some("Example GPU 9000"));
}

#[test]
fn update_outcomes() {
    let found = UpdateInfo::found("1.2.3".to_string(), Some("notes".to_string()));
    assert!(found.available);
    assert_eq!(found.version.as_deref(), Some("1.2.3"));
    assert_eq!(found.body.as_deref(), Some("notes"));

    let none = UpdateInfo::up_to_date();
    assert!(!none.available);
    assert_eq!(none.version, None);
    assert_eq!(none.body, None);
}
