use yaoscope::resolver::ProcessEntry;
use yaoscope::resolver::ResolveError;
use yaoscope::system_api::screenshot_from_raw;
use yaoscope::system_api::wm_char_sequence;
use yaoscope::system_api::CursorAppInfo;
use yaoscope::system_api::ForegroundProbe;
use yaoscope::system_api::ScreenshotInfo;
use yaoscope::system_api::SystemApiManager;
use yaoscope::system_api::WindowProbe;

fn units_of(text: &str) -> Vec<u16> {
    text.encode_utf16().collect()
}

fn entry(process_id: u32, exe: &str) -> ProcessEntry {
    let mut exe_file = units_of(exe);
    exe_file.push(0);
    ProcessEntry { process_id, exe_file }
}

fn probe_at(x: i32, y: i32, title: &str, process_id: u32) -> ForegroundProbe {
    let mut title_units = units_of(title);
    let title_len = title_units.len();
    title_units.resize(256, 0);
    ForegroundProbe {
        cursor: Some((x, y)),
        window: Some(WindowProbe { title_units, title_len, process_id }),
    }
}

fn shot(app_name: &str, timestamp: u64) -> ScreenshotInfo {
    ScreenshotInfo {
        app_name: app_name.to_string(),
        window_title: "W".to_string(),
        data: "D".to_string(),
        width: 1,
        height: 1,
        timestamp,
    }
}

#[test]
fn resolution_assembles_the_context() {
    let manager = SystemApiManager::new();
    let snapshot = vec![entry(6, "other.exe"), entry(7, "MyApp.exe")];
    let info = manager
        .get_cursor_app_info(&probe_at(12, 34, "Hello - MyApp", 7), Some(&snapshot), 1111)
        .unwrap();
    assert_eq!(info.cursor_x, 12);
    assert_eq!(info.cursor_y, 34);
    assert_eq!(info.app_name, "MyApp");
    assert_eq!(info.window_title, "Hello - MyApp");
    assert_eq!(info.process_id, 7);
    assert_eq!(info.timestamp, 1111);
}

#[test]
fn resolution_fails_without_cursor_or_window() {
    let manager = SystemApiManager::new();
    let no_cursor = ForegroundProbe { cursor: None, window: None };
    assert!(matches!(
        manager.get_cursor_app_info(&no_cursor, None, 0),
        Err(ResolveError::CursorUnavailable)
    ));
    let no_window = ForegroundProbe { cursor: Some((1, 2)), window: None };
    assert!(matches!(
        manager.get_cursor_app_info(&no_window, None, 0),
        Err(ResolveError::NoForegroundWindow)
    ));
}

#[test]
fn resolution_recovers_with_placeholders() {
    let manager = SystemApiManager::new();
    // No snapshot at all, and an empty title read.
    let mut probe = probe_at(1, 2, "", 7);
    if let Some(w) = probe.window.as_mut() {
        w.title_len = 0;
    }
    let info = manager.get_cursor_app_info(&probe, None, 5).unwrap();
    assert_eq!(info.app_name, "Unknown Process");
    assert_eq!(info.window_title, "Unknown Window");
    // A snapshot without the process id gives the same placeholder.
    let snapshot = vec![entry(1, "a.exe")];
    let info = manager.get_cursor_app_info(&probe_at(1, 2, "T", 7), Some(&snapshot), 5).unwrap();
    assert_eq!(info.app_name, "Unknown Process");
}

#[test]
fn recording_stores_the_latest_context() {
    let mut manager = SystemApiManager::new();
    assert!(manager.get_stored_cursor_info().is_none());
    let snapshot = vec![entry(7, "MyApp.exe")];
    manager.record_cursor_app_info(&probe_at(1, 2, "T", 7), Some(&snapshot), 10).unwrap();
    manager.record_cursor_app_info(&probe_at(3, 4, "T", 7), Some(&snapshot), 11).unwrap();
    let stored: CursorAppInfo = manager.get_stored_cursor_info().unwrap();
    assert_eq!(stored.cursor_x, 3);
    assert_eq!(stored.cursor_y, 4);
    assert_eq!(stored.timestamp, 11);
    // A failed resolution leaves the stored context alone.
    let bad = ForegroundProbe { cursor: None, window: None };
    assert!(manager.record_cursor_app_info(&bad, None, 12).is_err());
    assert_eq!(manager.get_stored_cursor_info().unwrap().timestamp, 11);
}

#[test]
fn cache_serves_only_fresh_screenshots() {
    let mut manager = SystemApiManager::new();
    manager.store_screenshot(shot("editor", 100));
    assert!(manager.cached_screenshot("editor", 100).is_some());
    assert!(manager.cached_screenshot("editor", 104).is_some());
    assert!(manager.cached_screenshot("editor", 105).is_none());
    // A timestamp in the future is not fresh either.
    assert!(manager.cached_screenshot("editor", 99).is_none());
    assert!(manager.cached_screenshot("browser", 100).is_none());
}

#[test]
fn storing_again_replaces_the_entry() {
    let mut manager = SystemApiManager::new();
    manager.store_screenshot(shot("editor", 100));
    manager.store_screenshot(shot("browser", 100));
    let mut newer = shot("editor", 200);
    newer.data = "D2".to_string();
    manager.store_screenshot(newer);
    let got = manager.cached_screenshot("editor", 201).unwrap();
    assert_eq!(got.timestamp, 200);
    assert_eq!(got.data, "D2");
    assert_eq!(manager.cached_screenshot("browser", 101).unwrap().timestamp, 100);
}

#[test]
fn capture_uses_cache_then_fallback() {
    let mut manager = SystemApiManager::new();
    let first = manager.capture_app_screenshot("editor", 50);
    assert_eq!(first.app_name, "editor");
    assert_eq!(first.window_title, "Unknown");
    assert_eq!(first.data, "");
    assert_eq!(first.timestamp, 50);
    // Within the freshness window the cached record is served as is.
    let second = manager.capture_app_screenshot("editor", 52);
    assert_eq!(second.timestamp, 50);
    // After it went stale a new capture replaces it.
    let third = manager.capture_app_screenshot("editor", 60);
    assert_eq!(third.timestamp, 60);
}

#[test]
fn clearing_the_cache_forgets_everything() {
    let mut manager = SystemApiManager::new();
    manager.store_screenshot(shot("editor", 100));
    manager.clear_screenshot_cache();
    assert!(manager.cached_screenshot("editor", 100).is_none());
}

#[test]
fn raw_capture_is_encoded_for_transport() {
    let pixels = vec![77u8, 97, 110];
    let shot = screenshot_from_raw("editor", "W".to_string(), &pixels, 2, 3, 9);
    assert_eq!(shot.data, "TWFu");
    assert_eq!(shot.app_name, "editor");
    assert_eq!(shot.window_title, "W");
    assert_eq!(shot.width, 2);
    assert_eq!(shot.height, 3);
    assert_eq!(shot.timestamp, 9);
    let padded = screenshot_from_raw("e", "W".to_string(), &vec![0u8, 0, 0, 0], 1, 1, 0);
    assert_eq!(padded.data, "AAAAAA==");
}

#[test]
fn character_messages_end_with_a_carriage_return() {
    assert_eq!(wm_char_sequence("hi"), vec!['h', 'i', '\r']);
    assert_eq!(wm_char_sequence(""), vec!['\r']);
}

#[test]
fn fallback_text_delivery_reports_success() {
    let manager = SystemApiManager::new();
    assert!(manager.input_text_to_app("editor", "hello"));
}
