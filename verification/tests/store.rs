use git_auto_pull::models::{CloseBehavior, ProxyMode, Settings, DEFAULT_UPDATE_ENDPOINT};
use git_auto_pull::store::{
    log_needs_trim, settings_from_legacy, trimmed_log, with_default_endpoint, LegacyClose,
    LegacyMaintenance, LegacyProxy, LegacySettings, LogBook,
};

#[test]
fn log_keeps_its_last_lines() {
    let mut book = LogBook::new();
    for i in 0..510 {
        book.push(format!("line {i}"));
    }
    let entries = book.entries();
    assert_eq!(entries.len(), 500);
    assert_eq!(entries[0], "line 10");
    assert_eq!(entries[499], "line 509");
    book.clear();
    assert!(book.entries().is_empty());
    let text: String = (0..600).map(|i| format!("{i}\n")).collect();
    let loaded = LogBook::from_text(&text).entries();
    assert_eq!(loaded.len(), 500);
    assert_eq!(loaded[0], "100");
}

#[test]
fn log_files_are_cut_to_their_later_half() {
    assert_eq!(trimmed_log("a\nb\nc\nd\n"), "c\nd");
    assert_eq!(trimmed_log("a\nb\nc"), "b\nc");
    let mut settings = Settings::default();
    assert!(!log_needs_trim(&settings, 5 * 1024 * 1024));
    assert!(log_needs_trim(&settings, 5 * 1024 * 1024 + 1));
    settings.max_log_size_mb = 0;
    assert!(log_needs_trim(&settings, 1024 * 1024 + 1));
    settings.auto_maintain_logs = false;
    assert!(!log_needs_trim(&settings, u64::MAX));
}

#[test]
fn blank_endpoints_fall_back_to_the_default() {
    let mut settings = Settings::default();
    settings.update_endpoint = "  ".into();
    assert_eq!(with_default_endpoint(settings).update_endpoint, DEFAULT_UPDATE_ENDPOINT);
    let mut custom = Settings::default();
    custom.update_endpoint = "https://x".into();
    assert_eq!(with_default_endpoint(custom).update_endpoint, "https://x");
}

#[test]
fn earlier_settings_are_taken_over() {
    let legacy = LegacySettings {
        repositories: None,
        start_with_windows: Some(true),
        close_behavior: LegacyClose::Text("EXIT".into()),
        proxy: Some(LegacyProxy { mode: Some(2), address: Some("http://p:1".into()) }),
        maintenance: Some(LegacyMaintenance {
            auto_maintain_logs: None,
            max_log_size_mb: Some(4_294_967_297),
            auto_check_updates: None,
            update_manifest_url: None,
        }),
    };
    let s = settings_from_legacy(legacy);
    assert!(s.start_with_windows);
    assert_eq!(s.close_behavior, CloseBehavior::Exit);
    assert_eq!(s.proxy_mode, ProxyMode::Custom);
    assert_eq!(s.proxy_address, "http://p:1");
    assert!(s.auto_maintain_logs);
    assert_eq!(s.max_log_size_mb, 1);
    assert!(!s.auto_check_updates);
    assert_eq!(s.update_endpoint, "");
    let plain = settings_from_legacy(LegacySettings {
        repositories: Some(Vec::new()),
        start_with_windows: None,
        close_behavior: LegacyClose::Number(Some(0)),
        proxy: None,
        maintenance: None,
    });
    assert_eq!(plain.close_behavior, CloseBehavior::Background);
    assert_eq!(plain.proxy_mode, ProxyMode::System);
    assert!(plain.auto_check_updates);
    assert_eq!(plain.update_endpoint, DEFAULT_UPDATE_ENDPOINT);
}
