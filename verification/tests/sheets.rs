use time_tracker::sheets::{
    get_on_leave, get_webhook_url, load_on_leave, set_on_leave, set_webhook_url,
    sync_entry_outcome, sync_entry_request, Config, Entry, SyncError,
};

#[test]
fn default_settings_are_empty() {
    let cfg = Config::default();
    assert_eq!(get_webhook_url(&cfg), "");
    assert!(!get_on_leave(&cfg));
    assert!(!load_on_leave(&cfg));
}

#[test]
fn webhook_url_is_trimmed_and_leave_kept() {
    let mut cfg = Config::default();
    set_on_leave(&mut cfg, true);
    set_webhook_url(&mut cfg, "  https://script.google.com/macros/s/abc/exec \n\t");
    assert_eq!(get_webhook_url(&cfg), "https://script.google.com/macros/s/abc/exec");
    assert!(get_on_leave(&cfg));
    // Unicode white space is trimmed too; inner spaces stay.
    set_webhook_url(&mut cfg, "\u{3000}a b\u{a0}");
    assert_eq!(get_webhook_url(&cfg), "a b");
    // Saving what was read back changes nothing.
    let read = get_webhook_url(&cfg);
    set_webhook_url(&mut cfg, &read);
    assert_eq!(get_webhook_url(&cfg), "a b");
}

#[test]
fn leave_flag_keeps_url() {
    let mut cfg = Config::default();
    set_webhook_url(&mut cfg, "https://example.org/exec");
    set_on_leave(&mut cfg, true);
    assert!(load_on_leave(&cfg));
    set_on_leave(&mut cfg, false);
    assert!(!get_on_leave(&cfg));
    assert_eq!(get_webhook_url(&cfg), "https://example.org/exec");
}

#[test]
fn unset_webhook_is_refused_before_sending() {
    let mut cfg = Config::default();
    set_webhook_url(&mut cfg, "   ");
    let err = sync_entry_request(&cfg, sample_entry()).err().unwrap();
    assert!(matches!(err, SyncError::WebhookUnset));
    assert_eq!(err.message(), "Webhook URL not set. Open Settings (⚙︎).");
}

#[test]
fn configured_webhook_is_the_target() {
    let mut cfg = Config::default();
    set_webhook_url(&mut cfg, "https://example.org/exec");
    let req = sync_entry_request(&cfg, sample_entry()).ok().unwrap();
    assert_eq!(req.url, "https://example.org/exec");
    assert_eq!(req.entry.task, "Weekly meeting client");
    assert_eq!(req.entry.date, "2026-06-20");
}

#[test]
fn success_statuses() {
    assert!(sync_entry_outcome(200, "200 OK").is_ok());
    assert!(sync_entry_outcome(204, "204 No Content").is_ok());
    assert!(sync_entry_outcome(299, "299 <unknown status code>").is_ok());
    let err = sync_entry_outcome(302, "302 Found").unwrap_err();
    assert_eq!(err.message(), "Webhook rejected (HTTP 302 Found)");
    let err = sync_entry_outcome(404, "404 Not Found").unwrap_err();
    assert_eq!(err.message(), "Webhook rejected (HTTP 404 Not Found)");
    assert!(sync_entry_outcome(199, "199 <unknown status code>").is_err());
    assert!(sync_entry_outcome(300, "300 Multiple Choices").is_err());
}

#[test]
fn error_messages() {
    assert_eq!(SyncError::Connection("timed out".to_string()).message(), "Connection failed: timed out");
    assert_eq!(SyncError::Client("no TLS backend".to_string()).message(), "no TLS backend");
}

fn sample_entry() -> Entry {
    Entry {
        date: "2026-06-20".to_string(),
        task: "Weekly meeting client".to_string(),
        start: "08:00".to_string(),
        end: "09:00".to_string(),
        duration: time_tracker::timer::format_duration(3600),
    }
}

#[test]
fn entry_holds_fields() {
    let e = Entry {
        date: "2026-06-20".to_string(),
        task: "Weekly meeting client".to_string(),
        start: "08:00".to_string(),
        end: "09:00".to_string(),
        duration: time_tracker::timer::format_duration(3600),
    };
    assert_eq!(e.duration, "1h 0m");
    assert_eq!(e.task, "Weekly meeting client");
}
