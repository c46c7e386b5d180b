//! Settings and webhook sync decisions.
//!
//! Finished entries are POSTed to a Google Apps Script web app whose URL the
//! user pastes in the settings; the settings also hold the On Leave flag.
//! Reading and writing the settings file, and the HTTP request itself, happen
//! around these functions.

use vstd::prelude::*;

use crate::text::{trim_text, trimmed};

verus! {

/// One finished time entry — the shape sent to the webhook (and to the
/// Sheet row).
pub struct Entry {
    pub date: String,
    pub task: String,
    pub start: String,
    pub end: String,
    pub duration: String,
}

/// The persisted settings.
pub struct Config {
    /// The webhook URL (empty when unset).
    pub webhook_url: String,
    /// On Leave: when true, all reminders are paused.
    pub on_leave: bool,
}

impl Default for Config {
    /// The settings used when none are saved yet (or they cannot be read).
    fn default() -> (cfg: Self)
        ensures
            cfg.webhook_url@ == Seq::<char>::empty(),
            !cfg.on_leave,
    {
        Config { webhook_url: String::new(), on_leave: false }
    }
}

/// Read the persisted On Leave flag (used at startup to seed app state).
pub fn load_on_leave(cfg: &Config) -> (on_leave: bool)
    ensures
        on_leave == cfg.on_leave,
{
    cfg.on_leave
}

/// Return the currently saved webhook URL (empty string if unset).
pub fn get_webhook_url(cfg: &Config) -> (url: String)
    ensures
        url@ == cfg.webhook_url@,
{
    cfg.webhook_url.clone()
}

/// Set the webhook URL, with surrounding white space removed, preserving
/// other settings.
pub fn set_webhook_url(cfg: &mut Config, url: &str)
    ensures
        final(cfg).webhook_url@ == trimmed(url@),
        final(cfg).on_leave == old(cfg).on_leave,
{
    let kept = trim_text(url);
    cfg.webhook_url = String::from_str(kept);
}

/// Return whether On Leave (notifications paused) is enabled.
pub fn get_on_leave(cfg: &Config) -> (on_leave: bool)
    ensures
        on_leave == cfg.on_leave,
{
    cfg.on_leave
}

/// Set the On Leave flag, preserving other settings.
pub fn set_on_leave(cfg: &mut Config, value: bool)
    ensures
        final(cfg).on_leave == value,
        final(cfg).webhook_url@ == old(cfg).webhook_url@,
{
    cfg.on_leave = value;
}

/// Saving the URL that was read back after a save changes nothing: the
/// stored URL is already trimmed.
pub proof fn saved_url_is_stable(url: Seq<char>)
    ensures
        trimmed(trimmed(url)) == trimmed(url),
{
    crate::text::lemma_trimmed_idempotent(url);
}

/// Why an entry could not be synced.
pub enum SyncError {
    /// No webhook URL is configured; nothing was sent.
    WebhookUnset,
    /// The HTTP client could not be built (the client's message).
    Client(String),
    /// The request failed (the client's message).
    Connection(String),
    /// The webhook answered with a non-success status (the status as text).
    Rejected(String),
}

/// The message shown for each sync error.
pub open spec fn sync_error_text(e: SyncError) -> Seq<char> {
    match e {
        SyncError::WebhookUnset => "Webhook URL not set. Open Settings (⚙︎)."@,
        SyncError::Client(m) => m@,
        SyncError::Connection(m) => "Connection failed: "@ + m@,
        SyncError::Rejected(status) => "Webhook rejected (HTTP "@ + status@ + ")"@,
    }
}

impl SyncError {
    /// The message shown to the user.
    pub fn message(&self) -> (text: String)
        ensures
            text@ == sync_error_text(*self),
    {
        match self {
            SyncError::WebhookUnset => String::from_str("Webhook URL not set. Open Settings (⚙︎)."),
            SyncError::Client(m) => m.clone(),
            SyncError::Connection(m) => {
                let mut text = String::from_str("Connection failed: ");
                text.append(m.as_str());
                text
            },
            SyncError::Rejected(status) => {
                let mut text = String::from_str("Webhook rejected (HTTP ");
                text.append(status.as_str());
                text.append(")");
                text
            },
        }
    }
}

/// A finished entry and the webhook it is to be POSTed to.
pub struct SyncRequest {
    pub url: String,
    pub entry: Entry,
}

/// The request that syncs `entry`: to the configured webhook URL, or
/// `WebhookUnset` (before any request is made) when that is empty.
pub fn sync_entry_request(cfg: &Config, entry: Entry) -> (request: Result<SyncRequest, SyncError>)
    ensures
        cfg.webhook_url@.len() == 0 <==> request is Err,
        request matches Ok(r) ==> r.url@ == cfg.webhook_url@ && r.entry == entry,
        request matches Err(e) ==> e is WebhookUnset,
{
    if cfg.webhook_url.as_str().is_empty() {
        Err(SyncError::WebhookUnset)
    } else {
        Ok(SyncRequest { url: cfg.webhook_url.clone(), entry })
    }
}

/// An HTTP status in the success class, 200–299.
pub open spec fn is_success_status(code: u16) -> bool {
    200 <= code < 300
}

/// The success class is exactly the statuses 200 to 299; every other
/// status is a rejection.
pub proof fn success_class(status: u16)
    ensures
        is_success_status(status) <==> (200 <= status && status < 300),
{
}

/// The result of a sync once the webhook answered with `status`
/// (`status_text` is how the status is shown, e.g. "404 Not Found").
pub fn sync_entry_outcome(status: u16, status_text: &str) -> (outcome: Result<(), SyncError>)
    ensures
        outcome is Ok <==> is_success_status(status),
        outcome is Ok <==> (200 <= status && status < 300),
        outcome matches Err(e) ==> (e matches SyncError::Rejected(t) && t@ == status_text@),
{
    if 200 <= status && status < 300 {
        Ok(())
    } else {
        Err(SyncError::Rejected(String::from_str(status_text)))
    }
}

} // verus!
