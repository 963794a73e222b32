use vstd::prelude::*;
use crate::email::EmailSummary;

verus! {

/// User configuration.
#[derive(Debug, Clone)]
pub struct Config {
    pub client_id: String,
    pub imap_server: Option<String>,
    pub user_email: Option<String>,
    pub redirect_uri: Option<String>,
    pub db_path: Option<String>,
}

/// The cache database path that `cfg` names; `None` means the default path
/// under the per-user application directory.
pub fn resolve_db_path(cfg: &Config) -> (r: Option<String>)
    ensures
        r == cfg.db_path,
{
    match &cfg.db_path {
        Some(p) => Some(p.clone()),
        None => None,
    }
}

/// Settings of the synchronization daemon.
#[derive(Debug, Clone, Copy)]
pub struct DaemonConfig {
    /// Seconds between scheduled poll cycles.
    pub interval_secs: u64,
    /// Summaries kept in the cache after pruning.
    pub keep_recent: usize,
    /// Pages of [`PAGE_SIZE`] identifiers fetched per cycle.
    pub pages_to_fetch: u32,
}

/// Identifiers per page fetched by a scheduled poll cycle.
pub const PAGE_SIZE: u32 = 20;

/// Shortest interval between scheduled poll cycles, in seconds.
pub const MIN_INTERVAL_SECS: u64 = 5;

impl DaemonConfig {
    /// Seconds until the next scheduled cycle: the configured interval, but
    /// never less than [`MIN_INTERVAL_SECS`].
    pub fn poll_interval_secs(&self) -> (r: u64)
        ensures
            r == if self.interval_secs < MIN_INTERVAL_SECS {
                MIN_INTERVAL_SECS
            } else {
                self.interval_secs
            },
    {
        if self.interval_secs < MIN_INTERVAL_SECS {
            MIN_INTERVAL_SECS
        } else {
            self.interval_secs
        }
    }
}

/// Mailbox server and account of the protocol client.
#[derive(Debug, Clone)]
pub struct ImapClient {
    pub server: String,
    pub user: String,
}

impl ImapClient {
    pub fn new(server: String, user: String) -> (r: ImapClient)
        ensures
            r.server == server,
            r.user == user,
    {
        ImapClient { server, user }
    }
}

/// Desktop notifier for new mail; `icon_path` is the icon shown with each banner.
#[derive(Debug, Clone)]
pub struct Notifier {
    pub icon_path: String,
}

impl Notifier {
    pub fn new(icon_path: String) -> (r: Notifier)
        ensures
            r.icon_path == icon_path,
    {
        Notifier { icon_path }
    }

    /// Banner title for a new message: `<sender> — <subject>`.
    pub fn title(&self, email: &EmailSummary) -> (r: String)
        ensures
            r@ == email.from_name@ + " — "@ + email.subject@,
    {
        let mut r = String::new();
        r.append(email.from_name.as_str());
        r.append(" — ");
        r.append(email.subject.as_str());
        r
    }
}

} // verus!
