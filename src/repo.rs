use vstd::prelude::*;
use crate::email::{EmailBody, EmailId, EmailSummary};

verus! {

/// Why the cache could not be read or written, with the backend's own text.
#[derive(Debug, Clone)]
pub struct StorageError {
    pub detail: String,
}

/// Durable cache of summaries, bodies and small integer counters: the only
/// way the orchestrator and the reading surface touch synchronized state.
/// Multi-row writes are all-or-nothing. Pruning keeps the rows that
/// `retention::plan_prune` keeps and deletes the bodies that
/// `retention::orphaned_ids` reports.
pub trait MailRepository {
    fn upsert_summaries(&self, items: &Vec<EmailSummary>) -> Result<(), StorageError>;

    fn upsert_body(&self, body: &EmailBody) -> Result<(), StorageError>;

    fn list_page(&self, page: u32, page_size: u32) -> Result<Vec<EmailSummary>, StorageError>;

    fn get_body(&self, id: EmailId) -> Result<Option<EmailBody>, StorageError>;

    fn prune_keep_recent(&self, keep: usize) -> Result<(), StorageError>;

    fn get_meta_i64(&self, key: &str) -> Result<Option<i64>, StorageError>;

    fn set_meta_i64(&self, key: &str, value: i64) -> Result<(), StorageError>;
}

} // verus!
