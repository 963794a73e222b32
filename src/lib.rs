//! Mailbox synchronization engine: paging over a mailbox's identifier space,
//! merging and caching message summaries, gating notifications on a persisted
//! watermark, the XOAUTH2 SASL payload, and the framed local control protocol.

pub mod auth;
mod chars;
pub mod cycle;
pub mod config;
pub mod control;
mod email;
pub mod frame;
pub mod merge;
pub mod message;
pub mod paging;
pub mod repo;
pub mod retention;
pub mod sasl;
pub mod summary;
pub mod text;
pub mod view;
pub mod watermark;

pub use email::{EmailBody, EmailId, EmailSummary};
