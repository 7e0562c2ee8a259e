//! A verified core for a concurrent gallery downloader: the orchestration
//! pipeline between a URL-discovery producer, a bounded pool of download
//! tasks with retry, and a progress reporter.

pub mod args;
pub mod config;
pub mod downloaders;
pub mod orchestrator;
pub mod progress;
pub mod retry;
pub mod strutil;
pub mod task;
pub mod title;
pub mod transport;
pub mod uri;
