//! Crawl orchestration for a news harvester: which identifiers to visit, how
//! fetches are retried, how a run's progress is counted and published, and
//! how at most one run is kept alive at a time.

// The run of a crawl.
pub mod coordinator;
pub mod coordinator_laws;
pub mod crawl;
pub mod crawl_laws;
pub mod fetch;
pub mod progress;

// The sources and what their pages say.
pub mod article;
pub mod dates;
pub mod digest;
pub mod dom;
pub mod listing;
pub mod scrapers;
pub mod source;

// Records and text.
pub mod chars;
pub mod model;
pub mod text;

// The service around it.
pub mod config;
pub mod paging;
