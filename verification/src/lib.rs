//! Job pipeline engine for a multi-stage media-processing system.
//!
//! The crate models the durable job queue, its stage state machine, the
//! worker-pool decision logic, the disk-pressure admission controller, the
//! retry policy and the artifact-lifecycle cleanup contract. Everything here
//! is verified; the surrounding binaries do the actual I/O and hand plain
//! values in and out.

pub mod apitypes;
pub mod cache;
pub mod config;
pub mod discovery;
pub mod disk;
pub mod download;
pub mod logging;
pub mod model;
pub mod paths;
pub mod queue;
pub mod ratelimit;
pub mod scraper;
pub mod selector;
pub mod stage;
pub mod text;
pub mod transcribe;
pub mod transcript;
pub mod worker;

pub use stage::JobStage;
pub use stage::ProcessingStatus;
