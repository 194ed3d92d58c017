//! Metadata pipeline for AURN air-quality monitoring stations.
//!
//! The library holds the verified logic of the pipeline: decoding a bulk
//! CSV listing into station records, finding the CSV download link on the
//! listing page, enriching each record with a site code scraped from a
//! per-station page, and filtering records by an operating-date window.
//! Network I/O stays outside the library; callers fetch pages and hand the
//! text in.

pub mod bulk;
pub mod clock;
pub mod config;
pub mod enrich;
pub mod error;
pub mod filter;
pub mod instant;
pub mod page;
pub mod pattern;
pub mod pipeline;
pub mod record;

pub use config::Config;
pub use error::PipelineError;
pub use instant::Instant;
pub use pipeline::AURNMetadata;
pub use record::StationRecord;
