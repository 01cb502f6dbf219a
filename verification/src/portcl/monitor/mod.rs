//! Watching Portage: events, and what Portage's tools and the system report.
pub mod events;
pub mod portage;
pub mod metrics;
