//! Aggregation core of a weather-report service.
//!
//! The library holds the verified logic of the service: validating the
//! "lat,lon" coordinate string, computing the historical-year sampling
//! schedule, formatting query dates, applying the lenient defaulting rules to
//! upstream payloads, collecting per-year historical samples and errors, and
//! assembling the final report.  The HTTP server and the upstream calls live
//! outside the library and hand it plain values.

pub mod clock;
pub mod dates;
pub mod history;
pub mod location;
pub mod report;
pub mod schedule;
pub mod workflow;
