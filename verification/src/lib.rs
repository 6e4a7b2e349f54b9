//! Collects the route geometry of a travel log: the statuses of a paginated
//! listing are filtered, their polylines are requested in batches, local tracks
//! are added, and the result is rendered as one dataset.

pub mod config;
pub mod data;
pub mod gpx_reader;
pub mod http;
pub mod json;
pub mod output;
pub mod polyline;
pub mod status;
pub mod text;
pub mod traewelling;
