//! Building blocks of a one-shot telemetry and weather report: exact unit
//! conversions, uptime decomposition, and the text of every report block.
pub mod gpu;
pub mod host;
pub mod paths;
pub mod report;
pub mod text;
pub mod units;
pub mod uptime;
pub mod weather;
