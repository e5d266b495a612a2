//! Wi-Fi: station, access point and scans over one radio.

pub mod clients;
pub mod config;
pub mod ip;
pub mod outcome_laws;
pub mod scan;
pub mod scan_laws;
pub mod state;
pub mod task;
pub mod task_laws;
