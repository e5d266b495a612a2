//! The messages that frames carry.

pub mod interface_settings;
pub mod interface_state;
pub mod payload;
pub mod ready;
pub mod record_laws;
pub mod service_settings;
pub mod service_state;
pub mod tcp_command;
pub mod tcp_data;
pub mod wifi_scan;
