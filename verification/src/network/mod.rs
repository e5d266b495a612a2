//! The network interfaces: what the Wi-Fi and Ethernet tasks decide.

pub mod addressing;
pub mod addressing_laws;
pub mod ethernet;
pub mod ethernet_laws;
pub mod ethernet_outcome_laws;
pub mod ipv4;
pub mod links;
pub mod report;
pub mod report_laws;
pub mod tasks;
pub mod wifi;
pub mod wifi_station;
pub mod wifi_station_laws;
