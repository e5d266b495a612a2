//! The network services: what the UDP listener, the TCP server and the NTP client decide.

pub mod latch;
pub mod json;
pub mod ntp_client;
pub mod ntp_client_laws;
pub mod ntp_round_laws;
pub mod tcp_round_laws;
pub mod tcp_server;
pub mod tcp_server_laws;
pub mod tcp_slots;
pub mod udp_listener;
pub mod udp_listener_laws;
