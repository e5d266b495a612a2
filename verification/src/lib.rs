//! Firmware core of an ESP32 network coprocessor driven by an STM32 master over a UART.
//!
//! `master` holds the frame protocol and the message codecs, `network` the decisions of the
//! Wi-Fi and Ethernet tasks, `services` those of the UDP, TCP and NTP services, and `system`
//! the watchdog policy. Drivers, sockets, threads and clocks live outside the library.

pub mod bytes;
pub mod master;
pub mod msgpack;
pub mod msgpack_laws;
pub mod network;
pub mod services;
pub mod system;
pub mod text;
pub mod text_laws;
