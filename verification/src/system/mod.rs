//! What the firmware asks of the platform itself.

pub mod wdt;
