//! Decision logic of a vending kiosk built on an ESP32-S3-BOX-Lite: the
//! buttons read through the ADC, the inventory of three food items, the
//! payloads published over MQTT, and the two long-running control loops
//! (the WiFi connection keeper and the measure-and-publish session).
//!
//! Everything here is plain data and pure transitions; the firmware around
//! it performs the I/O that each transition asks for.

pub mod buttons;
pub mod inventory;
pub mod panel;
pub mod payload;
pub mod session;
pub mod wifi;
