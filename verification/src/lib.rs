//! Verified decision logic of a set of ESP32 firmware experiments.
pub mod blink;
pub mod decimal;
pub mod p2p;
pub mod ranging;
pub mod wifi;
pub mod watering;
pub mod oled;
