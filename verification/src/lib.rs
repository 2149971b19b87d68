//! Verified support logic for the Antminer S19XP Amlogic control board:
//! settings, sysfs GPIO lines, APW12 power supply packets, the bring-up
//! sequence and BM1366 chip discovery.

pub mod apw12;
pub mod bringup;
pub mod config;
pub mod discovery;
pub mod gpio;
pub mod text;
pub mod transport;
pub mod values;
