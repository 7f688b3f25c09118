//! Verified protocol core for QCY wireless earbuds: the `0xFF`-framed
//! command codec, every setting's wire encoding and decoding, profile
//! validation, and the decisions the BLE client and the front ends make.

pub mod error;
pub mod protocol;
pub mod command;
pub mod balance;
pub mod battery;
pub mod query;
pub mod response;
pub mod game_mode;
pub mod ldac;
pub mod multipoint;
pub mod sleep_mode;
pub mod disconnect_power_off;
pub mod notification_volume;
pub mod scheduled_power_off;
pub mod wear_detection;
pub mod touch_action;
pub mod text;
pub mod device_actions;
pub mod version;
pub mod eq;
pub mod profile;
pub mod device;
pub mod client;
pub mod session;
pub mod cli;
pub mod gui;
