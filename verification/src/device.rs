//! Constants of the device's GATT profile.

pub mod profile;
