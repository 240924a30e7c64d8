//! Control logic for ASUS ROG laptops: keyboard lighting, graphics power, raw HID
//! devices and the settings of the control centre.
//!
//! Every function here computes. Whatever touches a device, a file, the message bus or
//! a timer is described by a value that the host carries out, and its outcome is handed
//! back as a value.

pub mod aura;
pub mod aura_laptop;
pub mod autostart;
pub mod config;
pub mod dmi;
pub mod gpu;
pub mod gpu_watch;
pub mod hid_raw;
pub mod lamp_array;
pub mod lamp_array_zbus;
pub mod paths;
pub mod script;
pub mod text;
