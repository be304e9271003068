//! Firmware logic of a split wireless keyboard: the debounce store shared by
//! the scanning, aging and reporting tasks, the layer resolver and the
//! assembly of boot-keyboard HID reports, with the power-save and idle-sleep
//! decisions that gate them.
pub mod ble;
pub mod config;
pub mod debounce;
pub mod enums;
pub mod layers;
pub mod layout;
pub mod matrix;
pub mod storage;
