//! Traits that peripherals share.

pub mod usb;
