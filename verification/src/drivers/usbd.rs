//! The USB device driver.

pub mod constants;
pub mod endpoint_memory;
pub mod memory_laws;
pub mod usb_ram;
