//! The peripherals of the chip.

pub mod usbhs;
pub mod usbhs_action;
pub mod usbhs_enable;
pub mod usbhs_laws;
pub mod usbhs_phy_laws;
pub mod usbhs_power_laws;
