//! Drivers that sit on top of the peripherals.

pub mod usbd;
