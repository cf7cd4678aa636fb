//! The USB1 high-speed device controller of the LPC55 microcontrollers: the
//! memory its endpoints share with the processor, and the order in which the
//! controller and its PHY are brought up and shut down.

pub mod drivers;
pub mod peripherals;
pub mod traits;
pub mod typestates;
