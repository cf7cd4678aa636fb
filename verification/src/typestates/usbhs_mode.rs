//! Which side of the bus the USB HS port plays.

use vstd::prelude::*;

verus! {

/// The modes below.
pub trait UsbhsMode {

}

/// Nothing is known yet.
pub struct Unknown;

/// The port is a USB device.
pub struct Device;

/// The port is a USB host.
pub struct Host;

impl UsbhsMode for Unknown {

}

impl UsbhsMode for Device {

}

impl UsbhsMode for Host {

}

} // verus!
