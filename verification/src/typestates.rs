//! Types that carry the state of a peripheral.

use vstd::prelude::*;

pub mod init_state;
pub mod usbhs_mode;

verus! {

/// Stands for clocks that are set up so that USB HS works.
///
/// It is for the clock driver to make, once it has set them up that way.
pub struct ClocksSupportUsbhsToken {
    pub __: (),
}

} // verus!
