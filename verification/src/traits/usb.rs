//! What USB controllers have in common.

use vstd::prelude::*;

use crate::typestates::init_state;

verus! {

/// How fast a controller talks.
#[derive(Clone, Copy, Debug, PartialEq, Eq, Structural)]
pub enum UsbSpeed {
    /// 12 Mbit/s.
    FullSpeed,
    /// 480 Mbit/s.
    HighSpeed,
}

/// A USB device controller in the given state.
pub trait Usb<State: init_state::InitState> {
    /// How fast the controller talks.
    const SPEED: UsbSpeed;
}

} // verus!
