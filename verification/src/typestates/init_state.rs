//! Whether a peripheral is in use.

use vstd::prelude::*;

verus! {

/// The states below.
pub trait InitState {

}

/// Nothing is known yet.
pub struct Unknown;

/// Clocked, powered and set up.
pub struct Enabled(pub(crate) ());

/// Switched off.
pub struct Disabled;

impl InitState for Unknown {

}

impl InitState for Enabled {

}

impl InitState for Disabled {

}

} // verus!
