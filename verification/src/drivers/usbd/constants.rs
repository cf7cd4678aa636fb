//! Where the endpoint memory lies, and how it is divided up.

use vstd::prelude::*;

verus! {

/// Address of "USB1_SRAM".
///
/// The USB HS controller has no access to regular SRAM and must use this one.
/// The USB FS controller can use it too.
pub const EP_MEM_ADDR: usize = 0x4010_0000;

/// Size of "USB1_SRAM" in bytes.
pub const EP_MEM_SIZE: usize = 0x4000;

/// Size in bytes of the endpoint registers, which are kept at the start of the
/// endpoint memory: four words for each of the six endpoints.
pub const EP_REGISTERS_SIZE: usize = 0x60;

/// The unit in which the endpoint memory is addressed.
pub type UsbAccessType = u8;

} // verus!
