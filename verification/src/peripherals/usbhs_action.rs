//! The single steps in which USB HS hardware is switched on and off.
//!
//! An [`Action`] is decided on here and carried out by whoever owns the
//! registers.

use vstd::prelude::*;

verus! {

// USBPHY_CTRL bits, written through the one-shot CTRL_SET/CTRL_CLR aliases.

/// Bit 19: the clock gate opens by itself when the PHY wakes up.
pub const CTRL_ENAUTOCLR_CLKGATE: u32 = 0x0008_0000;

/// Bit 30: the clocks of the PHY are gated.
pub const CTRL_CLKGATE: u32 = 0x4000_0000;

/// Bit 31: the PHY is held in soft reset.
pub const CTRL_SFTRST: u32 = 0x8000_0000;

// USBPHY_PLL_SIC bits, written through the one-shot PLL_SIC_SET/PLL_SIC_CLR aliases.

/// Bit 6: the PLL drives the USB clocks.
pub const PLL_SIC_EN_USB_CLKS: u32 = 0x0000_0040;

/// Bit 12: the PLL is powered.
pub const PLL_SIC_POWER: u32 = 0x0000_1000;

/// Bit 16: reserved; UM11126 rev 2.8 Table 850 says software must write it 0,
/// and it resets to 1.
pub const PLL_SIC_RESERVED_16: u32 = 0x0001_0000;

/// Bit 21: the regulator of the PLL is on.
pub const PLL_SIC_REG_ENABLE: u32 = 0x0020_0000;

/// Bits 22 to 24: which crystal the feedback divider of the PLL is set for.
pub const PLL_SIC_DIV_SEL: u32 = 0x01c0_0000;

/// The bits of [`PLL_SIC_DIV_SEL`] that are 1 where the field holds 6, the
/// setting for 16 MHz, the xtal32m.
pub const PLL_SIC_DIV_SEL_16MHZ: u32 = 0x0180_0000;

/// The bits of [`PLL_SIC_DIV_SEL`] that are 0 where the field holds 6.
pub const PLL_SIC_DIV_SEL_16MHZ_ZEROS: u32 = 0x0040_0000;

/// USBPHY_PWD bit 12, TXPWDV2I: the current bias of the transmitter is off.
pub const PWD_TXPWDV2I: u32 = 0x0000_1000;

/// How long the PHY gets to be ready after it was powered on.
pub const PHY_READY_MICROSECONDS: u32 = 5000;

/// How long the regulator of the PLL takes to stabilize, at least.
pub const PLL_REG_MICROSECONDS: u32 = 15;

/// A part of USB HS with a clock and a reset of its own.
#[derive(Clone, Copy, Debug, PartialEq, Eq, Structural)]
pub enum Block {
    /// USBPHY, the PHY.
    Phy,
    /// USB1, the device controller.
    Hsd,
    /// USBHSH, the host controller.
    Hsh,
}

/// A field of PDRUNCFG0 in the power management controller.
#[derive(Clone, Copy, Debug, PartialEq, Eq, Structural)]
pub enum Supply {
    /// PDEN_XTAL32M, the 32M crystal.
    Xtal32m,
    /// PDEN_LDOXO32M, the regulator of the 32M crystal.
    Ldoxo32m,
}

/// A register of USBPHY that is written.
///
/// USBPHY_CTRL and USBPHY_PLL_SIC are not among them: writing those means
/// rewriting all 32 bits, which is not the same operation as changing one.
#[derive(Clone, Copy, Debug, PartialEq, Eq, Structural)]
pub enum PhyRegister {
    /// Sets the bits of USBPHY_CTRL that are written 1.
    CtrlSet,
    /// Clears the bits of USBPHY_CTRL that are written 1.
    CtrlClr,
    /// Sets the bits of USBPHY_PLL_SIC that are written 1.
    PllSicSet,
    /// Clears the bits of USBPHY_PLL_SIC that are written 1.
    PllSicClr,
    /// USBPHY_PWD itself.
    Pwd,
    /// Sets the bits of USBPHY_PWD that are written 1.
    PwdSet,
}

/// One step.
#[derive(Clone, Copy, Debug, PartialEq, Eq, Structural)]
pub enum Action {
    /// Reset the block.
    Reset(Block),
    /// Turn the clock of the block on.
    EnableClock(Block),
    /// Turn the clock of the block off.
    DisableClock(Block),
    /// Power the block on.
    PowerOn(Block),
    /// Power the block off.
    PowerOff(Block),
    /// Power the supply on.
    PowerOnSupply(Supply),
    /// Power the supply off.
    PowerOffSupply(Supply),
    /// Set DEV_ENABLE in PORTMODE of USBHSH: the device controller gets
    /// control of the USB1 port.
    EnableDevicePort,
    /// Set ENABLE_PLL_USB_OUT in XO32M_CTRL: the crystal drives the USB PLL.
    EnablePllUsbOut,
    /// Wait for so many microseconds.
    Wait(u32),
    /// Write the bits to the register of USBPHY.
    WritePhy(PhyRegister, u32),
    /// Read USBPHY_CTRL, and answer with what was read.
    ReadPhyCtrl,
}

/// The answer to an action that was carried out.
#[derive(Clone, Copy, Debug, PartialEq, Eq, Structural)]
pub enum Reply {
    /// It is done.
    Done,
    /// USBPHY_CTRL was read, and held this.
    Ctrl(u32),
}

/// Whether `reply` is an answer to `action`.
pub open spec fn answers(action: Action, reply: Reply) -> bool {
    if action == Action::ReadPhyCtrl {
        reply is Ctrl
    } else {
        reply is Done
    }
}

} // verus!
