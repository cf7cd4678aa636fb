//! In which order USB HS is brought up as a device.

use vstd::prelude::*;

use crate::peripherals::usbhs_action::{
    Action, Block, CTRL_CLKGATE, CTRL_ENAUTOCLR_CLKGATE, CTRL_SFTRST, PHY_READY_MICROSECONDS,
    PLL_REG_MICROSECONDS, PLL_SIC_DIV_SEL_16MHZ, PLL_SIC_DIV_SEL_16MHZ_ZEROS, PLL_SIC_EN_USB_CLKS,
    PLL_SIC_POWER, PLL_SIC_REG_ENABLE, PLL_SIC_RESERVED_16, PhyRegister, Reply, Supply,
};
use crate::peripherals::usbhs_action;

verus! {

/// How many times to issue `CTRL_CLR = CLKGATE` before giving up on the
/// read-back confirming it.
///
/// The clear is not reliably taken on the first write after the PHY has been
/// through a soft reset, so the bit is read back rather than one write assumed
/// to land. A second write has always been enough; four bounds the loop with
/// margin and costs nothing where the first write works.
pub const CLKGATE_CLEAR_ATTEMPTS: u32 = 4;

/// Number of actions in [`preparation`].
pub const PREPARATION_LEN: usize = 20;

/// Number of actions in [`completion`].
pub const COMPLETION_LEN: usize = 3;

/// What is done before the clock gate of the PHY is opened.
pub open spec fn preparation() -> Seq<Action> {
    seq![
        // Reset devices
        Action::Reset(Block::Hsh),
        Action::Reset(Block::Hsd),
        Action::Reset(Block::Phy),
        // Briefly turn on host controller to enable device control of USB1 port
        Action::EnableClock(Block::Hsh),
        Action::EnableDevicePort,
        Action::DisableClock(Block::Hsh),
        // Power on 32M crystal for HS PHY and connect to USB PLL
        Action::PowerOnSupply(Supply::Xtal32m),
        Action::PowerOnSupply(Supply::Ldoxo32m),
        Action::EnablePllUsbOut,
        Action::PowerOn(Block::Phy),
        // Give long delay for PHY to be ready
        Action::Wait(PHY_READY_MICROSECONDS),
        Action::EnableClock(Block::Phy),
        // The reset is released by a write of its own: hardware forces the
        // gate shut while the reset is asserted
        Action::WritePhy(PhyRegister::CtrlClr, CTRL_SFTRST),
        // Set the divider of the PLL for the crystal
        Action::WritePhy(PhyRegister::PllSicClr, PLL_SIC_DIV_SEL_16MHZ_ZEROS),
        Action::WritePhy(PhyRegister::PllSicSet, PLL_SIC_DIV_SEL_16MHZ),
        Action::WritePhy(PhyRegister::PllSicSet, PLL_SIC_REG_ENABLE),
        Action::WritePhy(PhyRegister::PllSicClr, PLL_SIC_RESERVED_16),
        // Must wait for pll-reg to stabilize
        Action::Wait(PLL_REG_MICROSECONDS),
        Action::WritePhy(PhyRegister::PllSicSet, PLL_SIC_POWER),
        Action::WritePhy(PhyRegister::PllSicSet, PLL_SIC_EN_USB_CLKS),
    ]
}

/// What is done once the clock gate of the PHY was dealt with.
pub open spec fn completion() -> Seq<Action> {
    seq![
        // Turn on everything in PHY
        Action::WritePhy(PhyRegister::Pwd, 0),
        Action::WritePhy(PhyRegister::CtrlSet, CTRL_ENAUTOCLR_CLKGATE),
        // Turn on USB1 device controller access
        Action::EnableClock(Block::Hsd),
    ]
}

/// The `i`-th action of [`preparation`].
fn preparation_action(i: usize) -> (action: Action)
    requires
        i < PREPARATION_LEN,
    ensures
        action == preparation()[i as int],
{
    match i {
        0 => Action::Reset(Block::Hsh),
        1 => Action::Reset(Block::Hsd),
        2 => Action::Reset(Block::Phy),
        3 => Action::EnableClock(Block::Hsh),
        4 => Action::EnableDevicePort,
        5 => Action::DisableClock(Block::Hsh),
        6 => Action::PowerOnSupply(Supply::Xtal32m),
        7 => Action::PowerOnSupply(Supply::Ldoxo32m),
        8 => Action::EnablePllUsbOut,
        9 => Action::PowerOn(Block::Phy),
        10 => Action::Wait(PHY_READY_MICROSECONDS),
        11 => Action::EnableClock(Block::Phy),
        12 => Action::WritePhy(PhyRegister::CtrlClr, CTRL_SFTRST),
        13 => Action::WritePhy(PhyRegister::PllSicClr, PLL_SIC_DIV_SEL_16MHZ_ZEROS),
        14 => Action::WritePhy(PhyRegister::PllSicSet, PLL_SIC_DIV_SEL_16MHZ),
        15 => Action::WritePhy(PhyRegister::PllSicSet, PLL_SIC_REG_ENABLE),
        16 => Action::WritePhy(PhyRegister::PllSicClr, PLL_SIC_RESERVED_16),
        17 => Action::Wait(PLL_REG_MICROSECONDS),
        18 => Action::WritePhy(PhyRegister::PllSicSet, PLL_SIC_POWER),
        _ => Action::WritePhy(PhyRegister::PllSicSet, PLL_SIC_EN_USB_CLKS),
    }
}

/// The `i`-th action of [`completion`].
fn completion_action(i: usize) -> (action: Action)
    requires
        i < COMPLETION_LEN,
    ensures
        action == completion()[i as int],
{
    match i {
        0 => Action::WritePhy(PhyRegister::Pwd, 0),
        1 => Action::WritePhy(PhyRegister::CtrlSet, CTRL_ENAUTOCLR_CLKGATE),
        _ => Action::EnableClock(Block::Hsd),
    }
}

/// How far the sequence has come.
#[derive(Clone, Copy, Debug, PartialEq, Eq, Structural)]
pub enum EnableStep {
    /// At this action of [`preparation`].
    Prepare(usize),
    /// About to clear the clock gate, after so many attempts.
    ClearClkgate(u32),
    /// About to read the clock gate back, after so many attempts and the one
    /// that was just made.
    CheckClkgate(u32),
    /// At this action of [`completion`].
    Complete(usize),
    /// Through with it.
    Done,
}

impl EnableStep {
    /// The counts are in their ranges.
    pub open spec fn wf(&self) -> bool {
        match *self {
            EnableStep::Prepare(i) => i < PREPARATION_LEN,
            EnableStep::ClearClkgate(n) => n < CLKGATE_CLEAR_ATTEMPTS,
            EnableStep::CheckClkgate(n) => n < CLKGATE_CLEAR_ATTEMPTS,
            EnableStep::Complete(i) => i < COMPLETION_LEN,
            EnableStep::Done => true,
        }
    }

    /// What is to be done at this step.
    pub open spec fn action(&self) -> Option<Action> {
        match *self {
            EnableStep::Prepare(i) => Some(preparation()[i as int]),
            EnableStep::ClearClkgate(_) => Some(
                Action::WritePhy(PhyRegister::CtrlClr, CTRL_CLKGATE),
            ),
            EnableStep::CheckClkgate(_) => Some(Action::ReadPhyCtrl),
            EnableStep::Complete(i) => Some(completion()[i as int]),
            EnableStep::Done => None,
        }
    }

    /// Whether `reply` is an answer to what is to be done at this step.
    pub open spec fn accepts(&self, reply: Reply) -> bool {
        self.action() is Some && usbhs_action::answers(self.action()->0, reply)
    }

    /// The step that follows once `reply` was given.
    pub open spec fn next(&self, reply: Reply) -> EnableStep {
        match *self {
            EnableStep::Prepare(i) => if i + 1 < PREPARATION_LEN {
                EnableStep::Prepare((i + 1) as usize)
            } else {
                EnableStep::ClearClkgate(0)
            },
            EnableStep::ClearClkgate(n) => EnableStep::CheckClkgate(n),
            EnableStep::CheckClkgate(n) => if gate_open(reply->Ctrl_0) || n + 1
                >= CLKGATE_CLEAR_ATTEMPTS {
                EnableStep::Complete(0)
            } else {
                EnableStep::ClearClkgate((n + 1) as u32)
            },
            EnableStep::Complete(i) => if i + 1 < COMPLETION_LEN {
                EnableStep::Complete((i + 1) as usize)
            } else {
                EnableStep::Done
            },
            EnableStep::Done => EnableStep::Done,
        }
    }
}

/// Whether USBPHY_CTRL, holding `ctrl`, shows the clock gate open.
pub open spec fn gate_open(ctrl: u32) -> bool {
    ctrl & CTRL_CLKGATE == 0
}

/// The clock gate is bit 30.
pub(crate) proof fn lemma_gate_bit(ctrl: u32)
    ensures
        gate_open(ctrl) == (ctrl as int / 0x4000_0000 % 2 == 0),
{
    assert((ctrl & CTRL_CLKGATE == 0) == (ctrl / 0x4000_0000 % 2 == 0)) by (bit_vector);
}

/// Decides, one action after the other, how USB HS is brought up as a device.
pub struct EnableSequence {
    step: EnableStep,
}

impl EnableSequence {
    /// How far the sequence has come.
    pub closed spec fn step(&self) -> EnableStep {
        self.step
    }

    /// The counts are in their ranges.
    #[verifier::type_invariant]
    pub open spec fn wf(&self) -> bool {
        self.step().wf()
    }

    /// The sequence from its first action on.
    pub fn new() -> (sequence: Self)
        ensures
            sequence.step() == EnableStep::Prepare(0),
            sequence.wf(),
    {
        EnableSequence { step: EnableStep::Prepare(0) }
    }

    /// What is to be done next, or nothing once the sequence is through.
    pub fn action(&self) -> (action: Option<Action>)
        ensures
            action == self.step().action(),
            self.wf(),
    {
        proof {
            use_type_invariant(self);
        }
        match self.step {
            EnableStep::Prepare(i) => Some(preparation_action(i)),
            EnableStep::ClearClkgate(_) => Some(
                Action::WritePhy(PhyRegister::CtrlClr, CTRL_CLKGATE),
            ),
            EnableStep::CheckClkgate(_) => Some(Action::ReadPhyCtrl),
            EnableStep::Complete(i) => Some(completion_action(i)),
            EnableStep::Done => None,
        }
    }

    /// Goes on after the action was carried out and answered with `reply`.
    ///
    /// Tells whether `reply` is an answer to that action. If not, the sequence
    /// stays where it is.
    pub fn advance(&mut self, reply: Reply) -> (accepted: bool)
        ensures
            accepted == old(self).step().accepts(reply),
            accepted ==> final(self).step() == old(self).step().next(reply),
            !accepted ==> *final(self) == *old(self),
            old(self).step() is CheckClkgate ==> accepted == (reply is Ctrl),
            old(self).step() is Prepare ==> accepted == (reply is Done),
            old(self).step() is ClearClkgate ==> accepted == (reply is Done),
            old(self).step() is Complete ==> accepted == (reply is Done),
            old(self).step() is Done ==> !accepted,
            old(self).step() matches EnableStep::CheckClkgate(n) ==> (reply matches Reply::Ctrl(
                ctrl,
            ) ==> if ctrl as int / 0x4000_0000 % 2 == 0 || n == 3 {
                final(self).step() == EnableStep::Complete(0)
            } else {
                final(self).step() == EnableStep::ClearClkgate((n + 1) as u32)
            }),
            final(self).wf(),
    {
        proof {
            use_type_invariant(&*self);
        }
        proof {
            if let Reply::Ctrl(ctrl) = reply {
                lemma_gate_bit(ctrl);
            }
        }
        let next: EnableStep = match (self.step, reply) {
            (EnableStep::Prepare(i), Reply::Done) => if i + 1 < PREPARATION_LEN {
                EnableStep::Prepare(i + 1)
            } else {
                EnableStep::ClearClkgate(0)
            },
            (EnableStep::ClearClkgate(n), Reply::Done) => EnableStep::CheckClkgate(n),
            (EnableStep::CheckClkgate(n), Reply::Ctrl(ctrl)) => if ctrl & CTRL_CLKGATE == 0 || n + 1
                >= CLKGATE_CLEAR_ATTEMPTS {
                EnableStep::Complete(0)
            } else {
                EnableStep::ClearClkgate(n + 1)
            },
            (EnableStep::Complete(i), Reply::Done) => if i + 1 < COMPLETION_LEN {
                EnableStep::Complete(i + 1)
            } else {
                EnableStep::Done
            },
            _ => {
                return false;
            },
        };
        self.step = next;
        true
    }

    /// Whether the sequence is through.
    pub fn is_done(&self) -> (done: bool)
        ensures
            done == (self.step() == EnableStep::Done),
            self.wf(),
    {
        proof {
            use_type_invariant(self);
        }
        self.step == EnableStep::Done
    }
}

} // verus!
