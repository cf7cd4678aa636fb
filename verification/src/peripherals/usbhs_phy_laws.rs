//! What the registers of the PHY hold while USB HS is brought up.

use vstd::prelude::*;

use crate::peripherals::usbhs_action::{
    Action, Block, CTRL_CLKGATE, CTRL_ENAUTOCLR_CLKGATE, CTRL_SFTRST, PLL_SIC_DIV_SEL,
    PLL_SIC_DIV_SEL_16MHZ, PLL_SIC_DIV_SEL_16MHZ_ZEROS, PLL_SIC_EN_USB_CLKS, PLL_SIC_POWER,
    PLL_SIC_REG_ENABLE, PLL_SIC_RESERVED_16, PhyRegister, Reply,
};
use crate::peripherals::usbhs_enable;
use crate::peripherals::usbhs_enable::{CLKGATE_CLEAR_ATTEMPTS, EnableStep, PREPARATION_LEN};
use crate::peripherals::usbhs_laws;

verus! {

/// Three registers of USBPHY.
pub struct PhyState {
    /// USBPHY_CTRL
    pub ctrl: u32,
    /// USBPHY_PLL_SIC
    pub pll_sic: u32,
    /// USBPHY_PWD
    pub pwd: u32,
}

/// How an action, and the answer to it, can take the registers of the PHY from
/// `before` to `after`.
///
/// While the reset is asserted, hardware forces the clock gate shut. A clear of
/// the clock gate can be dropped. What a reset, power or a clock does to the
/// registers is open.
pub open spec fn phy_step(
    before: PhyState,
    action: Action,
    reply: Reply,
    after: PhyState,
) -> bool {
    match action {
        Action::WritePhy(PhyRegister::CtrlClr, bits) => {
            let cleared = before.ctrl & !bits;
            &&& after.pll_sic == before.pll_sic
            &&& after.pwd == before.pwd
            &&& if before.ctrl & CTRL_SFTRST != 0 {
                after.ctrl == cleared | CTRL_CLKGATE
            } else {
                after.ctrl == cleared || after.ctrl == cleared | (before.ctrl & CTRL_CLKGATE)
            }
        },
        Action::WritePhy(PhyRegister::CtrlSet, bits) => {
            after == PhyState { ctrl: before.ctrl | bits, ..before }
        },
        Action::WritePhy(PhyRegister::PllSicClr, bits) => {
            after == PhyState { pll_sic: before.pll_sic & !bits, ..before }
        },
        Action::WritePhy(PhyRegister::PllSicSet, bits) => {
            after == PhyState { pll_sic: before.pll_sic | bits, ..before }
        },
        Action::WritePhy(PhyRegister::Pwd, bits) => after == PhyState { pwd: bits, ..before },
        Action::WritePhy(PhyRegister::PwdSet, bits) => {
            after == PhyState { pwd: before.pwd | bits, ..before }
        },
        Action::ReadPhyCtrl => after == before && reply == Reply::Ctrl(before.ctrl),
        Action::Reset(Block::Phy) => true,
        Action::PowerOn(Block::Phy) => true,
        Action::PowerOff(Block::Phy) => true,
        Action::EnableClock(Block::Phy) => true,
        Action::DisableClock(Block::Phy) => true,
        _ => after == before,
    }
}

/// A run on hardware whose PHY registers hold `phys[i]` before the `i`-th
/// action.
pub open spec fn phy_run(
    steps: Seq<EnableStep>,
    replies: Seq<Reply>,
    phys: Seq<PhyState>,
) -> bool {
    &&& usbhs_laws::enabling_run(steps, replies)
    &&& phys.len() == steps.len()
    &&& forall|i: int|
        0 <= i < replies.len() ==> phy_step(
            phys[i],
            steps[i].action()->0,
            #[trigger] replies[i],
            phys[i + 1],
        )
}

/// Out of reset, on a powered PLL that is set for the crystal and drives the USB
/// clocks, with the reserved bit at 0.
pub open spec fn phy_clocked(phy: PhyState) -> bool {
    &&& phy.ctrl & CTRL_SFTRST == 0
    &&& phy.pll_sic & PLL_SIC_DIV_SEL == PLL_SIC_DIV_SEL_16MHZ
    &&& phy.pll_sic & PLL_SIC_REG_ENABLE == PLL_SIC_REG_ENABLE
    &&& phy.pll_sic & PLL_SIC_RESERVED_16 == 0
    &&& phy.pll_sic & PLL_SIC_POWER == PLL_SIC_POWER
    &&& phy.pll_sic & PLL_SIC_EN_USB_CLKS == PLL_SIC_EN_USB_CLKS
}

/// What the registers of the PHY hold by the time a step is reached.
spec fn phy_by_step(step: EnableStep, phy: PhyState) -> bool {
    match step {
        EnableStep::Prepare(i) => {
            &&& i > 12 ==> phy.ctrl & CTRL_SFTRST == 0
            &&& i == 14 ==> phy.pll_sic & PLL_SIC_DIV_SEL_16MHZ_ZEROS == 0
            &&& i > 14 ==> phy.pll_sic & PLL_SIC_DIV_SEL == PLL_SIC_DIV_SEL_16MHZ
            &&& i > 15 ==> phy.pll_sic & PLL_SIC_REG_ENABLE == PLL_SIC_REG_ENABLE
            &&& i > 16 ==> phy.pll_sic & PLL_SIC_RESERVED_16 == 0
            &&& i > 18 ==> phy.pll_sic & PLL_SIC_POWER == PLL_SIC_POWER
        },
        EnableStep::ClearClkgate(_) => phy_clocked(phy),
        EnableStep::CheckClkgate(_) => phy_clocked(phy),
        EnableStep::Complete(i) => {
            &&& phy_clocked(phy)
            &&& i > 0 ==> phy.pwd == 0
            &&& i > 1 ==> phy.ctrl & CTRL_ENAUTOCLR_CLKGATE == CTRL_ENAUTOCLR_CLKGATE
        },
        EnableStep::Done => {
            &&& phy_clocked(phy)
            &&& phy.pwd == 0
            &&& phy.ctrl & CTRL_ENAUTOCLR_CLKGATE == CTRL_ENAUTOCLR_CLKGATE
        },
    }
}

proof fn lemma_ctrl_bits(ctrl: u32)
    by (bit_vector)
    ensures
        ((ctrl & !CTRL_SFTRST) | CTRL_CLKGATE) & CTRL_SFTRST == 0,
        (ctrl & !CTRL_SFTRST) & CTRL_SFTRST == 0,
        ((ctrl & !CTRL_SFTRST) | (ctrl & CTRL_CLKGATE)) & CTRL_SFTRST == 0,
        (ctrl & !CTRL_CLKGATE) & CTRL_SFTRST == ctrl & CTRL_SFTRST,
        ((ctrl & !CTRL_CLKGATE) | (ctrl & CTRL_CLKGATE)) & CTRL_SFTRST == ctrl & CTRL_SFTRST,
        (ctrl | CTRL_ENAUTOCLR_CLKGATE) & CTRL_SFTRST == ctrl & CTRL_SFTRST,
        (ctrl | CTRL_ENAUTOCLR_CLKGATE) & CTRL_CLKGATE == ctrl & CTRL_CLKGATE,
        (ctrl | CTRL_ENAUTOCLR_CLKGATE) & CTRL_ENAUTOCLR_CLKGATE == CTRL_ENAUTOCLR_CLKGATE,
{
}

proof fn lemma_set_bits(x: u32, bits: u32, mask: u32)
    by (bit_vector)
    ensures
        (x | bits) & bits == bits,
        (x & !bits) & bits == 0,
        bits & mask == 0 ==> (x | bits) & mask == x & mask,
        bits & mask == 0 ==> (x & !bits) & mask == x & mask,
{
}

proof fn lemma_div_sel_bits(x: u32)
    by (bit_vector)
    ensures
        x & PLL_SIC_DIV_SEL_16MHZ_ZEROS == 0 ==> (x | PLL_SIC_DIV_SEL_16MHZ) & PLL_SIC_DIV_SEL
            == PLL_SIC_DIV_SEL_16MHZ,
{
}

proof fn lemma_pll_masks()
    by (bit_vector)
    ensures
        PLL_SIC_REG_ENABLE & PLL_SIC_DIV_SEL == 0,
        PLL_SIC_RESERVED_16 & PLL_SIC_DIV_SEL == 0,
        PLL_SIC_RESERVED_16 & PLL_SIC_REG_ENABLE == 0,
        PLL_SIC_POWER & PLL_SIC_DIV_SEL == 0,
        PLL_SIC_POWER & PLL_SIC_REG_ENABLE == 0,
        PLL_SIC_POWER & PLL_SIC_RESERVED_16 == 0,
        PLL_SIC_EN_USB_CLKS & PLL_SIC_DIV_SEL == 0,
        PLL_SIC_EN_USB_CLKS & PLL_SIC_REG_ENABLE == 0,
        PLL_SIC_EN_USB_CLKS & PLL_SIC_RESERVED_16 == 0,
        PLL_SIC_EN_USB_CLKS & PLL_SIC_POWER == 0,
{
}

proof fn lemma_phy_by_step(step: EnableStep, reply: Reply, before: PhyState, after: PhyState)
    requires
        step.wf(),
        step.accepts(reply),
        phy_by_step(step, before),
        phy_step(before, step.action()->0, reply, after),
    ensures
        phy_by_step(step.next(reply), after),
{
    lemma_ctrl_bits(before.ctrl);
    lemma_pll_masks();
    let pll = before.pll_sic;
    match step {
        EnableStep::Prepare(i) => {
            assert(step.action()->0 == usbhs_enable::preparation()[i as int]);
            if i == 13 {
                lemma_set_bits(pll, PLL_SIC_DIV_SEL_16MHZ_ZEROS, 0);
            } else if i == 14 {
                lemma_div_sel_bits(pll);
            } else if i == 15 {
                lemma_set_bits(pll, PLL_SIC_REG_ENABLE, PLL_SIC_DIV_SEL);
            } else if i == 16 {
                lemma_set_bits(pll, PLL_SIC_RESERVED_16, PLL_SIC_DIV_SEL);
                lemma_set_bits(pll, PLL_SIC_RESERVED_16, PLL_SIC_REG_ENABLE);
            } else if i == 18 {
                lemma_set_bits(pll, PLL_SIC_POWER, PLL_SIC_DIV_SEL);
                lemma_set_bits(pll, PLL_SIC_POWER, PLL_SIC_REG_ENABLE);
                lemma_set_bits(pll, PLL_SIC_POWER, PLL_SIC_RESERVED_16);
            } else if i == 19 {
                lemma_set_bits(pll, PLL_SIC_EN_USB_CLKS, PLL_SIC_DIV_SEL);
                lemma_set_bits(pll, PLL_SIC_EN_USB_CLKS, PLL_SIC_REG_ENABLE);
                lemma_set_bits(pll, PLL_SIC_EN_USB_CLKS, PLL_SIC_RESERVED_16);
                lemma_set_bits(pll, PLL_SIC_EN_USB_CLKS, PLL_SIC_POWER);
            }
        },
        _ => {},
    }
}

proof fn lemma_phy_run(
    steps: Seq<EnableStep>,
    replies: Seq<Reply>,
    phys: Seq<PhyState>,
    i: int,
)
    requires
        phy_run(steps, replies, phys),
        0 <= i <= replies.len(),
    ensures
        steps[i].wf(),
        phy_by_step(steps[i], phys[i]),
    decreases i,
{
    if i > 0 {
        lemma_phy_run(steps, replies, phys, i - 1);
        assert(steps[i - 1].accepts(replies[i - 1]));
        lemma_phy_by_step(steps[i - 1], replies[i - 1], phys[i - 1], phys[i]);
    }
}

/// Whatever the registers of the PHY held before, once USB HS is up the PHY is
/// out of reset, its PLL is powered, set for the crystal and drives the USB
/// clocks, the reserved bit is 0, everything in the PHY is turned on, and the
/// clock gate is set to open by itself.
///
/// The clock gate is open as well, unless every one of the
/// [`CLKGATE_CLEAR_ATTEMPTS`] attempts was read back as having failed.
pub proof fn complete_run_brings_phy_up(
    steps: Seq<EnableStep>,
    replies: Seq<Reply>,
    phys: Seq<PhyState>,
)
    requires
        phy_run(steps, replies, phys),
        steps.last() == EnableStep::Done,
    ensures
        phy_clocked(phys.last()),
        phys.last().pwd == 0,
        phys.last().ctrl & CTRL_ENAUTOCLR_CLKGATE == CTRL_ENAUTOCLR_CLKGATE,
        usbhs_enable::gate_open(phys.last().ctrl) || forall|n: int|
            0 <= n < CLKGATE_CLEAR_ATTEMPTS ==> !usbhs_enable::gate_open(
                replies[#[trigger] usbhs_laws::read_back_index(n)]->Ctrl_0,
            ),
{
    lemma_phy_run(steps, replies, phys, replies.len() as int);
    let attempts = usbhs_laws::complete_run_actions(steps, replies);
    let actions = usbhs_laws::run_actions(steps, replies);
    let check = usbhs_laws::read_back_index(attempts - 1);
    assert(usbhs_enable::preparation().len() == PREPARATION_LEN);
    assert(usbhs_enable::completion().len() == 3);
    assert(usbhs_laws::gate_attempts(attempts).len() == 2 * attempts);
    assert(actions.len() == check + 4);
    assert(replies[check] is Ctrl);
    assert(actions[check] == Action::ReadPhyCtrl);
    assert(actions[check + 1] == usbhs_enable::completion()[0]);
    assert(actions[check + 2] == usbhs_enable::completion()[1]);
    assert(actions[check + 3] == usbhs_enable::completion()[2]);
    assert(phy_step(phys[check], actions[check], replies[check], phys[check + 1]));
    assert(phy_step(phys[check + 1], actions[check + 1], replies[check + 1], phys[check + 2]));
    assert(phy_step(phys[check + 2], actions[check + 2], replies[check + 2], phys[check + 3]));
    assert(phy_step(phys[check + 3], actions[check + 3], replies[check + 3], phys[check + 4]));
    lemma_ctrl_bits(phys[check + 2].ctrl);
}

/// Clearing the reset and the clock gate in one write would release the reset
/// and leave the PHY gated.
pub proof fn combined_clear_leaves_phy_gated(
    before: PhyState,
    reply: Reply,
    after: PhyState,
    both: u32,
)
    requires
        before.ctrl & CTRL_SFTRST != 0,
        both == CTRL_SFTRST | CTRL_CLKGATE,
        phy_step(before, Action::WritePhy(PhyRegister::CtrlClr, both), reply, after),
    ensures
        after.ctrl & CTRL_SFTRST == 0,
        !usbhs_enable::gate_open(after.ctrl),
{
    let ctrl = before.ctrl;
    assert(((ctrl & !(CTRL_SFTRST | CTRL_CLKGATE)) | CTRL_CLKGATE) & CTRL_SFTRST == 0)
        by (bit_vector);
    assert(((ctrl & !(CTRL_SFTRST | CTRL_CLKGATE)) | CTRL_CLKGATE) & CTRL_CLKGATE != 0)
        by (bit_vector);
}

} // verus!
