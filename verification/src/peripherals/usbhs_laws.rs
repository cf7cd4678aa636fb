//! What is done when USB HS is brought up, whatever the hardware answers.

use vstd::prelude::*;

use crate::peripherals::usbhs_action::{
    Action, CTRL_CLKGATE, CTRL_SFTRST, PLL_REG_MICROSECONDS, PLL_SIC_EN_USB_CLKS, PLL_SIC_POWER,
    PLL_SIC_REG_ENABLE, PhyRegister, Reply,
};
use crate::peripherals::usbhs_enable;
use crate::peripherals::usbhs_enable::{
    CLKGATE_CLEAR_ATTEMPTS, COMPLETION_LEN, EnableStep, PREPARATION_LEN,
};

verus! {

/// A run of the sequence from its start: the action of `steps[i]` is answered
/// with `replies[i]`, which leads to `steps[i + 1]`.
pub open spec fn enabling_run(steps: Seq<EnableStep>, replies: Seq<Reply>) -> bool {
    &&& steps.len() == replies.len() + 1
    &&& steps[0] == EnableStep::Prepare(0)
    &&& forall|i: int|
        0 <= i < replies.len() ==> steps[i].accepts(#[trigger] replies[i]) && steps[i + 1]
            == steps[i].next(replies[i])
}

/// A run that was brought to its end.
pub open spec fn complete_run(steps: Seq<EnableStep>, replies: Seq<Reply>) -> bool {
    &&& enabling_run(steps, replies)
    &&& steps.last() == EnableStep::Done
}

/// The actions carried out in a run.
pub open spec fn run_actions(steps: Seq<EnableStep>, replies: Seq<Reply>) -> Seq<Action> {
    Seq::new(replies.len(), |i: int| steps[i].action()->0)
}

/// So many attempts to open the clock gate, each a clear and a read-back.
pub open spec fn gate_attempts(attempts: nat) -> Seq<Action> {
    Seq::new(
        2 * attempts,
        |i: int|
            if i % 2 == 0 {
                Action::WritePhy(PhyRegister::CtrlClr, CTRL_CLKGATE)
            } else {
                Action::ReadPhyCtrl
            },
    )
}

/// Where in a run the `n`-th attempt reads the clock gate back.
pub open spec fn read_back_index(n: int) -> int {
    PREPARATION_LEN + 2 * n + 1
}

/// Where in a run a step can stand.
spec fn at_position(step: EnableStep, i: int) -> bool {
    match step {
        EnableStep::Prepare(j) => i == j,
        EnableStep::ClearClkgate(n) => i == PREPARATION_LEN + 2 * n,
        EnableStep::CheckClkgate(n) => i == PREPARATION_LEN + 2 * n + 1,
        EnableStep::Complete(j) => PREPARATION_LEN + 2 + j <= i <= PREPARATION_LEN + 2
            * CLKGATE_CLEAR_ATTEMPTS + j,
        EnableStep::Done => i <= PREPARATION_LEN + 2 * CLKGATE_CLEAR_ATTEMPTS + COMPLETION_LEN,
    }
}

proof fn lemma_position(steps: Seq<EnableStep>, replies: Seq<Reply>, i: int)
    requires
        enabling_run(steps, replies),
        0 <= i <= replies.len(),
    ensures
        steps[i].wf(),
        at_position(steps[i], i),
        i < PREPARATION_LEN ==> steps[i] == EnableStep::Prepare(i as usize),
    decreases i,
{
    if i > 0 {
        lemma_position(steps, replies, i - 1);
        assert(steps[i - 1].accepts(replies[i - 1]));
    }
}

/// Bringing USB HS up takes at most 31 actions.
pub proof fn run_is_bounded(steps: Seq<EnableStep>, replies: Seq<Reply>)
    requires
        enabling_run(steps, replies),
    ensures
        replies.len() <= PREPARATION_LEN + 2 * CLKGATE_CLEAR_ATTEMPTS + COMPLETION_LEN,
{
    lemma_position(steps, replies, replies.len() as int);
}

/// A run that is not at its end has a next action, and every answer to that
/// action leads on.
pub proof fn run_goes_on(steps: Seq<EnableStep>, replies: Seq<Reply>, reply: Reply)
    requires
        enabling_run(steps, replies),
        steps.last() != EnableStep::Done,
    ensures
        steps.last().action() is Some,
        steps.last().accepts(reply) ==> enabling_run(
            steps.push(steps.last().next(reply)),
            replies.push(reply),
        ),
{
    if steps.last().accepts(reply) {
        let longer = steps.push(steps.last().next(reply));
        let answered = replies.push(reply);
        assert forall|i: int| 0 <= i < answered.len() implies longer[i].accepts(
            #[trigger] answered[i],
        ) && longer[i + 1] == longer[i].next(answered[i]) by {
            if i < replies.len() {
                assert(answered[i] == replies[i]);
            }
        }
    }
}

proof fn lemma_gate(steps: Seq<EnableStep>, replies: Seq<Reply>, m: int) -> (attempts: int)
    requires
        complete_run(steps, replies),
        0 <= m < CLKGATE_CLEAR_ATTEMPTS,
        PREPARATION_LEN + 2 * m <= replies.len(),
        steps[PREPARATION_LEN + 2 * m] == EnableStep::ClearClkgate(m as u32),
    ensures
        m < attempts <= CLKGATE_CLEAR_ATTEMPTS,
        PREPARATION_LEN + 2 * attempts <= replies.len(),
        steps[PREPARATION_LEN + 2 * attempts] == EnableStep::Complete(0),
        forall|n: int|
            m <= n < attempts ==> {
                let check = #[trigger] read_back_index(n);
                &&& steps[check - 1] == EnableStep::ClearClkgate(n as u32)
                &&& steps[check] == EnableStep::CheckClkgate(n as u32)
                &&& replies[check] is Ctrl
                &&& usbhs_enable::gate_open(replies[check]->Ctrl_0) ==> n == attempts - 1
            },
        usbhs_enable::gate_open(replies[read_back_index(attempts - 1)]->Ctrl_0) || attempts
            == CLKGATE_CLEAR_ATTEMPTS,
    decreases CLKGATE_CLEAR_ATTEMPTS - m,
{
    let clear = PREPARATION_LEN + 2 * m;
    let check = read_back_index(m);
    assert(steps[clear].accepts(replies[clear]));
    assert(steps[check].accepts(replies[check]));
    if usbhs_enable::gate_open(replies[check]->Ctrl_0) || m + 1 == CLKGATE_CLEAR_ATTEMPTS {
        m + 1
    } else {
        assert(steps[check + 1] == EnableStep::ClearClkgate((m + 1) as u32));
        lemma_gate(steps, replies, m + 1)
    }
}

/// Whatever the hardware answers, the actions carried out are the preparation,
/// then so many attempts to open the clock gate, then the completion.
///
/// There is at least one attempt and there are no more than
/// [`CLKGATE_CLEAR_ATTEMPTS`]. The first read-back that shows the clock gate open ends
/// them, and only that or their number does.
pub proof fn complete_run_actions(steps: Seq<EnableStep>, replies: Seq<Reply>) -> (attempts: nat)
    requires
        complete_run(steps, replies),
    ensures
        1 <= attempts <= CLKGATE_CLEAR_ATTEMPTS,
        run_actions(steps, replies) == usbhs_enable::preparation() + gate_attempts(attempts)
            + usbhs_enable::completion(),
        forall|n: int|
            0 <= n < attempts ==> {
                let check = #[trigger] read_back_index(n);
                &&& replies[check] is Ctrl
                &&& usbhs_enable::gate_open(replies[check]->Ctrl_0) ==> n == attempts - 1
            },
        attempts < CLKGATE_CLEAR_ATTEMPTS ==> usbhs_enable::gate_open(
            replies[read_back_index(attempts - 1)]->Ctrl_0,
        ),
        forall|n: int|
            0 <= n < attempts - 1 ==> replies[#[trigger] read_back_index(n)]->Ctrl_0 as int
                / 0x4000_0000 % 2 == 1,
        attempts == 4 || replies[read_back_index(attempts - 1)]->Ctrl_0 as int / 0x4000_0000 % 2
            == 0,
{
    assert forall|n: int| true implies usbhs_enable::gate_open(
        replies[#[trigger] read_back_index(n)]->Ctrl_0,
    ) == (replies[read_back_index(n)]->Ctrl_0 as int / 0x4000_0000 % 2 == 0) by {
        usbhs_enable::lemma_gate_bit(replies[read_back_index(n)]->Ctrl_0);
    }
    let start = PREPARATION_LEN as int;
    assert forall|i: int| 0 <= i < start && i <= replies.len() implies #[trigger] steps[i]
        == EnableStep::Prepare(i as usize) by {
        lemma_position(steps, replies, i);
    }
    assert(steps[start - 1].accepts(replies[start - 1]));
    assert(steps[start] == EnableStep::ClearClkgate(0));
    let attempts = lemma_gate(steps, replies, 0);
    let done = start + 2 * attempts;
    assert(steps[done].accepts(replies[done]));
    assert(steps[done + 1].accepts(replies[done + 1]));
    assert(steps[done + 2].accepts(replies[done + 2]));
    assert(steps[done + 3] == EnableStep::Done);
    if replies.len() > done + 3 {
        assert(steps[done + 3].accepts(replies[done + 3]));
    }
    let actions = run_actions(steps, replies);
    let expected = usbhs_enable::preparation() + gate_attempts(attempts as nat)
        + usbhs_enable::completion();
    assert(usbhs_enable::preparation().len() == start);
    assert(actions.len() == expected.len());
    assert forall|i: int| 0 <= i < actions.len() implies actions[i] == expected[i] by {
        if i < start {
            assert(steps[i] == EnableStep::Prepare(i as usize));
        } else if i < done {
            let n = (i - start) / 2;
            let check = read_back_index(n);
            assert(steps[check - 1] == EnableStep::ClearClkgate(n as u32));
        }
    }
    assert(actions =~= expected);
    attempts as nat
}

/// The reset of the PHY is released and its clock gate opened by separate
/// writes, in that order: each write to CTRL_CLR clears one of the two bits
/// alone, the reset by the 13th action, the clock gate after the whole preparation.
pub proof fn reset_and_gate_are_cleared_apart(
    steps: Seq<EnableStep>,
    replies: Seq<Reply>,
    i: int,
    bits: u32,
)
    requires
        enabling_run(steps, replies),
        0 <= i < replies.len(),
        run_actions(steps, replies)[i] == Action::WritePhy(PhyRegister::CtrlClr, bits),
    ensures
        bits == CTRL_SFTRST || bits == CTRL_CLKGATE,
        bits == CTRL_SFTRST <==> i == 12,
        bits == CTRL_CLKGATE ==> PREPARATION_LEN <= i,
{
    lemma_position(steps, replies, i);
    assert(steps[i].accepts(replies[i]));
}

/// The PLL is powered only after its regulator was turned on and had its time
/// to stabilize, and drives the USB clocks only after that; the clock gate is
/// opened later still.
pub proof fn pll_comes_up_in_order(steps: Seq<EnableStep>, replies: Seq<Reply>, i: int)
    requires
        enabling_run(steps, replies),
        0 <= i < replies.len(),
    ensures
        ({
            let actions = run_actions(steps, replies);
            &&& actions[i] == Action::WritePhy(PhyRegister::PllSicSet, PLL_SIC_POWER) ==> {
                &&& actions[i - 3] == Action::WritePhy(PhyRegister::PllSicSet, PLL_SIC_REG_ENABLE)
                &&& actions[i - 1] == Action::Wait(PLL_REG_MICROSECONDS)
            }
            &&& actions[i] == Action::WritePhy(PhyRegister::PllSicSet, PLL_SIC_EN_USB_CLKS)
                ==> actions[i - 1] == Action::WritePhy(PhyRegister::PllSicSet, PLL_SIC_POWER)
            &&& actions[i] == Action::WritePhy(PhyRegister::CtrlClr, CTRL_CLKGATE) ==> {
                &&& actions[19] == Action::WritePhy(PhyRegister::PllSicSet, PLL_SIC_EN_USB_CLKS)
                &&& 19 < i
            }
        }),
{
    let actions = run_actions(steps, replies);
    assert forall|j: int| 0 <= j <= i && j < PREPARATION_LEN implies #[trigger] actions[j]
        == usbhs_enable::preparation()[j] by {
        lemma_position(steps, replies, j);
    }
    lemma_position(steps, replies, i);
    assert(steps[i].accepts(replies[i]));
    if actions[i] == Action::WritePhy(PhyRegister::PllSicSet, PLL_SIC_POWER) {
        assert(i == 18);
        assert(actions[15] == usbhs_enable::preparation()[15]);
    }
}

/// Every step but the last asks for something, and an answer of the right kind
/// is accepted whatever it says: any reading of USBPHY_CTRL where the register
/// is to be read, that it is done anywhere else. No other answer is.
pub proof fn every_answer_of_the_right_kind_is_accepted(step: EnableStep, reply: Reply)
    requires
        step.wf(),
    ensures
        step.action() is None <==> step is Done,
        step.action() == Some(Action::ReadPhyCtrl) <==> step is CheckClkgate,
        step.accepts(reply) <==> match reply {
            Reply::Ctrl(_) => step is CheckClkgate,
            Reply::Done => step is Prepare || step is ClearClkgate || step is Complete,
        },
{
}

/// Of a reading of USBPHY_CTRL only bit 30 counts: two readings that agree in it
/// lead to the same step, and where it is 0 no further attempt is made.
pub proof fn only_the_gate_bit_of_a_reading_counts(attempt: u32, one: u32, other: u32)
    requires
        attempt < 4,
        one as int / 0x4000_0000 % 2 == other as int / 0x4000_0000 % 2,
    ensures
        EnableStep::CheckClkgate(attempt).accepts(Reply::Ctrl(one)),
        EnableStep::CheckClkgate(attempt).next(Reply::Ctrl(one)) == EnableStep::CheckClkgate(
            attempt,
        ).next(Reply::Ctrl(other)),
        EnableStep::CheckClkgate(attempt).next(Reply::Ctrl(one)) is Complete <==> (one as int
            / 0x4000_0000 % 2 == 0 || attempt == 3),
        EnableStep::CheckClkgate(attempt).next(Reply::Ctrl(one)) is ClearClkgate <==> (one as int
            / 0x4000_0000 % 2 == 1 && attempt < 3),
{
    usbhs_enable::lemma_gate_bit(one);
    usbhs_enable::lemma_gate_bit(other);
}

/// The step reached after so many actions on hardware that answers each of
/// them, with `reading(i)` where the `i`-th reads USBPHY_CTRL.
pub open spec fn step_on_answering_hardware(reading: spec_fn(int) -> u32, actions: nat) -> EnableStep
    decreases actions,
{
    if actions == 0 {
        EnableStep::Prepare(0)
    } else {
        let i = (actions - 1) as nat;
        let step = step_on_answering_hardware(reading, i);
        let reply = if step is CheckClkgate {
            Reply::Ctrl(reading(i as int))
        } else {
            Reply::Done
        };
        if step.accepts(reply) {
            step.next(reply)
        } else {
            step
        }
    }
}

proof fn lemma_answering_hardware(reading: spec_fn(int) -> u32, actions: nat)
    requires
        actions <= 31,
    ensures
        step_on_answering_hardware(reading, actions).wf(),
        at_position(step_on_answering_hardware(reading, actions), actions as int),
    decreases actions,
{
    if actions > 0 {
        lemma_answering_hardware(reading, (actions - 1) as nat);
    }
}

/// Hardware that answers each action is up within 31 of them, whatever it
/// answers.
pub proof fn answering_hardware_comes_up(reading: spec_fn(int) -> u32, actions: nat)
    requires
        actions >= 31,
    ensures
        step_on_answering_hardware(reading, actions) == EnableStep::Done,
    decreases actions,
{
    if actions == 31 {
        lemma_answering_hardware(reading, 31);
    } else {
        answering_hardware_comes_up(reading, (actions - 1) as nat);
    }
}

} // verus!
