//! What bringing USB HS up switches on, and shutting it down switches off.

use vstd::prelude::*;

use crate::peripherals::usbhs;
use crate::peripherals::usbhs_action::{Action, Block, Reply, Supply};
use crate::peripherals::usbhs_enable;
use crate::peripherals::usbhs_enable::EnableStep;
use crate::peripherals::usbhs_laws;

verus! {

/// The clocks and supplies of USB HS, each on or off.
pub struct Switches {
    pub phy_clock: bool,
    pub hsd_clock: bool,
    pub hsh_clock: bool,
    pub phy_power: bool,
    pub xtal32m: bool,
    pub ldoxo32m: bool,
}

/// What an action does to them.
pub open spec fn switched(before: Switches, action: Action) -> Switches {
    match action {
        Action::EnableClock(Block::Phy) => Switches { phy_clock: true, ..before },
        Action::EnableClock(Block::Hsd) => Switches { hsd_clock: true, ..before },
        Action::EnableClock(Block::Hsh) => Switches { hsh_clock: true, ..before },
        Action::DisableClock(Block::Phy) => Switches { phy_clock: false, ..before },
        Action::DisableClock(Block::Hsd) => Switches { hsd_clock: false, ..before },
        Action::DisableClock(Block::Hsh) => Switches { hsh_clock: false, ..before },
        Action::PowerOn(Block::Phy) => Switches { phy_power: true, ..before },
        Action::PowerOff(Block::Phy) => Switches { phy_power: false, ..before },
        Action::PowerOnSupply(Supply::Xtal32m) => Switches { xtal32m: true, ..before },
        Action::PowerOnSupply(Supply::Ldoxo32m) => Switches { ldoxo32m: true, ..before },
        Action::PowerOffSupply(Supply::Xtal32m) => Switches { xtal32m: false, ..before },
        Action::PowerOffSupply(Supply::Ldoxo32m) => Switches { ldoxo32m: false, ..before },
        _ => before,
    }
}

/// What actions, one after the other, do to them.
pub open spec fn switched_by_all(before: Switches, actions: Seq<Action>) -> Switches
    decreases actions.len(),
{
    if actions.len() == 0 {
        before
    } else {
        switched(switched_by_all(before, actions.drop_last()), actions.last())
    }
}

/// How the switches stand by the time a step is reached.
spec fn switches_by_step(step: EnableStep, now: Switches) -> bool {
    match step {
        EnableStep::Prepare(i) => {
            &&& i > 5 ==> !now.hsh_clock
            &&& i > 6 ==> now.xtal32m
            &&& i > 7 ==> now.ldoxo32m
            &&& i > 9 ==> now.phy_power
            &&& i > 11 ==> now.phy_clock
        },
        _ => {
            &&& !now.hsh_clock
            &&& now.xtal32m
            &&& now.ldoxo32m
            &&& now.phy_power
            &&& now.phy_clock
            &&& step == EnableStep::Done ==> now.hsd_clock
        },
    }
}

proof fn lemma_switches(
    before: Switches,
    steps: Seq<EnableStep>,
    replies: Seq<Reply>,
    i: int,
)
    requires
        usbhs_laws::enabling_run(steps, replies),
        0 <= i <= replies.len(),
    ensures
        steps[i].wf(),
        switches_by_step(
            steps[i],
            switched_by_all(before, usbhs_laws::run_actions(steps, replies).take(i)),
        ),
    decreases i,
{
    if i > 0 {
        lemma_switches(before, steps, replies, i - 1);
        let actions = usbhs_laws::run_actions(steps, replies);
        let step = steps[i - 1];
        assert(step.accepts(replies[i - 1]));
        assert(actions.take(i).drop_last() =~= actions.take(i - 1));
        assert(actions.take(i).last() == actions[i - 1]);
        match step {
            EnableStep::Prepare(k) => {
                assert(actions[i - 1] == usbhs_enable::preparation()[k as int]);
            },
            EnableStep::Complete(k) => {
                assert(actions[i - 1] == usbhs_enable::completion()[k as int]);
            },
            _ => {},
        }
    }
}

/// Whatever was on before, once USB HS is up as a device its PHY and its device
/// controller are clocked, the PHY and the crystal are powered, and the host
/// controller, which was needed only briefly, is not clocked.
pub proof fn complete_run_switches_on(
    before: Switches,
    steps: Seq<EnableStep>,
    replies: Seq<Reply>,
)
    requires
        usbhs_laws::complete_run(steps, replies),
    ensures
        switched_by_all(before, usbhs_laws::run_actions(steps, replies)) == (Switches {
            phy_clock: true,
            hsd_clock: true,
            hsh_clock: false,
            phy_power: true,
            xtal32m: true,
            ldoxo32m: true,
        }),
{
    let actions = usbhs_laws::run_actions(steps, replies);
    lemma_switches(before, steps, replies, replies.len() as int);
    assert(actions.take(replies.len() as int) =~= actions);
}

/// Whatever was on before, shutting USB HS down switches everything off but
/// the clock of the host controller, which stays as it is.
pub proof fn shutdown_switches_off(before: Switches)
    ensures
        switched_by_all(before, usbhs::shutdown()) == (Switches {
            phy_clock: false,
            hsd_clock: false,
            hsh_clock: before.hsh_clock,
            phy_power: false,
            xtal32m: false,
            ldoxo32m: false,
        }),
{
    let all = usbhs::shutdown();
    assert(all.take(5) =~= all);
    assert(all.take(5).drop_last() =~= all.take(4));
    assert(all.take(4).drop_last() =~= all.take(3));
    assert(all.take(3).drop_last() =~= all.take(2));
    assert(all.take(2).drop_last() =~= all.take(1));
    assert(all.take(1).drop_last() =~= Seq::<Action>::empty());
    reveal_with_fuel(switched_by_all, 6);
}

/// Shutting USB HS down switches off everything that bringing it up left on.
pub proof fn shutdown_undoes_complete_run(
    before: Switches,
    steps: Seq<EnableStep>,
    replies: Seq<Reply>,
)
    requires
        usbhs_laws::complete_run(steps, replies),
    ensures
        ({
            let up = switched_by_all(before, usbhs_laws::run_actions(steps, replies));
            switched_by_all(up, usbhs::shutdown()) == (Switches {
                phy_clock: false,
                hsd_clock: false,
                hsh_clock: false,
                phy_power: false,
                xtal32m: false,
                ldoxo32m: false,
            })
        }),
{
    complete_run_switches_on(before, steps, replies);
    shutdown_switches_off(
        switched_by_all(before, usbhs_laws::run_actions(steps, replies)),
    );
}

} // verus!
