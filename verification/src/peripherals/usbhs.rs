//! The USB HS peripheral.

use vstd::prelude::*;
use vstd::std_specs::convert::FromSpecImpl;

use crate::peripherals::usbhs_action::{Action, Block, PWD_TXPWDV2I, PhyRegister, Reply, Supply};
use crate::peripherals::usbhs_enable::{EnableSequence, EnableStep};
use crate::traits::usb::{Usb, UsbSpeed};
use crate::typestates::init_state;
use crate::typestates::usbhs_mode;
use crate::typestates::ClocksSupportUsbhsToken;

verus! {

/// The three register blocks of USB HS, in a known state and mode.
///
/// What stands for a block (`Phy` for USBPHY, `Hsd` for USB1, `Hsh` for
/// USBHSH) is up to whoever accesses the registers. Only this module makes
/// values in a state other than unknown.
pub struct Usbhs<
    Phy,
    Hsd,
    Hsh,
    State: init_state::InitState = init_state::Unknown,
    Mode: usbhs_mode::UsbhsMode = usbhs_mode::Unknown,
> {
    pub raw_phy: Phy,
    pub raw_hsd: Hsd,
    pub raw_hsh: Hsh,
    _state: State,
    _mode: Mode,
}

/// USB HS, up and running as a device.
pub type EnabledUsbhsDevice<Phy, Hsd, Hsh> = Usbhs<
    Phy,
    Hsd,
    Hsh,
    init_state::Enabled,
    usbhs_mode::Device,
>;

/// USB HS, up and running as a host.
pub type EnabledUsbhsHost<Phy, Hsd, Hsh> = Usbhs<
    Phy,
    Hsd,
    Hsh,
    init_state::Enabled,
    usbhs_mode::Host,
>;

impl<Phy, Hsd, Hsh> core::ops::Deref for EnabledUsbhsDevice<Phy, Hsd, Hsh> {
    type Target = Hsd;

    /// The device controller.
    fn deref(&self) -> (hsd: &Hsd)
        ensures
            *hsd == self.hsd(),
    {
        &self.raw_hsd
    }
}

impl<Phy, Hsd, Hsh> Usb<init_state::Enabled> for EnabledUsbhsDevice<Phy, Hsd, Hsh> {
    const SPEED: UsbSpeed = UsbSpeed::HighSpeed;
}

impl<Phy, Hsd, Hsh> Usbhs<Phy, Hsd, Hsh> {
    /// USB HS with these blocks, of whose state nothing is known.
    pub closed spec fn with_blocks(raw_phy: Phy, raw_hsd: Hsd, raw_hsh: Hsh) -> Self {
        Usbhs {
            raw_phy,
            raw_hsd,
            raw_hsh,
            _state: init_state::Unknown,
            _mode: usbhs_mode::Unknown,
        }
    }

    /// Takes the blocks, of whose state nothing is known.
    pub fn new(raw_phy: Phy, raw_hsd: Hsd, raw_hsh: Hsh) -> (usbhs: Self)
        ensures
            usbhs == Self::with_blocks(raw_phy, raw_hsd, raw_hsh),
            usbhs.phy() == raw_phy,
            usbhs.hsd() == raw_hsd,
            usbhs.hsh() == raw_hsh,
    {
        Usbhs {
            raw_phy,
            raw_hsd,
            raw_hsh,
            _state: init_state::Unknown,
            _mode: usbhs_mode::Unknown,
        }
    }
}

impl<Phy, Hsd, Hsh, State: init_state::InitState, Mode: usbhs_mode::UsbhsMode> Usbhs<
    Phy,
    Hsd,
    Hsh,
    State,
    Mode,
> {
    /// The PHY.
    pub closed spec fn phy(&self) -> Phy {
        self.raw_phy
    }

    /// The device controller.
    pub closed spec fn hsd(&self) -> Hsd {
        self.raw_hsd
    }

    /// The host controller.
    pub closed spec fn hsh(&self) -> Hsh {
        self.raw_hsh
    }

    /// Gives the controllers back. The PHY is dropped.
    pub fn release(self) -> (blocks: (Hsd, Hsh))
        ensures
            blocks.0 == self.hsd(),
            blocks.1 == self.hsh(),
    {
        (self.raw_hsd, self.raw_hsh)
    }

    /// Starts to bring USB HS up as a device.
    ///
    /// What comes back says action by action what to do, and turns into an
    /// [`EnabledUsbhsDevice`] once all of it is done.
    pub fn enabled_as_device(
        self,
        _clocks_token: ClocksSupportUsbhsToken,
    ) -> (enabling: EnablingUsbhsDevice<Phy, Hsd, Hsh>)
        ensures
            enabling.phy() == self.phy(),
            enabling.hsd() == self.hsd(),
            enabling.hsh() == self.hsh(),
            enabling.step() == EnableStep::Prepare(0),
    {
        EnablingUsbhsDevice {
            raw_phy: self.raw_phy,
            raw_hsd: self.raw_hsd,
            raw_hsh: self.raw_hsh,
            sequence: EnableSequence::new(),
        }
    }

    /// Lends the peripheral to `func`, once.
    pub fn borrow<F: Fn(&mut Self)>(&mut self, func: F)
        requires
            forall|this: &mut Self|
                *this == *old(self) ==> #[trigger] call_requires(func, (this,)),
        ensures
            exists|this: &mut Self|
                *this == *old(self) && *final(this) == *final(self) && #[trigger] call_ensures(
                    func,
                    (this,),
                    (),
                ),
    {
        func(self);
    }
}

/// USB HS on its way to becoming an [`EnabledUsbhsDevice`].
pub struct EnablingUsbhsDevice<Phy, Hsd, Hsh> {
    pub raw_phy: Phy,
    pub raw_hsd: Hsd,
    pub raw_hsh: Hsh,
    sequence: EnableSequence,
}

impl<Phy, Hsd, Hsh> EnablingUsbhsDevice<Phy, Hsd, Hsh> {
    /// The PHY.
    pub closed spec fn phy(&self) -> Phy {
        self.raw_phy
    }

    /// The device controller.
    pub closed spec fn hsd(&self) -> Hsd {
        self.raw_hsd
    }

    /// The host controller.
    pub closed spec fn hsh(&self) -> Hsh {
        self.raw_hsh
    }

    /// How far it has come.
    pub closed spec fn step(&self) -> EnableStep {
        self.sequence.step()
    }

    /// What is to be done next, or nothing once all is done.
    pub fn action(&self) -> (action: Option<Action>)
        ensures
            action == self.step().action(),
            self.step().wf(),
    {
        self.sequence.action()
    }

    /// Goes on after the action was carried out and answered with `reply`.
    ///
    /// Tells whether `reply` is an answer to that action. If not, nothing
    /// changes.
    pub fn advance(&mut self, reply: Reply) -> (accepted: bool)
        ensures
            accepted == old(self).step().accepts(reply),
            accepted ==> final(self).step() == old(self).step().next(reply),
            !accepted ==> final(self).step() == old(self).step(),
            old(self).step() is CheckClkgate ==> accepted == (reply is Ctrl),
            old(self).step() is Prepare ==> accepted == (reply is Done),
            old(self).step() is ClearClkgate ==> accepted == (reply is Done),
            old(self).step() is Complete ==> accepted == (reply is Done),
            old(self).step() is Done ==> !accepted,
            old(self).step() matches EnableStep::CheckClkgate(n) ==> (reply matches Reply::Ctrl(
                ctrl,
            ) ==> if ctrl as int / 0x4000_0000 % 2 == 0 || n == 3 {
                final(self).step() == EnableStep::Complete(0)
            } else {
                final(self).step() == EnableStep::ClearClkgate((n + 1) as u32)
            }),
            final(self).step().wf(),
            final(self).phy() == old(self).phy(),
            final(self).hsd() == old(self).hsd(),
            final(self).hsh() == old(self).hsh(),
    {
        self.sequence.advance(reply)
    }

    /// The device, once all is done; before that, what there was.
    pub fn finish(self) -> (result: Result<EnabledUsbhsDevice<Phy, Hsd, Hsh>, Self>)
        ensures
            match result {
                Ok(device) => {
                    &&& self.step() == EnableStep::Done
                    &&& device.phy() == self.phy()
                    &&& device.hsd() == self.hsd()
                    &&& device.hsh() == self.hsh()
                },
                Err(enabling) => self.step() != EnableStep::Done && enabling == self,
            },
    {
        if self.sequence.is_done() {
            Ok(
                Usbhs {
                    raw_phy: self.raw_phy,
                    raw_hsd: self.raw_hsd,
                    raw_hsh: self.raw_hsh,
                    _state: init_state::Enabled(()),
                    _mode: usbhs_mode::Device,
                },
            )
        } else {
            Err(self)
        }
    }
}

/// What USB1 says of itself.
#[derive(Clone, Copy, Debug, PartialEq, Eq, Structural)]
pub struct UsbHsDevInfo {
    /// Major revision.
    pub maj_rev: u8,
    /// Minor revision.
    pub min_rev: u8,
    /// The error code which last occurred.
    pub err_code: u8,
    /// Frame number.
    pub frame_nr: u16,
}

/// MAJREV, bits 24 to 31 of INFO.
pub open spec fn info_majrev(info: u32) -> int {
    info as int / 0x100_0000
}

/// MINREV, bits 16 to 23 of INFO.
pub open spec fn info_minrev(info: u32) -> int {
    info as int / 0x1_0000 % 0x100
}

/// ERR_CODE, bits 11 to 14 of INFO.
pub open spec fn info_err_code(info: u32) -> int {
    info as int / 0x800 % 0x10
}

/// FRAME_NR, bits 0 to 10 of INFO.
pub open spec fn info_frame_nr(info: u32) -> int {
    info as int % 0x800
}

/// The fields make up INFO again, with bit 15, which is reserved, and nothing is
/// left over.
pub proof fn info_is_made_up_of_its_fields(info: u32) -> (reserved: int)
    ensures
        0 <= reserved <= 1,
        0 <= info_majrev(info) < 0x100,
        0 <= info_minrev(info) < 0x100,
        0 <= info_err_code(info) < 0x10,
        0 <= info_frame_nr(info) < 0x800,
        info == info_majrev(info) * 0x100_0000 + info_minrev(info) * 0x1_0000 + reserved * 0x8000
            + info_err_code(info) * 0x800 + info_frame_nr(info),
{
    let x = info as int;
    let reserved = x / 0x8000 % 2;
    assert(x / 0x8000 == x / 0x800 / 0x10);
    assert(x / 0x1_0000 == x / 0x8000 / 2);
    assert(x / 0x100_0000 == x / 0x1_0000 / 0x100);
    assert(x == x / 0x800 * 0x800 + info_frame_nr(info));
    assert(x / 0x800 == x / 0x8000 * 0x10 + info_err_code(info));
    assert(x / 0x8000 == x / 0x1_0000 * 2 + reserved);
    assert(x / 0x1_0000 == info_majrev(info) * 0x100 + info_minrev(info));
    reserved
}

impl<Phy, Hsd, Hsh> EnabledUsbhsDevice<Phy, Hsd, Hsh> {
    /// What INFO of USB1 says.
    ///
    /// INFO is read anew for each field: the arguments are what it held for
    /// `maj_rev`, `min_rev`, `err_code` and `frame_nr`.
    pub fn info(
        &self,
        info_for_maj_rev: u32,
        info_for_min_rev: u32,
        info_for_err_code: u32,
        info_for_frame_nr: u32,
    ) -> (info: UsbHsDevInfo)
        ensures
            info.maj_rev == info_majrev(info_for_maj_rev),
            info.min_rev == info_minrev(info_for_min_rev),
            info.err_code == info_err_code(info_for_err_code),
            info.frame_nr == info_frame_nr(info_for_frame_nr),
            info.maj_rev * 0x100_0000 <= info_for_maj_rev < (info.maj_rev + 1) * 0x100_0000,
            info.min_rev * 0x1_0000 <= info_for_min_rev as int % 0x100_0000 < (info.min_rev + 1)
                * 0x1_0000,
            info.err_code * 0x800 <= info_for_err_code as int % 0x8000 < (info.err_code + 1)
                * 0x800,
            info.frame_nr < 0x800,
            (info_for_frame_nr - info.frame_nr) % 0x800 == 0,
    {
        assert((info_for_maj_rev >> 24) == info_for_maj_rev / 0x100_0000) by (bit_vector);
        assert((info_for_min_rev >> 16) & 0xff == info_for_min_rev / 0x1_0000 % 0x100)
            by (bit_vector);
        assert((info_for_err_code >> 11) & 0xf == info_for_err_code / 0x800 % 0x10)
            by (bit_vector);
        assert(info_for_frame_nr & 0x7ff == info_for_frame_nr % 0x800) by (bit_vector);
        UsbHsDevInfo {
            maj_rev: (info_for_maj_rev >> 24) as u8,
            min_rev: ((info_for_min_rev >> 16) & 0xff) as u8,
            err_code: ((info_for_err_code >> 11) & 0xf) as u8,
            frame_nr: (info_for_frame_nr & 0x7ff) as u16,
        }
    }

    /// What keeps the device from talking high speed.
    pub fn disable_high_speed(&mut self) -> (action: Action)
        ensures
            action == Action::WritePhy(PhyRegister::PwdSet, PWD_TXPWDV2I),
            *final(self) == *old(self),
    {
        Action::WritePhy(PhyRegister::PwdSet, PWD_TXPWDV2I)
    }
}

/// What switches USB HS off.
pub open spec fn shutdown() -> Seq<Action> {
    seq![
        Action::DisableClock(Block::Hsd),
        Action::DisableClock(Block::Phy),
        Action::PowerOff(Block::Phy),
        Action::PowerOffSupply(Supply::Xtal32m),
        Action::PowerOffSupply(Supply::Ldoxo32m),
    ]
}

impl<Phy, Hsd, Hsh, State: init_state::InitState> Usbhs<
    Phy,
    Hsd,
    Hsh,
    State,
    usbhs_mode::Device,
> {
    /// Disables the USB HS peripheral, assumed in device mode.
    ///
    /// With it comes what is to be done for that, in order.
    pub fn disabled(self) -> (result: (
        Usbhs<Phy, Hsd, Hsh, init_state::Disabled, usbhs_mode::Device>,
        [Action; 5],
    ))
        ensures
            result.0.phy() == self.phy(),
            result.0.hsd() == self.hsd(),
            result.0.hsh() == self.hsh(),
            result.1@ == shutdown(),
    {
        let actions: [Action; 5] = [
            Action::DisableClock(Block::Hsd),
            Action::DisableClock(Block::Phy),
            Action::PowerOff(Block::Phy),
            Action::PowerOffSupply(Supply::Xtal32m),
            Action::PowerOffSupply(Supply::Ldoxo32m),
        ];
        let usbhs = Usbhs {
            raw_phy: self.raw_phy,
            raw_hsd: self.raw_hsd,
            raw_hsh: self.raw_hsh,
            _state: init_state::Disabled,
            _mode: usbhs_mode::Device,
        };
        (usbhs, actions)
    }
}

impl<Phy, Hsd, Hsh> From<(Phy, Hsd, Hsh)> for Usbhs<Phy, Hsd, Hsh> {
    /// The same as [`Usbhs::new`].
    fn from(raw: (Phy, Hsd, Hsh)) -> (usbhs: Self)
        ensures
            usbhs.phy() == raw.0,
            usbhs.hsd() == raw.1,
            usbhs.hsh() == raw.2,
    {
        Usbhs::new(raw.0, raw.1, raw.2)
    }
}

impl<Phy, Hsd, Hsh> FromSpecImpl<(Phy, Hsd, Hsh)> for Usbhs<Phy, Hsd, Hsh> {
    open spec fn obeys_from_spec() -> bool {
        true
    }

    open spec fn from_spec(raw: (Phy, Hsd, Hsh)) -> Self {
        Usbhs::with_blocks(raw.0, raw.1, raw.2)
    }
}

} // verus!
