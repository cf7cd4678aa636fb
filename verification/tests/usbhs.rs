use lpc55_usbhs::peripherals::usbhs::{EnabledUsbhsDevice, EnablingUsbhsDevice, UsbHsDevInfo, Usbhs};
use lpc55_usbhs::peripherals::usbhs_action::{Action, Block, PhyRegister, Reply, Supply};
use lpc55_usbhs::peripherals::usbhs_enable::{EnableSequence, CLKGATE_CLEAR_ATTEMPTS};
use lpc55_usbhs::traits::usb::{Usb, UsbSpeed};
use lpc55_usbhs::typestates::ClocksSupportUsbhsToken;

const GATED: u32 = 1 << 30;

fn preparation() -> Vec<Action> {
    vec![
        Action::Reset(Block::Hsh),
        Action::Reset(Block::Hsd),
        Action::Reset(Block::Phy),
        Action::EnableClock(Block::Hsh),
        Action::EnableDevicePort,
        Action::DisableClock(Block::Hsh),
        Action::PowerOnSupply(Supply::Xtal32m),
        Action::PowerOnSupply(Supply::Ldoxo32m),
        Action::EnablePllUsbOut,
        Action::PowerOn(Block::Phy),
        Action::Wait(5000),
        Action::EnableClock(Block::Phy),
        Action::WritePhy(PhyRegister::CtrlClr, 1 << 31),
        Action::WritePhy(PhyRegister::PllSicClr, 1 << 22),
        Action::WritePhy(PhyRegister::PllSicSet, 6 << 22),
        Action::WritePhy(PhyRegister::PllSicSet, 1 << 21),
        Action::WritePhy(PhyRegister::PllSicClr, 1 << 16),
        Action::Wait(15),
        Action::WritePhy(PhyRegister::PllSicSet, 1 << 12),
        Action::WritePhy(PhyRegister::PllSicSet, 1 << 6),
    ]
}

fn expected(attempts: usize) -> Vec<Action> {
    let mut actions = preparation();
    for _ in 0..attempts {
        actions.push(Action::WritePhy(PhyRegister::CtrlClr, 1 << 30));
        actions.push(Action::ReadPhyCtrl);
    }
    actions.push(Action::WritePhy(PhyRegister::Pwd, 0));
    actions.push(Action::WritePhy(PhyRegister::CtrlSet, 1 << 19));
    actions.push(Action::EnableClock(Block::Hsd));
    actions
}

type Enabling = EnablingUsbhsDevice<&'static str, &'static str, &'static str>;
type Device = EnabledUsbhsDevice<&'static str, &'static str, &'static str>;

fn enabling() -> Enabling {
    Usbhs::new("phy", "hsd", "hsh").enabled_as_device(ClocksSupportUsbhsToken { __: () })
}

/// Carries everything out, with these values read from USBPHY_CTRL.
fn carry_out(enabling: &mut Enabling, readings: &[u32]) -> Vec<Action> {
    let mut readings = readings.iter();
    let mut actions = vec![];
    while let Some(action) = enabling.action() {
        actions.push(action);
        let reply = if action == Action::ReadPhyCtrl {
            Reply::Ctrl(*readings.next().unwrap())
        } else {
            Reply::Done
        };
        assert!(enabling.advance(reply));
    }
    assert!(readings.next().is_none());
    actions
}

fn device() -> Device {
    let mut enabling = enabling();
    carry_out(&mut enabling, &[0]);
    match enabling.finish() {
        Ok(device) => device,
        Err(_) => panic!("all was carried out"),
    }
}

#[test]
fn gate_opens_at_once() {
    assert_eq!(carry_out(&mut enabling(), &[0]), expected(1));
}

#[test]
fn other_bits_of_ctrl_do_not_matter() {
    assert_eq!(carry_out(&mut enabling(), &[!GATED]), expected(1));
    assert_eq!(carry_out(&mut enabling(), &[GATED, 0x8008_0000]), expected(2));
}

#[test]
fn gate_opens_at_the_second_attempt() {
    assert_eq!(carry_out(&mut enabling(), &[u32::MAX, 0]), expected(2));
}

#[test]
fn gate_opens_at_the_third_attempt() {
    assert_eq!(carry_out(&mut enabling(), &[GATED, GATED, 0]), expected(3));
}

#[test]
fn gate_opens_at_the_last_attempt() {
    assert_eq!(carry_out(&mut enabling(), &[GATED, GATED, GATED, 0]), expected(4));
}

#[test]
fn gate_stays_shut() {
    assert_eq!(CLKGATE_CLEAR_ATTEMPTS, 4);
    let mut enabling = enabling();
    assert_eq!(carry_out(&mut enabling, &[GATED; 4]), expected(4));
    assert!(enabling.finish().is_ok());
}

#[test]
fn runs_are_bounded() {
    assert_eq!(carry_out(&mut enabling(), &[GATED; 4]).len(), 31);
    assert_eq!(carry_out(&mut enabling(), &[0]).len(), 25);
}

#[test]
fn reset_is_released_before_and_apart_from_the_gate() {
    let actions = carry_out(&mut enabling(), &[GATED, 0]);
    let clears: Vec<u32> = actions
        .iter()
        .filter_map(|action| match action {
            Action::WritePhy(PhyRegister::CtrlClr, bits) => Some(*bits),
            _ => None,
        })
        .collect();
    assert_eq!(clears, [1 << 31, 1 << 30, 1 << 30]);
}

/// The registers of a PHY that drops the given number of clears of its gate.
#[derive(Clone, Copy, Debug, PartialEq)]
struct Phy {
    ctrl: u32,
    pll_sic: u32,
    pwd: u32,
    drops: u32,
}

impl Phy {
    fn carry_out(&mut self, action: Action) -> Reply {
        match action {
            Action::WritePhy(PhyRegister::CtrlClr, bits) => {
                let in_reset = self.ctrl & (1 << 31) != 0;
                let dropped = bits & GATED != 0 && self.drops > 0;
                let was_gated = self.ctrl & GATED;
                self.ctrl &= !bits;
                if in_reset {
                    self.ctrl |= GATED;
                } else if dropped {
                    self.drops -= 1;
                    self.ctrl |= was_gated;
                }
            }
            Action::WritePhy(PhyRegister::CtrlSet, bits) => self.ctrl |= bits,
            Action::WritePhy(PhyRegister::PllSicSet, bits) => self.pll_sic |= bits,
            Action::WritePhy(PhyRegister::PllSicClr, bits) => self.pll_sic &= !bits,
            Action::WritePhy(PhyRegister::Pwd, bits) => self.pwd = bits,
            Action::WritePhy(PhyRegister::PwdSet, bits) => self.pwd |= bits,
            Action::ReadPhyCtrl => return Reply::Ctrl(self.ctrl),
            _ => {}
        }
        Reply::Done
    }
}

fn phy_after_enabling(mut phy: Phy) -> Phy {
    let mut enabling = enabling();
    while let Some(action) = enabling.action() {
        let reply = phy.carry_out(action);
        assert!(enabling.advance(reply));
    }
    phy
}

#[test]
fn phy_comes_up() {
    let reset = Phy { ctrl: 0xc000_0000, pll_sic: 0x00d1_2000, pwd: 0x001e_1c00, drops: 0 };
    for drops in 0..4 {
        assert_eq!(
            phy_after_enabling(Phy { drops, ..reset }),
            Phy { ctrl: 0x0008_0000, pll_sic: 0x01b0_3040, pwd: 0, drops: 0 }
        );
    }
    assert_eq!(
        phy_after_enabling(Phy { drops: 4, ..reset }),
        Phy { ctrl: 0x4008_0000, pll_sic: 0x01b0_3040, pwd: 0, drops: 0 }
    );
}

#[test]
fn combined_clear_leaves_phy_gated() {
    let mut phy = Phy { ctrl: 0xc000_0000, pll_sic: 0, pwd: 0, drops: 0 };
    phy.carry_out(Action::WritePhy(PhyRegister::CtrlClr, 0xc000_0000));
    assert_eq!(phy.ctrl, GATED);
}

#[test]
fn wrong_answers_are_not_accepted() {
    let mut sequence = EnableSequence::new();
    assert!(!sequence.advance(Reply::Ctrl(0)));
    assert_eq!(sequence.action(), Some(Action::Reset(Block::Hsh)));
    for _ in 0..21 {
        assert!(!sequence.is_done());
        assert!(sequence.advance(Reply::Done));
    }
    assert_eq!(sequence.action(), Some(Action::ReadPhyCtrl));
    assert!(!sequence.advance(Reply::Done));
    assert_eq!(sequence.action(), Some(Action::ReadPhyCtrl));
    assert!(sequence.advance(Reply::Ctrl(0)));
    assert!(!sequence.advance(Reply::Ctrl(0)));
    for _ in 0..3 {
        assert!(sequence.advance(Reply::Done));
    }
    assert!(sequence.is_done());
    assert_eq!(sequence.action(), None);
    assert!(!sequence.advance(Reply::Done));
    assert!(!sequence.advance(Reply::Ctrl(0)));
    assert!(sequence.is_done());
}

#[test]
fn device_comes_only_when_all_is_done() {
    let mut early = enabling();
    for _ in 0..24 {
        let reply =
            if early.action() == Some(Action::ReadPhyCtrl) { Reply::Ctrl(0) } else { Reply::Done };
        assert!(early.advance(reply));
        early = match early.finish() {
            Ok(_) => panic!("something is left to do"),
            Err(enabling) => enabling,
        };
    }
    assert!(early.advance(Reply::Done));
    let device = match early.finish() {
        Ok(device) => device,
        Err(_) => panic!("all was carried out"),
    };
    assert_eq!((device.raw_phy, device.raw_hsd, device.raw_hsh), ("phy", "hsd", "hsh"));
}

#[test]
fn release_gives_the_controllers_back() {
    assert_eq!(Usbhs::new(1, 2, 3).release(), (2, 3));
    assert_eq!(device().release(), ("hsd", "hsh"));
}

#[test]
fn from_is_new() {
    let usbhs = Usbhs::from((1u8, 2u16, 3u32));
    assert_eq!((usbhs.raw_phy, usbhs.raw_hsd, usbhs.raw_hsh), (1, 2, 3));
}

#[test]
fn borrow_calls_once() {
    let mut usbhs = Usbhs::new(1, 2, 3);
    usbhs.borrow(|usbhs| usbhs.raw_hsd += 40);
    assert_eq!((usbhs.raw_phy, usbhs.raw_hsd, usbhs.raw_hsh), (1, 42, 3));
}

#[test]
fn device_derefs_to_its_controller() {
    assert_eq!(*device(), "hsd");
}

#[test]
fn device_is_high_speed() {
    assert_eq!(<Device as Usb<_>>::SPEED, UsbSpeed::HighSpeed);
}

#[test]
fn info_takes_each_field_from_its_own_reading() {
    let info = device().info(0xa1ff_ffff, 0xffb2_ffff, 0xffff_e7ff, 0xffff_fc3d);
    assert_eq!(info, UsbHsDevInfo { maj_rev: 0xa1, min_rev: 0xb2, err_code: 0xc, frame_nr: 0x43d });
    let info = device().info(0x0203_4a05, 0x0203_4a05, 0x0203_4a05, 0x0203_4a05);
    assert_eq!(info, UsbHsDevInfo { maj_rev: 2, min_rev: 3, err_code: 9, frame_nr: 0x205 });
}

#[test]
fn high_speed_is_disabled_by_one_write() {
    let mut device = device();
    assert_eq!(device.disable_high_speed(), Action::WritePhy(PhyRegister::PwdSet, 1 << 12));
    assert_eq!(device.release(), ("hsd", "hsh"));
}

#[test]
fn disabling_goes_in_order() {
    let (disabled, actions) = device().disabled();
    assert_eq!(
        actions,
        [
            Action::DisableClock(Block::Hsd),
            Action::DisableClock(Block::Phy),
            Action::PowerOff(Block::Phy),
            Action::PowerOffSupply(Supply::Xtal32m),
            Action::PowerOffSupply(Supply::Ldoxo32m),
        ]
    );
    assert_eq!((disabled.raw_phy, disabled.raw_hsd, disabled.raw_hsh), ("phy", "hsd", "hsh"));
}

#[test]
fn disabling_undoes_enabling() {
    let mut on: Vec<Action> = vec![];
    let mut enabling = enabling();
    let mut actions = carry_out(&mut enabling, &[0]);
    if let Ok(device) = enabling.finish() {
        actions.extend(device.disabled().1);
    }
    for action in actions {
        match action {
            Action::EnableClock(_) | Action::PowerOn(_) | Action::PowerOnSupply(_) => {
                on.push(action)
            }
            Action::DisableClock(block) => on.retain(|a| *a != Action::EnableClock(block)),
            Action::PowerOff(block) => on.retain(|a| *a != Action::PowerOn(block)),
            Action::PowerOffSupply(supply) => on.retain(|a| *a != Action::PowerOnSupply(supply)),
            _ => {}
        }
    }
    assert_eq!(on, []);
}

#[test]
fn disabled_device_can_be_enabled_again() {
    let disabled = device().disabled().0;
    let mut again = disabled.enabled_as_device(ClocksSupportUsbhsToken { __: () });
    assert_eq!(carry_out(&mut again, &[0]), expected(1));
    assert!(again.finish().is_ok());
}
