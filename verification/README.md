# lpc55_usbhs

The USB1 high-speed device controller of the LPC55 microcontrollers, as far as it can be
reasoned about without the chip.

- `src/drivers/usbd`: endpoint buffers in USB RAM and the bump allocator that hands them out.
  `memory_laws.rs` states what holds over several calls.
- `src/peripherals`: the peripheral with its state in its type, and the order in which controller
  and PHY are brought up and shut down. The library decides on one `Action` at a time;
  `usbhs_laws.rs`, `usbhs_phy_laws.rs` and `usbhs_power_laws.rs` state what holds of every run.
- `app`: carries the actions out on the registers, and maps the RAM.

Contracts and laws are verified with Verus. What is trusted are the wrappers around
`vcell::VolatileCell` in `src/drivers/usbd/usb_ram.rs`.
