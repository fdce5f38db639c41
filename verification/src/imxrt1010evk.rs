//! Board description for the i.MX RT 1010 evaluation kit.
//!
//! Names the clock gates this board's wired-up peripherals need, and the
//! board-specific peripheral handles that bring-up hands to the caller. Pin
//! multiplexing and pad configuration are external collaborators: nothing
//! here touches alternate functions.

use vstd::prelude::*;

use crate::registers::Locator;

verus! {

/// The locators of the clock gates this board's peripherals need.
pub open spec fn board_gate_locators() -> Seq<Locator> {
    seq![Locator::Gpio1, Locator::Lpuart1, Locator::Pit]
}

/// The clock gates this board's wired-up peripherals need: the LED's GPIO
/// port, the console UART, and the periodic timer. Bring-up opens these,
/// together with the common set, once every domain is stable.
pub fn board_clock_gates() -> (locators: Vec<Locator>)
    ensures
        locators@ == board_gate_locators(),
{
    let mut locators: Vec<Locator> = Vec::new();
    locators.push(Locator::Gpio1);
    locators.push(Locator::Lpuart1);
    locators.push(Locator::Pit);
    proof {
        assert(locators@ =~= board_gate_locators());
    }
    locators
}

/// The board LED: an exclusive handle on one GPIO output.
///
/// The handle is produced only by bring-up, moved and never duplicated, so at
/// most one owner can drive the pin.
pub struct Led {
    port: u8,
    pin: u8,
}

impl Led {
    /// The GPIO port this handle drives.
    pub closed spec fn port(self) -> u8 {
        self.port
    }

    /// The pin within the port this handle drives.
    pub closed spec fn pin(self) -> u8 {
        self.pin
    }

    /// Returns the GPIO port number this handle drives.
    pub fn port_number(&self) -> (port: u8)
        ensures
            port == self.port(),
    {
        self.port
    }

    /// Returns the pin number within the port this handle drives.
    pub fn pin_number(&self) -> (pin: u8)
        ensures
            pin == self.pin(),
    {
        self.pin
    }
}

/// Peripherals specific to the i.MX RT 1010 evaluation kit.
pub struct Specifics {
    /// The board LED, on pin 11 of the first GPIO port.
    pub led: Led,
}

impl Specifics {
    /// Prepares the board-specific peripheral handles.
    pub(crate) fn new() -> (specifics: Specifics)
        ensures
            specifics.led.port() == 1,
            specifics.led.pin() == 11,
    {
        Specifics { led: Led { port: 1, pin: 11 } }
    }
}

} // verus!
