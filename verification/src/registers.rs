//! The register-access capability.
//!
//! The clock tree is programmed through named registers. A [`RegisterFile`]
//! models that register set as plain values and records every write in order,
//! so the configuration sequence can be verified, and exercised on a host,
//! against a simulated device. Each register write is modeled as completing
//! instantaneously; analog settling and lock polling are out of scope.

use vstd::prelude::*;

verus! {

/// Identifies one peripheral's clock-enable control.
#[derive(Clone, Copy, PartialEq, Eq, Structural, Debug)]
pub enum Locator {
    /// Secure non-volatile storage, low-power domain.
    SnvsLp,
    /// Secure non-volatile storage, high-power domain.
    SnvsHp,
    /// The first GPIO port.
    Gpio1,
    /// The periodic interrupt timer.
    Pit,
    /// The first general-purpose timer.
    Gpt1,
    /// The second general-purpose timer.
    Gpt2,
    /// The first low-power UART.
    Lpuart1,
}

/// A named hardware register of the clock-generation tree.
#[derive(Clone, Copy, PartialEq, Eq, Structural, Debug)]
pub enum Register {
    /// Low-power mode control of the clock controller.
    LowPowerMode,
    /// Target voltage of the on-chip regulator, in millivolts.
    PowerTarget,
    /// Upstream source of the AHB root clock.
    AhbClockSelect,
    /// Divider of the AHB root clock.
    AhbDivider,
    /// Divider deriving the IPG clock from the AHB clock.
    IpgDivider,
    /// Restart control of the analog multiplier feeding the serial clocks.
    Pll3Restart,
    /// Upstream source of the PERCLK domain.
    PerclkClockSelect,
    /// Divider of the PERCLK domain.
    PerclkDivider,
    /// Upstream source of the UART functional clock.
    UartClockSelect,
    /// Divider of the UART functional clock.
    UartDivider,
    /// The clock-enable bit of one peripheral.
    Gate(Locator),
}

/// One recorded register write: which register, and the bits written.
#[derive(Clone, Copy, PartialEq, Eq, Structural, Debug)]
pub struct WriteRecord {
    /// The register written.
    pub register: Register,
    /// The value written to it.
    pub value: u32,
}

/// A snapshot of every register the bring-up sequence touches.
///
/// Gate registers hold a single enable bit; all others hold their last
/// written word.
#[derive(Clone, Copy, PartialEq, Eq, Structural, Debug)]
#[verifier::ext_equal]
pub struct RegState {
    /// Low-power mode control word.
    pub low_power_mode: u32,
    /// Regulator target, in millivolts.
    pub power_target: u32,
    /// AHB root source selection.
    pub ahb_clock_select: u32,
    /// AHB root divider.
    pub ahb_divider: u32,
    /// IPG divider.
    pub ipg_divider: u32,
    /// Analog multiplier restart control.
    pub pll3_restart: u32,
    /// PERCLK source selection.
    pub perclk_clock_select: u32,
    /// PERCLK divider.
    pub perclk_divider: u32,
    /// UART clock source selection.
    pub uart_clock_select: u32,
    /// UART clock divider.
    pub uart_divider: u32,
    /// Clock-enable bit of the SNVS low-power domain.
    pub snvs_lp_gate: bool,
    /// Clock-enable bit of the SNVS high-power domain.
    pub snvs_hp_gate: bool,
    /// Clock-enable bit of the first GPIO port.
    pub gpio1_gate: bool,
    /// Clock-enable bit of the periodic interrupt timer.
    pub pit_gate: bool,
    /// Clock-enable bit of the first general-purpose timer.
    pub gpt1_gate: bool,
    /// Clock-enable bit of the second general-purpose timer.
    pub gpt2_gate: bool,
    /// Clock-enable bit of the first low-power UART.
    pub lpuart1_gate: bool,
}

/// The register state at power-on reset: every modeled register zero and
/// every gate closed.
pub open spec fn reset_regs() -> RegState {
    RegState {
        low_power_mode: 0,
        power_target: 0,
        ahb_clock_select: 0,
        ahb_divider: 0,
        ipg_divider: 0,
        pll3_restart: 0,
        perclk_clock_select: 0,
        perclk_divider: 0,
        uart_clock_select: 0,
        uart_divider: 0,
        snvs_lp_gate: false,
        snvs_hp_gate: false,
        gpio1_gate: false,
        pit_gate: false,
        gpt1_gate: false,
        gpt2_gate: false,
        lpuart1_gate: false,
    }
}

/// The clock-enable bit of `locator` in `regs`.
pub open spec fn gate(regs: RegState, locator: Locator) -> bool {
    match locator {
        Locator::SnvsLp => regs.snvs_lp_gate,
        Locator::SnvsHp => regs.snvs_hp_gate,
        Locator::Gpio1 => regs.gpio1_gate,
        Locator::Pit => regs.pit_gate,
        Locator::Gpt1 => regs.gpt1_gate,
        Locator::Gpt2 => regs.gpt2_gate,
        Locator::Lpuart1 => regs.lpuart1_gate,
    }
}

/// `regs` after `bits` is written to `register`.
pub open spec fn write_reg(regs: RegState, register: Register, bits: u32) -> RegState {
    match register {
        Register::LowPowerMode => RegState { low_power_mode: bits, ..regs },
        Register::PowerTarget => RegState { power_target: bits, ..regs },
        Register::AhbClockSelect => RegState { ahb_clock_select: bits, ..regs },
        Register::AhbDivider => RegState { ahb_divider: bits, ..regs },
        Register::IpgDivider => RegState { ipg_divider: bits, ..regs },
        Register::Pll3Restart => RegState { pll3_restart: bits, ..regs },
        Register::PerclkClockSelect => RegState { perclk_clock_select: bits, ..regs },
        Register::PerclkDivider => RegState { perclk_divider: bits, ..regs },
        Register::UartClockSelect => RegState { uart_clock_select: bits, ..regs },
        Register::UartDivider => RegState { uart_divider: bits, ..regs },
        Register::Gate(locator) => match locator {
            Locator::SnvsLp => RegState { snvs_lp_gate: bits != 0, ..regs },
            Locator::SnvsHp => RegState { snvs_hp_gate: bits != 0, ..regs },
            Locator::Gpio1 => RegState { gpio1_gate: bits != 0, ..regs },
            Locator::Pit => RegState { pit_gate: bits != 0, ..regs },
            Locator::Gpt1 => RegState { gpt1_gate: bits != 0, ..regs },
            Locator::Gpt2 => RegState { gpt2_gate: bits != 0, ..regs },
            Locator::Lpuart1 => RegState { lpuart1_gate: bits != 0, ..regs },
        },
    }
}

/// The bits read back from `register` in `regs`.
pub open spec fn read_reg(regs: RegState, register: Register) -> u32 {
    match register {
        Register::LowPowerMode => regs.low_power_mode,
        Register::PowerTarget => regs.power_target,
        Register::AhbClockSelect => regs.ahb_clock_select,
        Register::AhbDivider => regs.ahb_divider,
        Register::IpgDivider => regs.ipg_divider,
        Register::Pll3Restart => regs.pll3_restart,
        Register::PerclkClockSelect => regs.perclk_clock_select,
        Register::PerclkDivider => regs.perclk_divider,
        Register::UartClockSelect => regs.uart_clock_select,
        Register::UartDivider => regs.uart_divider,
        Register::Gate(locator) => if gate(regs, locator) {
            1
        } else {
            0
        },
    }
}

/// A register file: the current register state together with the ordered
/// record of every write made through it.
///
/// On hardware this capability stands for the memory-mapped register block;
/// on a host it is the simulated device the sequence is tested against.
pub struct RegisterFile {
    /// Current register values.
    pub regs: RegState,
    /// Every write so far, oldest first.
    pub writes: Vec<WriteRecord>,
}

impl RegisterFile {
    /// A register file in the power-on reset state, with an empty record.
    pub fn new() -> (rf: RegisterFile)
        ensures
            rf.regs == reset_regs(),
            rf.writes@ == Seq::<WriteRecord>::empty(),
    {
        RegisterFile {
            regs: RegState {
                low_power_mode: 0,
                power_target: 0,
                ahb_clock_select: 0,
                ahb_divider: 0,
                ipg_divider: 0,
                pll3_restart: 0,
                perclk_clock_select: 0,
                perclk_divider: 0,
                uart_clock_select: 0,
                uart_divider: 0,
                snvs_lp_gate: false,
                snvs_hp_gate: false,
                gpio1_gate: false,
                pit_gate: false,
                gpt1_gate: false,
                gpt2_gate: false,
                lpuart1_gate: false,
            },
            writes: Vec::new(),
        }
    }

    /// Writes `bits` to `register` and appends the write to the record.
    pub fn write(&mut self, register: Register, bits: u32)
        ensures
            final(self).regs == write_reg(old(self).regs, register, bits),
            final(self).writes@ == old(self).writes@.push(
                WriteRecord { register, value: bits },
            ),
    {
        match register {
            Register::LowPowerMode => self.regs.low_power_mode = bits,
            Register::PowerTarget => self.regs.power_target = bits,
            Register::AhbClockSelect => self.regs.ahb_clock_select = bits,
            Register::AhbDivider => self.regs.ahb_divider = bits,
            Register::IpgDivider => self.regs.ipg_divider = bits,
            Register::Pll3Restart => self.regs.pll3_restart = bits,
            Register::PerclkClockSelect => self.regs.perclk_clock_select = bits,
            Register::PerclkDivider => self.regs.perclk_divider = bits,
            Register::UartClockSelect => self.regs.uart_clock_select = bits,
            Register::UartDivider => self.regs.uart_divider = bits,
            Register::Gate(locator) => match locator {
                Locator::SnvsLp => self.regs.snvs_lp_gate = bits != 0,
                Locator::SnvsHp => self.regs.snvs_hp_gate = bits != 0,
                Locator::Gpio1 => self.regs.gpio1_gate = bits != 0,
                Locator::Pit => self.regs.pit_gate = bits != 0,
                Locator::Gpt1 => self.regs.gpt1_gate = bits != 0,
                Locator::Gpt2 => self.regs.gpt2_gate = bits != 0,
                Locator::Lpuart1 => self.regs.lpuart1_gate = bits != 0,
            },
        }
        self.writes.push(WriteRecord { register, value: bits });
    }

    /// Reads the current bits of `register`.
    pub fn read(&self, register: Register) -> (bits: u32)
        ensures
            bits == read_reg(self.regs, register),
    {
        match register {
            Register::LowPowerMode => self.regs.low_power_mode,
            Register::PowerTarget => self.regs.power_target,
            Register::AhbClockSelect => self.regs.ahb_clock_select,
            Register::AhbDivider => self.regs.ahb_divider,
            Register::IpgDivider => self.regs.ipg_divider,
            Register::Pll3Restart => self.regs.pll3_restart,
            Register::PerclkClockSelect => self.regs.perclk_clock_select,
            Register::PerclkDivider => self.regs.perclk_divider,
            Register::UartClockSelect => self.regs.uart_clock_select,
            Register::UartDivider => self.regs.uart_divider,
            Register::Gate(locator) => {
                let on = match locator {
                    Locator::SnvsLp => self.regs.snvs_lp_gate,
                    Locator::SnvsHp => self.regs.snvs_hp_gate,
                    Locator::Gpio1 => self.regs.gpio1_gate,
                    Locator::Pit => self.regs.pit_gate,
                    Locator::Gpt1 => self.regs.gpt1_gate,
                    Locator::Gpt2 => self.regs.gpt2_gate,
                    Locator::Lpuart1 => self.regs.lpuart1_gate,
                };
                if on {
                    1
                } else {
                    0
                }
            },
        }
    }
}

} // verus!
