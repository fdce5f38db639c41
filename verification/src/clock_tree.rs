//! Preset clock tree selections, dividers, and frequencies.
//!
//! Every `*_frequency` function is a total, pure function of the run mode,
//! derived by dividing an upstream frequency through the selection and
//! divider tables — never by duplicating constants. For every clock domain
//! the derived value stays at or under the datasheet ceiling for that domain;
//! [`lemma_frequency_ceiling`] holds that at verification time, so a
//! violation can never reach a running device.
//!
//! The `configure_*` functions program one functional clock domain each,
//! closing the gates scoped to the domain before touching its selection and
//! divider registers.

use vstd::prelude::*;

use crate::gate::{
    apply, apply_gates, gate_writes, perclk_clock_gates, perclk_gate_locators,
    uart_clock_gates, uart_gate_locators, OFF,
};
use crate::registers::{write_reg, Locator, RegState, Register, RegisterFile, WriteRecord};
use crate::RunMode;

verus! {

/// Frequency of the external crystal oscillator, in Hz.
pub const XTAL_OSCILLATOR_HZ: u32 = 24_000_000;

/// Frequency of the analog multiplier feeding the serial clocks, in Hz.
pub const PLL3_FREQUENCY: u32 = 480_000_000;

/// Frequency of the analog multiplier feeding the AHB root, in Hz.
pub const PLL6_FREQUENCY: u32 = 500_000_000;

/// Datasheet ceiling of the AHB root clock, in Hz.
pub const AHB_CEILING_HZ: u32 = 500_000_000;

/// Datasheet ceiling of the IPG clock, in Hz.
pub const IPG_CEILING_HZ: u32 = 125_000_000;

/// Datasheet ceiling of the PERCLK domain, in Hz.
pub const PERCLK_CEILING_HZ: u32 = 62_500_000;

/// Datasheet ceiling of the UART functional clock, in Hz.
pub const UART_CEILING_HZ: u32 = 80_000_000;

/// A named functional clock domain of the tree.
#[derive(Clone, Copy, PartialEq, Eq, Structural, Debug)]
pub enum ClockDomain {
    /// The primary internal system bus clock.
    Ahb,
    /// The peripheral bus clock, divided down from AHB.
    Ipg,
    /// The clock feeding the general-purpose timer peripherals.
    Perclk,
    /// The clock feeding the low-power UART peripherals.
    Uart,
}

/// Upstream sources the AHB root clock may be driven from.
#[derive(Clone, Copy, PartialEq, Eq, Structural, Debug)]
pub enum AhbSelection {
    /// The 500 MHz analog multiplier.
    Pll6,
}

/// Upstream sources the PERCLK domain may be driven from.
#[derive(Clone, Copy, PartialEq, Eq, Structural, Debug)]
pub enum PerclkSelection {
    /// The IPG clock.
    Ipg,
    /// The external crystal oscillator.
    Oscillator,
}

/// Upstream sources the UART functional clock may be driven from.
#[derive(Clone, Copy, PartialEq, Eq, Structural, Debug)]
pub enum UartSelection {
    /// The serial-clock multiplier output, pre-divided by six.
    Pll3Div6,
    /// The external crystal oscillator.
    Oscillator,
}

/// The AHB source selection for the run mode.
pub open spec fn spec_ahb_selection(run_mode: RunMode) -> AhbSelection {
    match run_mode {
        RunMode::Overdrive => AhbSelection::Pll6,
    }
}

/// The AHB root divider for the run mode.
pub open spec fn spec_ahb_divider(run_mode: RunMode) -> int {
    match run_mode {
        RunMode::Overdrive => 1,
    }
}

/// The IPG divider for the run mode.
pub open spec fn spec_ipg_divider(run_mode: RunMode) -> int {
    match run_mode {
        RunMode::Overdrive => 4,
    }
}

/// The PERCLK source selection for the run mode.
pub open spec fn spec_perclk_selection(run_mode: RunMode) -> PerclkSelection {
    match run_mode {
        RunMode::Overdrive => PerclkSelection::Ipg,
    }
}

/// The PERCLK divider for the run mode.
pub open spec fn spec_perclk_divider(run_mode: RunMode) -> int {
    match run_mode {
        RunMode::Overdrive => 2,
    }
}

/// The UART source selection for the run mode.
pub open spec fn spec_uart_selection(run_mode: RunMode) -> UartSelection {
    match run_mode {
        RunMode::Overdrive => UartSelection::Pll3Div6,
    }
}

/// The UART clock divider for the run mode.
pub open spec fn spec_uart_divider(run_mode: RunMode) -> int {
    match run_mode {
        RunMode::Overdrive => 1,
    }
}

/// The frequency of an AHB upstream source, in Hz.
pub open spec fn spec_ahb_source_hz(selection: AhbSelection) -> int {
    match selection {
        AhbSelection::Pll6 => PLL6_FREQUENCY as int,
    }
}

/// The target AHB frequency (Hz) for the run mode.
pub open spec fn spec_ahb_frequency(run_mode: RunMode) -> int {
    spec_ahb_source_hz(spec_ahb_selection(run_mode)) / spec_ahb_divider(run_mode)
}

/// The target IPG frequency (Hz) for the run mode.
pub open spec fn spec_ipg_frequency(run_mode: RunMode) -> int {
    spec_ahb_frequency(run_mode) / spec_ipg_divider(run_mode)
}

/// The frequency of a PERCLK upstream source, in Hz.
pub open spec fn spec_perclk_source_hz(selection: PerclkSelection, run_mode: RunMode) -> int {
    match selection {
        PerclkSelection::Ipg => spec_ipg_frequency(run_mode),
        PerclkSelection::Oscillator => XTAL_OSCILLATOR_HZ as int,
    }
}

/// The target PERCLK frequency (Hz) for the run mode.
pub open spec fn spec_perclk_frequency(run_mode: RunMode) -> int {
    spec_perclk_source_hz(spec_perclk_selection(run_mode), run_mode)
        / spec_perclk_divider(run_mode)
}

/// The frequency of a UART clock upstream source, in Hz.
pub open spec fn spec_uart_source_hz(selection: UartSelection) -> int {
    match selection {
        UartSelection::Pll3Div6 => PLL3_FREQUENCY as int / 6,
        UartSelection::Oscillator => XTAL_OSCILLATOR_HZ as int,
    }
}

/// The target UART functional clock frequency (Hz) for the run mode.
pub open spec fn spec_uart_frequency(run_mode: RunMode) -> int {
    spec_uart_source_hz(spec_uart_selection(run_mode)) / spec_uart_divider(run_mode)
}

/// The target frequency (Hz) of a clock domain for the run mode.
pub open spec fn spec_frequency(domain: ClockDomain, run_mode: RunMode) -> int {
    match domain {
        ClockDomain::Ahb => spec_ahb_frequency(run_mode),
        ClockDomain::Ipg => spec_ipg_frequency(run_mode),
        ClockDomain::Perclk => spec_perclk_frequency(run_mode),
        ClockDomain::Uart => spec_uart_frequency(run_mode),
    }
}

/// The datasheet ceiling (Hz) of a clock domain.
pub open spec fn spec_ceiling(domain: ClockDomain) -> int {
    match domain {
        ClockDomain::Ahb => AHB_CEILING_HZ as int,
        ClockDomain::Ipg => IPG_CEILING_HZ as int,
        ClockDomain::Perclk => PERCLK_CEILING_HZ as int,
        ClockDomain::Uart => UART_CEILING_HZ as int,
    }
}

/// No derived frequency exceeds its domain's datasheet ceiling, for any
/// domain and any supported run mode.
pub proof fn lemma_frequency_ceiling(domain: ClockDomain, run_mode: RunMode)
    ensures
        spec_frequency(domain, run_mode) <= spec_ceiling(domain),
{
}

/// The UART functional clock never exceeds 80 MHz, for every supported run
/// mode.
pub proof fn lemma_uart_frequency_ceiling(run_mode: RunMode)
    ensures
        spec_uart_frequency(run_mode) <= 80_000_000,
{
}

/// The AHB root divider for the run mode.
pub fn ahb_divider(run_mode: RunMode) -> (divider: u32)
    ensures
        divider == spec_ahb_divider(run_mode),
{
    match run_mode {
        RunMode::Overdrive => 1,
    }
}

/// The AHB source selection for the run mode.
pub fn ahb_selection(run_mode: RunMode) -> (selection: AhbSelection)
    ensures
        selection == spec_ahb_selection(run_mode),
{
    match run_mode {
        RunMode::Overdrive => AhbSelection::Pll6,
    }
}

/// Returns the target AHB frequency (Hz) for the run mode.
pub fn ahb_frequency(run_mode: RunMode) -> (hz: u32)
    ensures
        hz == spec_ahb_frequency(run_mode),
{
    let source_hz = match ahb_selection(run_mode) {
        AhbSelection::Pll6 => PLL6_FREQUENCY,
    };
    source_hz / ahb_divider(run_mode)
}

/// The IPG divider for the run mode.
pub fn ipg_divider(run_mode: RunMode) -> (divider: u32)
    ensures
        divider == spec_ipg_divider(run_mode),
{
    match run_mode {
        RunMode::Overdrive => 4,
    }
}

/// Returns the target IPG frequency (Hz) for the run mode.
pub fn ipg_frequency(run_mode: RunMode) -> (hz: u32)
    ensures
        hz == spec_ipg_frequency(run_mode),
{
    ahb_frequency(run_mode) / ipg_divider(run_mode)
}

/// The PERCLK divider for the run mode.
pub fn perclk_divider(run_mode: RunMode) -> (divider: u32)
    ensures
        divider == spec_perclk_divider(run_mode),
{
    match run_mode {
        RunMode::Overdrive => 2,
    }
}

/// The PERCLK source selection for the run mode.
pub fn perclk_selection(run_mode: RunMode) -> (selection: PerclkSelection)
    ensures
        selection == spec_perclk_selection(run_mode),
{
    match run_mode {
        RunMode::Overdrive => PerclkSelection::Ipg,
    }
}

/// Returns the target PERCLK frequency (Hz) for the run mode.
pub fn perclk_frequency(run_mode: RunMode) -> (hz: u32)
    ensures
        hz == spec_perclk_frequency(run_mode),
{
    let hz = match perclk_selection(run_mode) {
        PerclkSelection::Ipg => ipg_frequency(run_mode),
        PerclkSelection::Oscillator => XTAL_OSCILLATOR_HZ,
    };
    hz / perclk_divider(run_mode)
}

/// The UART clock divider for the run mode.
pub fn uart_divider(run_mode: RunMode) -> (divider: u32)
    ensures
        divider == spec_uart_divider(run_mode),
{
    match run_mode {
        RunMode::Overdrive => 1,
    }
}

/// The UART source selection for the run mode.
pub fn uart_selection(run_mode: RunMode) -> (selection: UartSelection)
    ensures
        selection == spec_uart_selection(run_mode),
{
    match run_mode {
        RunMode::Overdrive => UartSelection::Pll3Div6,
    }
}

/// Returns the target UART functional clock frequency (Hz) for the run mode.
pub fn uart_frequency(run_mode: RunMode) -> (hz: u32)
    ensures
        hz == spec_uart_frequency(run_mode),
{
    let source_hz = match uart_selection(run_mode) {
        UartSelection::Pll3Div6 => PLL3_FREQUENCY / 6,
        UartSelection::Oscillator => XTAL_OSCILLATOR_HZ,
    };
    source_hz / uart_divider(run_mode)
}

/// The register encoding of an AHB source selection.
pub open spec fn spec_ahb_selection_bits(selection: AhbSelection) -> u32 {
    match selection {
        AhbSelection::Pll6 => 2,
    }
}

/// The register encoding of an AHB source selection.
pub fn ahb_selection_bits(selection: AhbSelection) -> (bits: u32)
    ensures
        bits == spec_ahb_selection_bits(selection),
{
    match selection {
        AhbSelection::Pll6 => 2,
    }
}

/// The register encoding of a PERCLK source selection.
pub open spec fn spec_perclk_selection_bits(selection: PerclkSelection) -> u32 {
    match selection {
        PerclkSelection::Ipg => 0,
        PerclkSelection::Oscillator => 1,
    }
}

/// The register encoding of a PERCLK source selection.
pub fn perclk_selection_bits(selection: PerclkSelection) -> (bits: u32)
    ensures
        bits == spec_perclk_selection_bits(selection),
{
    match selection {
        PerclkSelection::Ipg => 0,
        PerclkSelection::Oscillator => 1,
    }
}

/// The register encoding of a UART source selection.
pub open spec fn spec_uart_selection_bits(selection: UartSelection) -> u32 {
    match selection {
        UartSelection::Pll3Div6 => 0,
        UartSelection::Oscillator => 1,
    }
}

/// The register encoding of a UART source selection.
pub fn uart_selection_bits(selection: UartSelection) -> (bits: u32)
    ensures
        bits == spec_uart_selection_bits(selection),
{
    match selection {
        UartSelection::Pll3Div6 => 0,
        UartSelection::Oscillator => 1,
    }
}

/// The writes that program the AHB root and the IPG divider, in order.
pub open spec fn ahb_ipg_writes(run_mode: RunMode) -> Seq<WriteRecord> {
    seq![
        WriteRecord {
            register: Register::AhbClockSelect,
            value: spec_ahb_selection_bits(spec_ahb_selection(run_mode)),
        },
        WriteRecord {
            register: Register::AhbDivider,
            value: spec_ahb_divider(run_mode) as u32,
        },
        WriteRecord {
            register: Register::IpgDivider,
            value: spec_ipg_divider(run_mode) as u32,
        },
    ]
}

/// The writes that retune the PERCLK domain, in order: its scoped gates
/// closed, then its selection, then its divider.
pub open spec fn perclk_config_writes(run_mode: RunMode) -> Seq<WriteRecord> {
    gate_writes(perclk_gate_locators(), false) + seq![
        WriteRecord {
            register: Register::PerclkClockSelect,
            value: spec_perclk_selection_bits(spec_perclk_selection(run_mode)),
        },
        WriteRecord {
            register: Register::PerclkDivider,
            value: spec_perclk_divider(run_mode) as u32,
        },
    ]
}

/// The writes that retune the UART functional clock, in order: its scoped
/// gates closed, then its selection, then its divider.
pub open spec fn uart_config_writes(run_mode: RunMode) -> Seq<WriteRecord> {
    gate_writes(uart_gate_locators(), false) + seq![
        WriteRecord {
            register: Register::UartClockSelect,
            value: spec_uart_selection_bits(spec_uart_selection(run_mode)),
        },
        WriteRecord {
            register: Register::UartDivider,
            value: spec_uart_divider(run_mode) as u32,
        },
    ]
}

/// The write that restarts the serial-clock analog multiplier.
pub open spec fn pll3_writes() -> Seq<WriteRecord> {
    seq![WriteRecord { register: Register::Pll3Restart, value: 1 }]
}

/// Restarts and relocks the analog multiplier that the serial clocks depend
/// on. The model treats the restart as completing instantaneously; lock
/// polling is a known omission of this layer.
pub fn restart_pll3(rf: &mut RegisterFile)
    ensures
        final(rf).regs == (RegState { pll3_restart: 1, ..old(rf).regs }),
        final(rf).writes@ == old(rf).writes@ + pll3_writes(),
{
    rf.write(Register::Pll3Restart, 1);
    proof {
        assert(rf.regs =~= (RegState { pll3_restart: 1, ..old(rf).regs }));
        assert(rf.writes@ =~= old(rf).writes@ + pll3_writes());
    }
}

/// Programs the AHB root clock and the IPG divider from the run-mode tables.
///
/// The root bus clock is retuned only during bring-up, before any consumer
/// gate has been opened; the power target is applied first.
pub fn configure_ahb_ipg(run_mode: RunMode, rf: &mut RegisterFile)
    ensures
        final(rf).regs == (RegState {
            ahb_clock_select: spec_ahb_selection_bits(spec_ahb_selection(run_mode)),
            ahb_divider: spec_ahb_divider(run_mode) as u32,
            ipg_divider: spec_ipg_divider(run_mode) as u32,
            ..old(rf).regs
        }),
        final(rf).writes@ == old(rf).writes@ + ahb_ipg_writes(run_mode),
{
    let selection = ahb_selection(run_mode);
    rf.write(Register::AhbClockSelect, ahb_selection_bits(selection));
    rf.write(Register::AhbDivider, ahb_divider(run_mode));
    rf.write(Register::IpgDivider, ipg_divider(run_mode));
    proof {
        assert(rf.regs =~= (RegState {
            ahb_clock_select: spec_ahb_selection_bits(spec_ahb_selection(run_mode)),
            ahb_divider: spec_ahb_divider(run_mode) as u32,
            ipg_divider: spec_ipg_divider(run_mode) as u32,
            ..old(rf).regs
        }));
        assert(rf.writes@ =~= old(rf).writes@ + ahb_ipg_writes(run_mode));
    }
}

/// Configure the PERCLK root clock.
///
/// When this call returns, the PERCLK frequency matches the value returned
/// by [`perclk_frequency`]. The clock gates scoped to the domain are closed
/// before the selection and divider are written, and are left closed.
pub fn configure_perclk(run_mode: RunMode, rf: &mut RegisterFile)
    ensures
        final(rf).regs == (RegState {
            perclk_clock_select: spec_perclk_selection_bits(spec_perclk_selection(run_mode)),
            perclk_divider: spec_perclk_divider(run_mode) as u32,
            pit_gate: false,
            gpt1_gate: false,
            gpt2_gate: false,
            ..old(rf).regs
        }),
        final(rf).writes@ == old(rf).writes@ + perclk_config_writes(run_mode),
{
    let gates = perclk_clock_gates();
    apply(rf, &gates, OFF);
    let selection = perclk_selection(run_mode);
    rf.write(Register::PerclkClockSelect, perclk_selection_bits(selection));
    rf.write(Register::PerclkDivider, perclk_divider(run_mode));
    proof {
        let s0 = old(rf).regs;
        let locs = perclk_gate_locators();
        assert(locs.drop_last() =~= seq![Locator::Pit, Locator::Gpt1]);
        assert(seq![Locator::Pit, Locator::Gpt1].drop_last() =~= seq![Locator::Pit]);
        assert(seq![Locator::Pit].drop_last() =~= Seq::<Locator>::empty());
        assert(apply_gates(s0, Seq::<Locator>::empty(), false) == s0);
        assert(apply_gates(s0, seq![Locator::Pit], false)
            == write_reg(s0, Register::Gate(Locator::Pit), 0));
        assert(apply_gates(s0, seq![Locator::Pit, Locator::Gpt1], false)
            == write_reg(
                apply_gates(s0, seq![Locator::Pit], false),
                Register::Gate(Locator::Gpt1),
                0,
            ));
        assert(apply_gates(s0, locs, false)
            == write_reg(
                apply_gates(s0, seq![Locator::Pit, Locator::Gpt1], false),
                Register::Gate(Locator::Gpt2),
                0,
            ));
        assert(rf.regs =~= (RegState {
            perclk_clock_select: spec_perclk_selection_bits(spec_perclk_selection(run_mode)),
            perclk_divider: spec_perclk_divider(run_mode) as u32,
            pit_gate: false,
            gpt1_gate: false,
            gpt2_gate: false,
            ..old(rf).regs
        }));
        assert(rf.writes@ =~= old(rf).writes@ + perclk_config_writes(run_mode));
    }
}

/// Configure the UART functional clock.
///
/// When this call returns, the UART clock frequency matches the value
/// returned by [`uart_frequency`]. The clock gates scoped to the domain are
/// closed before the selection and divider are written, and are left closed.
pub fn configure_uart_clk(run_mode: RunMode, rf: &mut RegisterFile)
    ensures
        final(rf).regs == (RegState {
            uart_clock_select: spec_uart_selection_bits(spec_uart_selection(run_mode)),
            uart_divider: spec_uart_divider(run_mode) as u32,
            lpuart1_gate: false,
            ..old(rf).regs
        }),
        final(rf).writes@ == old(rf).writes@ + uart_config_writes(run_mode),
{
    let gates = uart_clock_gates();
    apply(rf, &gates, OFF);
    let selection = uart_selection(run_mode);
    rf.write(Register::UartClockSelect, uart_selection_bits(selection));
    rf.write(Register::UartDivider, uart_divider(run_mode));
    proof {
        let s0 = old(rf).regs;
        let locs = uart_gate_locators();
        assert(locs.drop_last() =~= Seq::<Locator>::empty());
        assert(apply_gates(s0, Seq::<Locator>::empty(), false) == s0);
        assert(apply_gates(s0, locs, false)
            == write_reg(s0, Register::Gate(Locator::Lpuart1), 0));
        assert(rf.regs =~= (RegState {
            uart_clock_select: spec_uart_selection_bits(spec_uart_selection(run_mode)),
            uart_divider: spec_uart_divider(run_mode) as u32,
            lpuart1_gate: false,
            ..old(rf).regs
        }));
        assert(rf.writes@ =~= old(rf).writes@ + uart_config_writes(run_mode));
    }
}

/// Returns the target frequency (Hz) of a clock domain for the run mode.
pub fn frequency(domain: ClockDomain, run_mode: RunMode) -> (hz: u32)
    ensures
        hz == spec_frequency(domain, run_mode),
        hz <= spec_ceiling(domain),
{
    proof {
        lemma_frequency_ceiling(domain, run_mode);
    }
    match domain {
        ClockDomain::Ahb => ahb_frequency(run_mode),
        ClockDomain::Ipg => ipg_frequency(run_mode),
        ClockDomain::Perclk => perclk_frequency(run_mode),
        ClockDomain::Uart => uart_frequency(run_mode),
    }
}

} // verus!
