//! The clock tree configurator.
//!
//! [`configure`] runs the whole sequence in strict order: automatic power
//! gating is disabled, the power target is applied, the root bus clock is
//! programmed, the analog multiplier is restarted, each dependent functional
//! clock domain is quiesced and retuned with its gates left closed, and only
//! then is the final peripheral gate set opened.
//!
//! No selection or divider register of a domain is written while a consumer
//! gate of that domain is open: retuning a live clock risks corrupting the
//! driven peripheral. [`lemma_bringup_write_ordering`] holds that order over
//! the recorded write sequence.

use vstd::prelude::*;

use crate::clock_tree::{
    ahb_ipg_writes, configure_ahb_ipg, configure_perclk, configure_uart_clk,
    perclk_config_writes, pll3_writes, restart_pll3, spec_ahb_divider, spec_ahb_selection,
    spec_ahb_selection_bits, spec_ipg_divider, spec_perclk_divider, spec_perclk_selection,
    spec_perclk_selection_bits, spec_uart_divider, spec_uart_selection,
    spec_uart_selection_bits, uart_config_writes, ClockDomain,
};
use crate::gate::{apply, apply_gates, gate_writes, ON};
use crate::imxrt1010evk::{board_clock_gates, board_gate_locators};
use crate::power::{power_writes, set_target_power, spec_power_target_millivolts};
use crate::registers::{
    write_reg, Locator, RegState, Register, RegisterFile, WriteRecord,
};
use crate::RunMode;

verus! {

/// Low-power behavior of the clock controller while the core waits.
#[derive(Clone, Copy, PartialEq, Eq, Structural, Debug)]
pub enum LowPowerMode {
    /// Never enter a low-power state: clocks keep running.
    RemainInRun,
}

/// The register encoding of a low-power mode.
pub open spec fn spec_low_power_mode_bits(mode: LowPowerMode) -> u32 {
    match mode {
        LowPowerMode::RemainInRun => 0,
    }
}

/// The register encoding of a low-power mode.
pub fn low_power_mode_bits(mode: LowPowerMode) -> (bits: u32)
    ensures
        bits == spec_low_power_mode_bits(mode),
{
    match mode {
        LowPowerMode::RemainInRun => 0,
    }
}

/// The write that sets the clock controller's low-power behavior.
pub open spec fn low_power_writes(mode: LowPowerMode) -> Seq<WriteRecord> {
    seq![
        WriteRecord { register: Register::LowPowerMode, value: spec_low_power_mode_bits(mode) },
    ]
}

/// Sets the clock controller's low-power behavior. Configuration runs with
/// [`LowPowerMode::RemainInRun`] so the core cannot power-gate mid-sequence.
pub fn set_low_power_mode(rf: &mut RegisterFile, mode: LowPowerMode)
    ensures
        final(rf).regs == (RegState {
            low_power_mode: spec_low_power_mode_bits(mode),
            ..old(rf).regs
        }),
        final(rf).writes@ == old(rf).writes@ + low_power_writes(mode),
{
    rf.write(Register::LowPowerMode, low_power_mode_bits(mode));
    proof {
        assert(rf.regs =~= (RegState {
            low_power_mode: spec_low_power_mode_bits(mode),
            ..old(rf).regs
        }));
        assert(rf.writes@ =~= old(rf).writes@ + low_power_writes(mode));
    }
}

/// The locators of the clock gates every board needs.
pub open spec fn common_gate_locators() -> Seq<Locator> {
    seq![Locator::SnvsLp, Locator::SnvsHp]
}

/// The clock gates every board needs, whatever its pinout.
pub fn common_clock_gates() -> (locators: Vec<Locator>)
    ensures
        locators@ == common_gate_locators(),
{
    let mut locators: Vec<Locator> = Vec::new();
    locators.push(Locator::SnvsLp);
    locators.push(Locator::SnvsHp);
    proof {
        assert(locators@ =~= common_gate_locators());
    }
    locators
}

/// Programs the root bus clock from the run-mode tables and restarts the
/// analog multiplier that the downstream serial domains depend on.
pub fn prepare_clock_tree(run_mode: RunMode, rf: &mut RegisterFile)
    ensures
        final(rf).regs == (RegState {
            ahb_clock_select: spec_ahb_selection_bits(spec_ahb_selection(run_mode)),
            ahb_divider: spec_ahb_divider(run_mode) as u32,
            ipg_divider: spec_ipg_divider(run_mode) as u32,
            pll3_restart: 1,
            ..old(rf).regs
        }),
        final(rf).writes@ == old(rf).writes@ + ahb_ipg_writes(run_mode) + pll3_writes(),
{
    configure_ahb_ipg(run_mode, rf);
    restart_pll3(rf);
    proof {
        assert(rf.regs =~= (RegState {
            ahb_clock_select: spec_ahb_selection_bits(spec_ahb_selection(run_mode)),
            ahb_divider: spec_ahb_divider(run_mode) as u32,
            ipg_divider: spec_ipg_divider(run_mode) as u32,
            pll3_restart: 1,
            ..old(rf).regs
        }));
        assert(rf.writes@ =~= old(rf).writes@ + ahb_ipg_writes(run_mode) + pll3_writes());
    }
}

/// The locators opened at the end of bring-up: the union of the common set
/// and the board-specific set.
pub open spec fn final_gate_locators() -> Seq<Locator> {
    common_gate_locators() + board_gate_locators()
}

/// Every write of a full bring-up, oldest first.
pub open spec fn bringup_writes(run_mode: RunMode) -> Seq<WriteRecord> {
    low_power_writes(LowPowerMode::RemainInRun) + power_writes(run_mode)
        + ahb_ipg_writes(run_mode) + pll3_writes() + perclk_config_writes(run_mode)
        + uart_config_writes(run_mode) + gate_writes(final_gate_locators(), true)
}

/// The register state a full bring-up leaves behind.
pub open spec fn bringup_regs(run_mode: RunMode) -> RegState {
    RegState {
        low_power_mode: spec_low_power_mode_bits(LowPowerMode::RemainInRun),
        power_target: spec_power_target_millivolts(run_mode),
        ahb_clock_select: spec_ahb_selection_bits(spec_ahb_selection(run_mode)),
        ahb_divider: spec_ahb_divider(run_mode) as u32,
        ipg_divider: spec_ipg_divider(run_mode) as u32,
        pll3_restart: 1,
        perclk_clock_select: spec_perclk_selection_bits(spec_perclk_selection(run_mode)),
        perclk_divider: spec_perclk_divider(run_mode) as u32,
        uart_clock_select: spec_uart_selection_bits(spec_uart_selection(run_mode)),
        uart_divider: spec_uart_divider(run_mode) as u32,
        snvs_lp_gate: true,
        snvs_hp_gate: true,
        gpio1_gate: true,
        pit_gate: true,
        gpt1_gate: false,
        gpt2_gate: false,
        lpuart1_gate: true,
    }
}

/// The functional clock domain a locator's peripheral is driven by, when that
/// domain is one the configurator retunes.
pub open spec fn locator_domain(locator: Locator) -> Option<ClockDomain> {
    match locator {
        Locator::Pit => Some(ClockDomain::Perclk),
        Locator::Gpt1 => Some(ClockDomain::Perclk),
        Locator::Gpt2 => Some(ClockDomain::Perclk),
        Locator::Lpuart1 => Some(ClockDomain::Uart),
        Locator::SnvsLp => None,
        Locator::SnvsHp => None,
        Locator::Gpio1 => None,
    }
}

/// True when the write programs the voltage regulator.
pub open spec fn is_power_target_write(w: WriteRecord) -> bool {
    w.register is PowerTarget
}

/// True when the write programs the root bus clock's selection or a root
/// divider.
pub open spec fn is_root_clock_write(w: WriteRecord) -> bool {
    w.register is AhbClockSelect || w.register is AhbDivider || w.register is IpgDivider
}

/// True when the write programs the selection or divider of the given
/// functional domain.
pub open spec fn is_tuning_write(domain: ClockDomain, w: WriteRecord) -> bool {
    match domain {
        ClockDomain::Ahb => w.register is AhbClockSelect || w.register is AhbDivider,
        ClockDomain::Ipg => w.register is IpgDivider,
        ClockDomain::Perclk => w.register is PerclkClockSelect || w.register is PerclkDivider,
        ClockDomain::Uart => w.register is UartClockSelect || w.register is UartDivider,
    }
}

/// True when the write drives a clock gate of a peripheral in the given
/// domain to the given state.
pub open spec fn is_domain_gate_write(domain: ClockDomain, w: WriteRecord, on: bool) -> bool {
    w.register matches Register::Gate(l) && locator_domain(l) == Some(domain) && (w.value != 0)
        == on
}

/// Bring-up writes registers in a safe order: the power target is written
/// before any root-clock selection or divider, and for every functional
/// domain, all of its gate-closing writes precede its selection and divider
/// writes, which precede any write reopening a gate of that domain. Before a
/// domain is tuned, every peripheral scoped to it has received a gate-closing
/// write, so no consumer is ever clocked while its source is retuned.
pub proof fn lemma_bringup_write_ordering(run_mode: RunMode)
    ensures
        forall|i: int, j: int|
            0 <= i < bringup_writes(run_mode).len() && 0 <= j < bringup_writes(run_mode).len()
                && is_power_target_write(#[trigger] bringup_writes(run_mode)[i])
                && is_root_clock_write(#[trigger] bringup_writes(run_mode)[j]) ==> i < j,
        forall|d: ClockDomain, i: int, j: int|
            0 <= i < bringup_writes(run_mode).len() && 0 <= j < bringup_writes(run_mode).len()
                && #[trigger] is_domain_gate_write(d, bringup_writes(run_mode)[i], false)
                && #[trigger] is_tuning_write(d, bringup_writes(run_mode)[j]) ==> i < j,
        forall|d: ClockDomain, i: int, j: int|
            0 <= i < bringup_writes(run_mode).len() && 0 <= j < bringup_writes(run_mode).len()
                && #[trigger] is_tuning_write(d, bringup_writes(run_mode)[i])
                && #[trigger] is_domain_gate_write(d, bringup_writes(run_mode)[j], true) ==> i < j,
        forall|d: ClockDomain, l: Locator, j: int|
            #![trigger is_tuning_write(d, bringup_writes(run_mode)[j]), locator_domain(l)]
            0 <= j < bringup_writes(run_mode).len()
                && is_tuning_write(d, bringup_writes(run_mode)[j]) && locator_domain(l)
                == Some(d) ==> exists|i: int|
                0 <= i < j && #[trigger] bringup_writes(run_mode)[i] == (WriteRecord {
                    register: Register::Gate(l),
                    value: 0,
                }),
{
    let bt = bringup_writes(run_mode);
    assert(bt.len() == 19);
    assert forall|i: int| 0 <= i < 19 && is_power_target_write(#[trigger] bt[i]) implies i == 1 by {}
    assert forall|j: int| 0 <= j < 19 && is_root_clock_write(#[trigger] bt[j]) implies 2 <= j <= 4 by {}
    assert forall|d: ClockDomain, i: int|
        0 <= i < 19 && #[trigger] is_domain_gate_write(d, bt[i], false) implies 6 <= i <= 8 || i
        == 11 by {}
    assert forall|d: ClockDomain, j: int|
        0 <= j < 19 && #[trigger] is_tuning_write(d, bt[j]) implies 2 <= j <= 4 || 9 <= j <= 10
        || 12 <= j <= 13 by {}
    assert forall|d: ClockDomain, i: int, j: int|
        0 <= i < 19 && 0 <= j < 19 && #[trigger] is_domain_gate_write(d, bt[i], false)
            && #[trigger] is_tuning_write(d, bt[j]) implies i < j by {
        if 6 <= i <= 8 {
            assert(d is Perclk);
            assert(!(2 <= j <= 4));
        } else {
            assert(i == 11);
            assert(d is Uart);
            assert(12 <= j <= 13);
        }
    }
    assert forall|d: ClockDomain, i: int, j: int|
        0 <= i < 19 && 0 <= j < 19 && #[trigger] is_tuning_write(d, bt[i])
            && #[trigger] is_domain_gate_write(d, bt[j], true) implies i < j by {
        assert(14 <= j <= 18);
    }
    assert forall|d: ClockDomain, l: Locator, j: int|
        #![trigger is_tuning_write(d, bt[j]), locator_domain(l)]
        0 <= j < 19 && is_tuning_write(d, bt[j]) && locator_domain(l) == Some(d) implies exists|
        i: int,
    |
        0 <= i < j && #[trigger] bt[i] == (WriteRecord {
            register: Register::Gate(l),
            value: 0,
        }) by {
        match l {
            Locator::Pit => {
                assert(9 <= j <= 10);
                assert(bt[6] == (WriteRecord { register: Register::Gate(l), value: 0 }));
            },
            Locator::Gpt1 => {
                assert(9 <= j <= 10);
                assert(bt[7] == (WriteRecord { register: Register::Gate(l), value: 0 }));
            },
            Locator::Gpt2 => {
                assert(9 <= j <= 10);
                assert(bt[8] == (WriteRecord { register: Register::Gate(l), value: 0 }));
            },
            Locator::Lpuart1 => {
                assert(12 <= j <= 13);
                assert(bt[11] == (WriteRecord { register: Register::Gate(l), value: 0 }));
            },
            Locator::SnvsLp => {},
            Locator::SnvsHp => {},
            Locator::Gpio1 => {},
        }
    }
}

/// Configure board clocks and power.
///
/// Runs the whole sequence in strict order and records every register write.
/// When this call returns, the system clocks run at the frequencies the
/// `clock_tree` tables describe, the gates of the common and board peripheral
/// sets are open, and the gates of every other domain-scoped peripheral are
/// left closed.
pub fn configure(run_mode: RunMode, rf: &mut RegisterFile)
    ensures
        final(rf).regs == bringup_regs(run_mode),
        final(rf).writes@ == old(rf).writes@ + bringup_writes(run_mode),
{
    set_low_power_mode(rf, LowPowerMode::RemainInRun);
    set_target_power(rf, run_mode);
    prepare_clock_tree(run_mode, rf);
    configure_perclk(run_mode, rf);
    configure_uart_clk(run_mode, rf);
    let mut on_gates = common_clock_gates();
    let mut board_gates = board_clock_gates();
    on_gates.append(&mut board_gates);
    let ghost before_on = rf.regs;
    apply(rf, &on_gates, ON);
    proof {
        let c5 = seq![
            Locator::SnvsLp,
            Locator::SnvsHp,
            Locator::Gpio1,
            Locator::Lpuart1,
            Locator::Pit,
        ];
        assert(on_gates@ =~= c5);
        let c4 = seq![Locator::SnvsLp, Locator::SnvsHp, Locator::Gpio1, Locator::Lpuart1];
        let c3 = seq![Locator::SnvsLp, Locator::SnvsHp, Locator::Gpio1];
        let c2 = seq![Locator::SnvsLp, Locator::SnvsHp];
        let c1 = seq![Locator::SnvsLp];
        assert(c5.drop_last() =~= c4);
        assert(c4.drop_last() =~= c3);
        assert(c3.drop_last() =~= c2);
        assert(c2.drop_last() =~= c1);
        assert(c1.drop_last() =~= Seq::<Locator>::empty());
        assert(apply_gates(before_on, Seq::<Locator>::empty(), true) == before_on);
        assert(apply_gates(before_on, c1, true)
            == write_reg(before_on, Register::Gate(Locator::SnvsLp), 1));
        assert(apply_gates(before_on, c2, true)
            == write_reg(apply_gates(before_on, c1, true), Register::Gate(Locator::SnvsHp), 1));
        assert(apply_gates(before_on, c3, true)
            == write_reg(apply_gates(before_on, c2, true), Register::Gate(Locator::Gpio1), 1));
        assert(apply_gates(before_on, c4, true)
            == write_reg(apply_gates(before_on, c3, true), Register::Gate(Locator::Lpuart1), 1));
        assert(apply_gates(before_on, c5, true)
            == write_reg(apply_gates(before_on, c4, true), Register::Gate(Locator::Pit), 1));
        assert(rf.regs =~= bringup_regs(run_mode));
        assert(gate_writes(on_gates@, true) =~= gate_writes(final_gate_locators(), true));
        assert(rf.writes@ =~= old(rf).writes@ + bringup_writes(run_mode));
    }
}

} // verus!
