use imxrt_bringup::clock_tree::{
    ahb_frequency, frequency, ipg_divider, ipg_frequency, perclk_divider, perclk_frequency,
    perclk_selection, uart_divider, uart_frequency, uart_selection, ClockDomain,
    PerclkSelection, UartSelection, AHB_CEILING_HZ, IPG_CEILING_HZ, PERCLK_CEILING_HZ,
    PLL3_FREQUENCY, UART_CEILING_HZ,
};
use imxrt_bringup::RunMode;

#[test]
fn ahb_frequency_overdrive() {
    assert_eq!(ahb_frequency(RunMode::Overdrive), 500_000_000);
}

#[test]
fn ipg_is_ahb_divided_by_four() {
    let mode = RunMode::Overdrive;
    assert_eq!(ipg_divider(mode), 4);
    assert_eq!(ipg_frequency(mode), ahb_frequency(mode) / 4);
    assert_eq!(ipg_frequency(mode), 125_000_000);
}

#[test]
fn perclk_is_ipg_divided_by_two() {
    let mode = RunMode::Overdrive;
    assert_eq!(perclk_selection(mode), PerclkSelection::Ipg);
    assert_eq!(perclk_divider(mode), 2);
    assert_eq!(perclk_frequency(mode), ipg_frequency(mode) / 2);
    assert_eq!(perclk_frequency(mode), 62_500_000);
}

#[test]
fn uart_is_pll3_sixth_undivided() {
    let mode = RunMode::Overdrive;
    assert_eq!(uart_selection(mode), UartSelection::Pll3Div6);
    assert_eq!(uart_divider(mode), 1);
    assert_eq!(uart_frequency(mode), (PLL3_FREQUENCY / 6) / 1);
    assert_eq!(uart_frequency(mode), 80_000_000);
}

#[test]
fn uart_frequency_within_ceiling() {
    assert!(uart_frequency(RunMode::Overdrive) <= 80_000_000);
}

#[test]
fn every_domain_within_its_ceiling() {
    let mode = RunMode::Overdrive;
    assert!(frequency(ClockDomain::Ahb, mode) <= AHB_CEILING_HZ);
    assert!(frequency(ClockDomain::Ipg, mode) <= IPG_CEILING_HZ);
    assert!(frequency(ClockDomain::Perclk, mode) <= PERCLK_CEILING_HZ);
    assert!(frequency(ClockDomain::Uart, mode) <= UART_CEILING_HZ);
}

#[test]
fn frequency_matches_per_domain_functions() {
    let mode = RunMode::Overdrive;
    assert_eq!(frequency(ClockDomain::Ahb, mode), ahb_frequency(mode));
    assert_eq!(frequency(ClockDomain::Ipg, mode), ipg_frequency(mode));
    assert_eq!(frequency(ClockDomain::Perclk, mode), perclk_frequency(mode));
    assert_eq!(frequency(ClockDomain::Uart, mode), uart_frequency(mode));
}
