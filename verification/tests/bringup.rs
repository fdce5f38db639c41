use imxrt_bringup::clock_tree::configure_perclk;
use imxrt_bringup::registers::{Locator, Register, RegisterFile, WriteRecord};
use imxrt_bringup::{new, BringupError, BringupGuard, RUN_MODE};

#[test]
fn first_bringup_returns_valid_handles() {
    let mut guard = BringupGuard::new();
    let mut rf = RegisterFile::new();
    let result = new(&mut guard, &mut rf);
    let (_common, specifics) = result.unwrap();
    assert_eq!(specifics.led.port_number(), 1);
    assert_eq!(specifics.led.pin_number(), 11);
}

#[test]
fn second_bringup_is_refused() {
    let mut guard = BringupGuard::new();
    let mut rf = RegisterFile::new();
    assert!(new(&mut guard, &mut rf).is_ok());
    let writes_after_first = rf.writes.len();

    let second = new(&mut guard, &mut rf);
    assert!(matches!(second, Err(BringupError::AlreadyInitialized)));
    assert_eq!(rf.writes.len(), writes_after_first);
}

#[test]
fn bringup_configures_power_and_gates() {
    let mut guard = BringupGuard::new();
    let mut rf = RegisterFile::new();
    new(&mut guard, &mut rf).unwrap();

    assert_eq!(rf.regs.power_target, 1250);
    assert_eq!(rf.regs.perclk_divider, 2);
    assert_eq!(rf.regs.ipg_divider, 4);
    assert_eq!(rf.regs.uart_divider, 1);
    assert_eq!(rf.regs.pll3_restart, 1);
    // Common and board gates end open; unused domain-scoped gates end closed.
    assert!(rf.regs.snvs_lp_gate);
    assert!(rf.regs.snvs_hp_gate);
    assert!(rf.regs.gpio1_gate);
    assert!(rf.regs.pit_gate);
    assert!(rf.regs.lpuart1_gate);
    assert!(!rf.regs.gpt1_gate);
    assert!(!rf.regs.gpt2_gate);
}

fn is_root_clock(register: &Register) -> bool {
    matches!(
        register,
        Register::AhbClockSelect | Register::AhbDivider | Register::IpgDivider
    )
}

fn gate_write_of(w: &WriteRecord, locators: &[Locator], on: bool) -> bool {
    match w.register {
        Register::Gate(l) => locators.contains(&l) && (w.value != 0) == on,
        _ => false,
    }
}

fn domain_ordering_holds(writes: &[WriteRecord], gates: &[Locator], tuning: &[Register]) {
    let offs: Vec<usize> = (0..writes.len())
        .filter(|&i| gate_write_of(&writes[i], gates, false))
        .collect();
    let ons: Vec<usize> = (0..writes.len())
        .filter(|&i| gate_write_of(&writes[i], gates, true))
        .collect();
    let tunes: Vec<usize> = (0..writes.len())
        .filter(|&i| tuning.contains(&writes[i].register))
        .collect();
    assert!(!offs.is_empty());
    assert!(!tunes.is_empty());
    for &i in &offs {
        for &j in &tunes {
            assert!(i < j, "gate-off write at {i} does not precede tuning write at {j}");
        }
    }
    for &i in &tunes {
        for &j in &ons {
            assert!(i < j, "tuning write at {i} does not precede gate-on write at {j}");
        }
    }
}

#[test]
fn recorded_writes_are_safely_ordered() {
    let mut guard = BringupGuard::new();
    let mut rf = RegisterFile::new();
    new(&mut guard, &mut rf).unwrap();
    let writes = &rf.writes;

    // The power target precedes every root-clock selection/divider write.
    let power: Vec<usize> = (0..writes.len())
        .filter(|&i| writes[i].register == Register::PowerTarget)
        .collect();
    let roots: Vec<usize> = (0..writes.len())
        .filter(|&i| is_root_clock(&writes[i].register))
        .collect();
    assert!(!power.is_empty());
    assert!(!roots.is_empty());
    for &i in &power {
        for &j in &roots {
            assert!(i < j, "power write at {i} does not precede root-clock write at {j}");
        }
    }

    // Per functional domain: gates closed, then tuned, then reopened.
    domain_ordering_holds(
        writes,
        &[Locator::Pit, Locator::Gpt1, Locator::Gpt2],
        &[Register::PerclkClockSelect, Register::PerclkDivider],
    );
    domain_ordering_holds(
        writes,
        &[Locator::Lpuart1],
        &[Register::UartClockSelect, Register::UartDivider],
    );
}

#[test]
fn bringup_trace_is_the_documented_sequence() {
    let mut guard = BringupGuard::new();
    let mut rf = RegisterFile::new();
    new(&mut guard, &mut rf).unwrap();

    assert_eq!(rf.writes.len(), 19);
    assert_eq!(rf.writes[0].register, Register::LowPowerMode);
    assert_eq!(
        rf.writes[1],
        WriteRecord { register: Register::PowerTarget, value: 1250 }
    );
    assert_eq!(rf.writes[5].register, Register::Pll3Restart);
    // The final five writes open the common and board gate sets.
    for w in &rf.writes[14..] {
        assert!(matches!(w.register, Register::Gate(_)));
        assert_eq!(w.value, 1);
    }
}

#[test]
fn configure_perclk_quiesces_then_tunes() {
    let mut rf = RegisterFile::new();
    configure_perclk(RUN_MODE, &mut rf);
    assert_eq!(
        rf.writes,
        vec![
            WriteRecord { register: Register::Gate(Locator::Pit), value: 0 },
            WriteRecord { register: Register::Gate(Locator::Gpt1), value: 0 },
            WriteRecord { register: Register::Gate(Locator::Gpt2), value: 0 },
            WriteRecord { register: Register::PerclkClockSelect, value: 0 },
            WriteRecord { register: Register::PerclkDivider, value: 2 },
        ]
    );
    assert!(!rf.regs.pit_gate);
    assert!(!rf.regs.gpt1_gate);
    assert!(!rf.regs.gpt2_gate);
}
