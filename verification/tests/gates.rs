use imxrt_bringup::gate::{apply, OFF, ON};
use imxrt_bringup::registers::{Locator, Register, RegisterFile, WriteRecord};

#[test]
fn gate_round_trip_restores_clocked_bit() {
    let mut rf = RegisterFile::new();
    let one = vec![Locator::Pit];
    apply(&mut rf, &one, ON);
    let original = rf.read(Register::Gate(Locator::Pit));
    assert_eq!(original, 1);

    apply(&mut rf, &one, OFF);
    assert_eq!(rf.read(Register::Gate(Locator::Pit)), 0);
    apply(&mut rf, &one, ON);
    assert_eq!(rf.read(Register::Gate(Locator::Pit)), original);
}

#[test]
fn apply_is_idempotent_on_register_state() {
    let mut rf = RegisterFile::new();
    let locators = vec![Locator::SnvsLp, Locator::Gpio1, Locator::Lpuart1];
    apply(&mut rf, &locators, ON);
    let once = rf.regs;
    apply(&mut rf, &locators, ON);
    assert_eq!(rf.regs, once);
}

#[test]
fn apply_order_does_not_matter_for_one_state() {
    let mut ab = RegisterFile::new();
    apply(&mut ab, &vec![Locator::Pit, Locator::Gpt1], ON);
    apply(&mut ab, &vec![Locator::Gpt1, Locator::Lpuart1], ON);

    let mut ba = RegisterFile::new();
    apply(&mut ba, &vec![Locator::Gpt1, Locator::Lpuart1], ON);
    apply(&mut ba, &vec![Locator::Pit, Locator::Gpt1], ON);

    assert_eq!(ab.regs, ba.regs);
}

#[test]
fn apply_touches_only_named_gates() {
    let mut rf = RegisterFile::new();
    apply(&mut rf, &vec![Locator::Gpt1, Locator::Gpt2], ON);
    apply(&mut rf, &vec![Locator::Gpt1], OFF);
    assert_eq!(rf.read(Register::Gate(Locator::Gpt1)), 0);
    assert_eq!(rf.read(Register::Gate(Locator::Gpt2)), 1);
    assert_eq!(rf.read(Register::Gate(Locator::Pit)), 0);
}

#[test]
fn apply_records_one_write_per_locator_in_order() {
    let mut rf = RegisterFile::new();
    apply(&mut rf, &vec![Locator::SnvsLp, Locator::SnvsHp], ON);
    assert_eq!(
        rf.writes,
        vec![
            WriteRecord { register: Register::Gate(Locator::SnvsLp), value: 1 },
            WriteRecord { register: Register::Gate(Locator::SnvsHp), value: 1 },
        ]
    );
}

#[test]
fn write_then_read_returns_the_bits() {
    let mut rf = RegisterFile::new();
    assert_eq!(rf.read(Register::PerclkDivider), 0);
    rf.write(Register::PerclkDivider, 7);
    assert_eq!(rf.read(Register::PerclkDivider), 7);
    assert_eq!(
        rf.writes,
        vec![WriteRecord { register: Register::PerclkDivider, value: 7 }]
    );
}
