//! The clock-gate engine.
//!
//! [`apply`] drives every locator in a sequence to one state, recording one
//! gate write per locator. Locators are independent and commutative; no
//! ordering between distinct locators is promised. Application is idempotent
//! on the register state: repeating the same state is a no-op observably.

use vstd::prelude::*;

use crate::registers::{
    gate, write_reg, Locator, RegState, Register, RegisterFile, WriteRecord,
};

verus! {

/// The driven state of an open clock gate: the peripheral receives its clock.
pub const ON: bool = true;

/// The driven state of a closed clock gate: the peripheral is quiesced.
pub const OFF: bool = false;

/// The bits a gate write carries for the given state.
pub open spec fn gate_bits(on: bool) -> u32 {
    if on {
        1
    } else {
        0
    }
}

/// The write records produced by driving `locators`, in order, to `on`.
pub open spec fn gate_writes(locators: Seq<Locator>, on: bool) -> Seq<WriteRecord> {
    Seq::new(
        locators.len(),
        |i: int| WriteRecord { register: Register::Gate(locators[i]), value: gate_bits(on) },
    )
}

/// The register state after driving `locators`, in order, to `on`.
pub open spec fn apply_gates(regs: RegState, locators: Seq<Locator>, on: bool) -> RegState
    decreases locators.len(),
{
    if locators.len() == 0 {
        regs
    } else {
        write_reg(
            apply_gates(regs, locators.drop_last(), on),
            Register::Gate(locators.last()),
            gate_bits(on),
        )
    }
}

/// Driving gates decides exactly the gates named: every locator in the
/// sequence ends in the requested state, every other gate and every scalar
/// register keeps its value.
pub proof fn lemma_apply_gates_effect(regs: RegState, locators: Seq<Locator>, on: bool)
    ensures
        forall|l: Locator|
            locators.contains(l) ==> #[trigger] gate(apply_gates(regs, locators, on), l) == on,
        forall|l: Locator|
            !locators.contains(l) ==> #[trigger] gate(apply_gates(regs, locators, on), l)
                == gate(regs, l),
        scalars_unchanged(apply_gates(regs, locators, on), regs),
    decreases locators.len(),
{
    if locators.len() > 0 {
        let prefix = locators.drop_last();
        let last = locators.last();
        lemma_apply_gates_effect(regs, prefix, on);
        let inner = apply_gates(regs, prefix, on);
        assert(apply_gates(regs, locators, on)
            == write_reg(inner, Register::Gate(last), gate_bits(on)));
        assert forall|l: Locator| locators.contains(l) implies #[trigger] gate(
            apply_gates(regs, locators, on),
            l,
        ) == on by {
            if l == last {
                assert(gate(write_reg(inner, Register::Gate(last), gate_bits(on)), l) == on);
            } else {
                let i = choose|i: int| 0 <= i < locators.len() && locators[i] == l;
                assert(locators[locators.len() - 1] == last);
                assert(i < locators.len() - 1);
                assert(prefix[i] == l);
                assert(prefix.contains(l));
                assert(gate(inner, l) == on);
                assert(gate(write_reg(inner, Register::Gate(last), gate_bits(on)), l)
                    == gate(inner, l));
            }
        }
        assert forall|l: Locator| !locators.contains(l) implies #[trigger] gate(
            apply_gates(regs, locators, on),
            l,
        ) == gate(regs, l) by {
            assert(locators[locators.len() - 1] == last);
            assert(l != last);
            if prefix.contains(l) {
                let i = choose|i: int| 0 <= i < prefix.len() && prefix[i] == l;
                assert(locators[i] == l);
            }
            assert(!prefix.contains(l));
            assert(gate(inner, l) == gate(regs, l));
            assert(gate(write_reg(inner, Register::Gate(last), gate_bits(on)), l)
                == gate(inner, l));
        }
    }
}

/// True when every non-gate register of `a` holds the same value as in `b`.
pub open spec fn scalars_unchanged(a: RegState, b: RegState) -> bool {
    &&& a.low_power_mode == b.low_power_mode
    &&& a.power_target == b.power_target
    &&& a.ahb_clock_select == b.ahb_clock_select
    &&& a.ahb_divider == b.ahb_divider
    &&& a.ipg_divider == b.ipg_divider
    &&& a.pll3_restart == b.pll3_restart
    &&& a.perclk_clock_select == b.perclk_clock_select
    &&& a.perclk_divider == b.perclk_divider
    &&& a.uart_clock_select == b.uart_clock_select
    &&& a.uart_divider == b.uart_divider
}

/// Applying the same state to the same locators a second time does not change
/// the register state: gate application is idempotent.
pub proof fn lemma_apply_gates_idempotent(regs: RegState, locators: Seq<Locator>, on: bool)
    ensures
        apply_gates(apply_gates(regs, locators, on), locators, on)
            == apply_gates(regs, locators, on),
{
    let once = apply_gates(regs, locators, on);
    let twice = apply_gates(once, locators, on);
    lemma_apply_gates_effect(regs, locators, on);
    lemma_apply_gates_effect(once, locators, on);
    assert forall|l: Locator| #[trigger] gate(twice, l) == gate(once, l) by {
        if locators.contains(l) {
        }
    }
    assert(gate(twice, Locator::SnvsLp) == gate(once, Locator::SnvsLp));
    assert(gate(twice, Locator::SnvsHp) == gate(once, Locator::SnvsHp));
    assert(gate(twice, Locator::Gpio1) == gate(once, Locator::Gpio1));
    assert(gate(twice, Locator::Pit) == gate(once, Locator::Pit));
    assert(gate(twice, Locator::Gpt1) == gate(once, Locator::Gpt1));
    assert(gate(twice, Locator::Gpt2) == gate(once, Locator::Gpt2));
    assert(gate(twice, Locator::Lpuart1) == gate(once, Locator::Lpuart1));
    assert(twice =~= once);
}

/// Locators are independent and commutative: when one state is applied to two
/// locator sequences, the order of the two applications does not matter to
/// the register state.
pub proof fn lemma_apply_gates_commutative(
    regs: RegState,
    first: Seq<Locator>,
    second: Seq<Locator>,
    on: bool,
)
    ensures
        apply_gates(apply_gates(regs, first, on), second, on)
            == apply_gates(apply_gates(regs, second, on), first, on),
{
    let ab = apply_gates(apply_gates(regs, first, on), second, on);
    let ba = apply_gates(apply_gates(regs, second, on), first, on);
    lemma_apply_gates_effect(regs, first, on);
    lemma_apply_gates_effect(apply_gates(regs, first, on), second, on);
    lemma_apply_gates_effect(regs, second, on);
    lemma_apply_gates_effect(apply_gates(regs, second, on), first, on);
    assert forall|l: Locator| #[trigger] gate(ab, l) == gate(ba, l) by {
        if first.contains(l) || second.contains(l) {
        }
    }
    assert(gate(ab, Locator::SnvsLp) == gate(ba, Locator::SnvsLp));
    assert(gate(ab, Locator::SnvsHp) == gate(ba, Locator::SnvsHp));
    assert(gate(ab, Locator::Gpio1) == gate(ba, Locator::Gpio1));
    assert(gate(ab, Locator::Pit) == gate(ba, Locator::Pit));
    assert(gate(ab, Locator::Gpt1) == gate(ba, Locator::Gpt1));
    assert(gate(ab, Locator::Gpt2) == gate(ba, Locator::Gpt2));
    assert(gate(ab, Locator::Lpuart1) == gate(ba, Locator::Lpuart1));
    assert(ab =~= ba);
}

/// Closing and then reopening gates restores a gate that was open: the
/// "peripheral clocked" bit of a locator that starts open ends with its
/// original value after OFF is applied and then ON.
///
/// A gate that starts closed is outside this statement: reopening leaves it
/// open when its locator is named in the sequence.
pub proof fn lemma_gate_round_trip(regs: RegState, locators: Seq<Locator>, l: Locator)
    requires
        gate(regs, l),
    ensures
        gate(apply_gates(apply_gates(regs, locators, OFF), locators, ON), l) == gate(regs, l),
{
    lemma_apply_gates_effect(regs, locators, OFF);
    lemma_apply_gates_effect(apply_gates(regs, locators, OFF), locators, ON);
}

/// Drives every locator in `locators`, in order, to `on`, one gate write
/// each.
pub fn apply(rf: &mut RegisterFile, locators: &Vec<Locator>, on: bool)
    ensures
        final(rf).regs == apply_gates(old(rf).regs, locators@, on),
        final(rf).writes@ == old(rf).writes@ + gate_writes(locators@, on),
{
    let ghost orig_regs = rf.regs;
    let ghost orig_writes = rf.writes@;
    let mut i: usize = 0;
    while i < locators.len()
        invariant
            i <= locators@.len(),
            rf.regs == apply_gates(orig_regs, locators@.subrange(0, i as int), on),
            rf.writes@ == orig_writes + gate_writes(locators@.subrange(0, i as int), on),
        decreases locators@.len() - i,
    {
        let locator = locators[i];
        rf.write(Register::Gate(locator), if on { 1 } else { 0 });
        proof {
            let done = locators@.subrange(0, i + 1);
            assert(done.drop_last() =~= locators@.subrange(0, i as int));
            assert(done.last() == locators@[i as int]);
            assert(rf.regs == apply_gates(orig_regs, done, on));
            assert(rf.writes@ =~= orig_writes + gate_writes(done, on));
        }
        i = i + 1;
    }
    proof {
        assert(locators@.subrange(0, locators@.len() as int) =~= locators@);
    }
}

/// The clock gates scoped to the PERCLK domain: every peripheral driven by
/// PERCLK, closed together before that domain is retuned.
pub fn perclk_clock_gates() -> (locators: Vec<Locator>)
    ensures
        locators@ == perclk_gate_locators(),
{
    let mut locators: Vec<Locator> = Vec::new();
    locators.push(Locator::Pit);
    locators.push(Locator::Gpt1);
    locators.push(Locator::Gpt2);
    proof {
        assert(locators@ =~= perclk_gate_locators());
    }
    locators
}

/// The locators scoped to the PERCLK domain.
pub open spec fn perclk_gate_locators() -> Seq<Locator> {
    seq![Locator::Pit, Locator::Gpt1, Locator::Gpt2]
}

/// The clock gates scoped to the UART functional clock: every peripheral
/// driven by it, closed together before that domain is retuned.
pub fn uart_clock_gates() -> (locators: Vec<Locator>)
    ensures
        locators@ == uart_gate_locators(),
{
    let mut locators: Vec<Locator> = Vec::new();
    locators.push(Locator::Lpuart1);
    proof {
        assert(locators@ =~= uart_gate_locators());
    }
    locators
}

/// The locators scoped to the UART functional clock.
pub open spec fn uart_gate_locators() -> Seq<Locator> {
    seq![Locator::Lpuart1]
}

} // verus!
