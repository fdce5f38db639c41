//! The power target controller.
//!
//! Programs the on-chip switching regulator to the voltage level a run mode
//! requires. Raising clock frequency requires the voltage to be raised first,
//! and lowering voltage requires the frequencies to be lowered first, so the
//! configuration sequence always applies the power target before any
//! root-clock selection or divider write.

use vstd::prelude::*;

use crate::registers::{RegState, Register, RegisterFile, WriteRecord};
use crate::RunMode;

verus! {

/// The regulator target, in millivolts, that the run mode requires.
pub open spec fn spec_power_target_millivolts(run_mode: RunMode) -> u32 {
    match run_mode {
        RunMode::Overdrive => 1250,
    }
}

/// The regulator target, in millivolts, that the run mode requires.
pub fn power_target_millivolts(run_mode: RunMode) -> (millivolts: u32)
    ensures
        millivolts == spec_power_target_millivolts(run_mode),
{
    match run_mode {
        RunMode::Overdrive => 1250,
    }
}

/// The writes that program the regulator for the run mode.
pub open spec fn power_writes(run_mode: RunMode) -> Seq<WriteRecord> {
    seq![
        WriteRecord {
            register: Register::PowerTarget,
            value: spec_power_target_millivolts(run_mode),
        },
    ]
}

/// Programs the voltage regulator to the level required for the run mode.
pub fn set_target_power(rf: &mut RegisterFile, run_mode: RunMode)
    ensures
        final(rf).regs == (RegState {
            power_target: spec_power_target_millivolts(run_mode),
            ..old(rf).regs
        }),
        final(rf).writes@ == old(rf).writes@ + power_writes(run_mode),
{
    rf.write(Register::PowerTarget, power_target_millivolts(run_mode));
    proof {
        assert(rf.regs =~= (RegState {
            power_target: spec_power_target_millivolts(run_mode),
            ..old(rf).regs
        }));
        assert(rf.writes@ =~= old(rf).writes@ + power_writes(run_mode));
    }
}

} // verus!
