//! Bring-up layer for an i.MX RT 1010 evaluation board.
//!
//! Given a statically chosen run mode, this crate derives every bus and
//! peripheral clock frequency, programs a clock-generation register model to
//! reach those frequencies without violating the datasheet ceilings, manages
//! per-peripheral clock gating around the changes, and guarantees that the
//! sequence runs at most once per guard token.
//!
//! Register access goes through an injectable register-file capability
//! ([`registers::RegisterFile`]), so the whole sequence is checkable against a
//! simulated register file on a development host. An embedded caller performs
//! the same writes, in the recorded order, against the memory-mapped hardware.

use vstd::prelude::*;

pub mod clock;
pub mod clock_tree;
pub mod gate;
pub mod imxrt1010evk;
pub mod power;
pub mod registers;

pub use imxrt1010evk::{Led, Specifics};

use clock::{bringup_regs, bringup_writes, configure};
use registers::RegisterFile;

verus! {

/// A named operating profile: a target frequency set and the voltage level it
/// requires. The set is closed; every consumer matches on it exhaustively, so
/// adding a profile fails to build until every table handles it.
#[derive(Clone, Copy, PartialEq, Eq, Structural, Debug)]
pub enum RunMode {
    /// The highest supported operating point.
    Overdrive,
}

/// The run mode this build configures. Profile selection is a build-time
/// constant, not a runtime input.
pub const RUN_MODE: RunMode = RunMode::Overdrive;

/// The error a second bring-up attempt returns.
///
/// Double bring-up of singleton hardware peripherals is a contract violation:
/// two owners could race on the same register block. The embedded caller
/// treats this error as fatal and halts instead of continuing.
#[derive(Clone, Copy, PartialEq, Eq, Structural, Debug)]
pub enum BringupError {
    /// Bring-up already ran under this guard.
    AlreadyInitialized,
}

/// The process-wide exactly-once gate around the bring-up sequence.
///
/// A guard is created not-started, transitions to started during the first
/// [`new`] call, and never resets. The guard moves by ownership and cannot be
/// duplicated, so one guard admits one bring-up.
pub struct BringupGuard {
    started: bool,
}

impl BringupGuard {
    /// True once bring-up has run under this guard.
    pub closed spec fn is_started(self) -> bool {
        self.started
    }

    /// A fresh guard under which bring-up has not yet run.
    pub fn new() -> (guard: BringupGuard)
        ensures
            !guard.is_started(),
    {
        BringupGuard { started: false }
    }
}

/// Components that are common to all boards.
///
/// This includes the resources that do not depend on a pinout.
pub struct Common {}

impl Common {
    /// Prepares common resources.
    fn new() -> (common: Common) {
        Common {}
    }
}

/// Board entrypoint: configures the hardware and acquires the peripherals.
///
/// The first call under a guard runs the clock tree configurator against the
/// given register file and returns exclusive ownership of the common and the
/// board-specific peripheral handles. Every later call under the same guard
/// performs no write and returns [`BringupError::AlreadyInitialized`]; the
/// caller must treat that as fatal, as the original double-initialization
/// panic, because a second owner of the singleton peripherals could race the
/// first on the same register block.
pub fn new(guard: &mut BringupGuard, rf: &mut RegisterFile) -> (result: Result<
    (Common, Specifics),
    BringupError,
>)
    ensures
        final(guard).is_started(),
        !old(guard).is_started() ==> {
            &&& result is Ok
            &&& final(rf).regs == bringup_regs(RUN_MODE)
            &&& final(rf).writes@ == old(rf).writes@ + bringup_writes(RUN_MODE)
            &&& (result matches Ok(handles) ==> handles.1.led.port() == 1
                && handles.1.led.pin() == 11)
        },
        old(guard).is_started() ==> {
            &&& result matches Err(BringupError::AlreadyInitialized)
            &&& *final(rf) == *old(rf)
        },
{
    if guard.started {
        return Err(BringupError::AlreadyInitialized);
    }
    guard.started = true;
    configure(RUN_MODE, rf);
    let common = Common::new();
    let specifics = Specifics::new();
    Ok((common, specifics))
}

} // verus!
