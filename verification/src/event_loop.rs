//! The event loop handle and its run modes.
use vstd::prelude::*;

use crate::status::{check_status, OsError};

verus! {

/// Raw value of `XEV_RUN_NO_WAIT` in the C API.
pub const RUN_NO_WAIT: u32 = 0;

/// Raw value of `XEV_RUN_ONCE` in the C API.
pub const RUN_ONCE: u32 = 1;

/// Raw value of `XEV_RUN_UNTIL_DONE` in the C API.
pub const RUN_UNTIL_DONE: u32 = 2;

/// How a run of the loop iterates.
#[derive(Debug, Clone, Copy, PartialEq, Eq, Structural)]
pub enum RunMode {
    NoWait,
    Once,
    UntilDone,
}

impl RunMode {
    /// The value of the C enumeration `xev_run_mode_t` for this mode.
    pub open spec fn raw_value(self) -> u32 {
        match self {
            RunMode::NoWait => RUN_NO_WAIT,
            RunMode::Once => RUN_ONCE,
            RunMode::UntilDone => RUN_UNTIL_DONE,
        }
    }

    /// The value handed to `xev_loop_run` for this mode.
    pub fn to_raw(self) -> (r: u32)
        ensures
            r == self.raw_value(),
    {
        match self {
            RunMode::NoWait => RUN_NO_WAIT,
            RunMode::Once => RUN_ONCE,
            RunMode::UntilDone => RUN_UNTIL_DONE,
        }
    }
}

/// Distinct run modes are handed to the C side as distinct raw values.
pub proof fn lemma_run_mode_raw_injective(a: RunMode, b: RunMode)
    ensures
        a.raw_value() == b.raw_value() ==> a == b,
{
}

/// An event loop, held by the address of its initialised C storage.
pub struct Loop {
    raw: usize,
}

impl Loop {
    /// The handle always refers to real storage: its address is never zero.
    #[verifier::type_invariant]
    spec fn addr_non_zero(self) -> bool {
        self.raw != 0
    }
}

impl View for Loop {
    type V = usize;

    closed spec fn view(&self) -> usize {
        self.raw
    }
}

impl Loop {
    /// Take over the loop storage at `raw`, given the status that
    /// `xev_loop_init` returned for it: the loop exists only if the status is
    /// zero, and a non-zero status is the error.
    pub fn new(raw: usize, rc: i32) -> (r: Result<Loop, OsError>)
        requires
            raw != 0,
        ensures
            match r {
                Ok(l) => rc == 0 && l@ == raw,
                Err(e) => rc != 0 && e == (OsError { code: rc }),
            },
    {
        match check_status(rc) {
            Ok(()) => Ok(Loop { raw }),
            Err(e) => Err(e),
        }
    }

    /// The address of the underlying `xev_loop`.
    pub fn as_raw(&mut self) -> (r: usize)
        ensures
            r == old(self)@,
            r != 0,
            *final(self) == *old(self),
    {
        proof {
            use_type_invariant(&*self);
        }
        self.raw
    }
}

} // verus!
