//! Watchers (timers and async notifiers), the completions that carry their
//! operations, and the handles given to callbacks.
use vstd::prelude::*;

use crate::status::{check_status, OsError};

verus! {

/// Raw value of `XEV_DISARM` in the C API.
pub const DISARM: u32 = 0;

/// Raw value of `XEV_REARM` in the C API.
pub const REARM: u32 = 1;

/// Raw value of `XEV_COMPLETION_DEAD` in the C API.
pub const COMPLETION_DEAD: u32 = 0;

/// Raw value of `XEV_COMPLETION_ACTIVE` in the C API.
pub const COMPLETION_ACTIVE: u32 = 1;

/// What to do after a watcher callback fires.
#[derive(Debug, Clone, Copy, PartialEq, Eq, Structural)]
pub enum CbAction {
    /// Stop monitoring; the completion goes `Dead`.
    Disarm,
    /// Keep monitoring with the same parameters.
    Rearm,
}

impl CbAction {
    /// The value of the C enumeration `xev_cb_action` for this action.
    pub open spec fn raw_value(self) -> u32 {
        match self {
            CbAction::Disarm => DISARM,
            CbAction::Rearm => REARM,
        }
    }

    /// The value a callback trampoline hands back to the loop.
    pub fn to_raw(self) -> (r: u32)
        ensures
            r == self.raw_value(),
    {
        match self {
            CbAction::Disarm => DISARM,
            CbAction::Rearm => REARM,
        }
    }
}

/// Distinct callback actions reach the loop as distinct raw values.
pub proof fn lemma_cb_action_raw_injective(a: CbAction, b: CbAction)
    ensures
        a.raw_value() == b.raw_value() ==> a == b,
{
}

/// Whether a completion is currently registered with a loop.
#[derive(Debug, Clone, Copy, PartialEq, Eq, Structural)]
pub enum CompletionState {
    Dead,
    Active,
}

impl CompletionState {
    /// The state that a raw `xev_completion_state_t` stands for: only the
    /// active value means `Active`, every other value reads as `Dead`.
    pub open spec fn from_raw_spec(v: u32) -> CompletionState {
        if v == COMPLETION_ACTIVE {
            CompletionState::Active
        } else {
            CompletionState::Dead
        }
    }

    /// Read a raw `xev_completion_state_t`.
    pub fn from_raw(v: u32) -> (s: CompletionState)
        ensures
            s == Self::from_raw_spec(v),
    {
        if v == COMPLETION_ACTIVE {
            CompletionState::Active
        } else {
            CompletionState::Dead
        }
    }
}

/// A non-owning handle to the loop, handed to watcher callbacks.
#[derive(Clone, Copy)]
pub struct LoopRef {
    raw: usize,
}

impl LoopRef {
    /// The handle always refers to real storage: its address is never zero.
    #[verifier::type_invariant]
    spec fn addr_non_zero(self) -> bool {
        self.raw != 0
    }
}

impl View for LoopRef {
    type V = usize;

    closed spec fn view(&self) -> usize {
        self.raw
    }
}

impl LoopRef {
    /// A handle to the loop at `raw`, as the callback receives it.
    pub fn from_raw(raw: usize) -> (r: LoopRef)
        requires
            raw != 0,
        ensures
            r@ == raw,
    {
        LoopRef { raw }
    }

    /// The address of the loop.
    pub fn as_raw(&mut self) -> (r: usize)
        ensures
            r == old(self)@,
            r != 0,
            *final(self) == *old(self),
    {
        proof {
            use_type_invariant(&*self);
        }
        self.raw
    }
}

/// A non-owning handle to a completion, handed to watcher callbacks.
#[derive(Clone, Copy)]
pub struct CompletionRef {
    raw: usize,
}

impl CompletionRef {
    /// The handle always refers to real storage: its address is never zero.
    #[verifier::type_invariant]
    spec fn addr_non_zero(self) -> bool {
        self.raw != 0
    }
}

impl View for CompletionRef {
    type V = usize;

    closed spec fn view(&self) -> usize {
        self.raw
    }
}

impl CompletionRef {
    /// A handle to the completion at `raw`, as the callback receives it.
    pub fn from_raw(raw: usize) -> (r: CompletionRef)
        requires
            raw != 0,
        ensures
            r@ == raw,
    {
        CompletionRef { raw }
    }

    /// The address of the completion.
    pub fn as_raw(&mut self) -> (r: usize)
        ensures
            r == old(self)@,
            r != 0,
            *final(self) == *old(self),
    {
        proof {
            use_type_invariant(&*self);
        }
        self.raw
    }
}

/// A completion: the C storage of one operation (held by its address) and
/// the owner of the callback that backs the operation, if one is installed.
///
/// A completion owns at most one callback: installing a new one releases the
/// previous one, and zeroing the completion releases it too.
pub struct Completion<C> {
    raw: usize,
    callback: Option<C>,
}

impl<C> Completion<C> {
    /// The completion always refers to real storage: its address is never zero.
    #[verifier::type_invariant]
    spec fn addr_non_zero(self) -> bool {
        self.raw != 0
    }

    /// The address of the completion's C storage.
    pub closed spec fn addr(&self) -> usize {
        self.raw
    }

    /// The callback owner currently installed.
    pub closed spec fn installed(&self) -> Option<C> {
        self.callback
    }

    /// A fresh completion over the zeroed storage at `raw`, with no callback.
    pub fn new(raw: usize) -> (c: Self)
        requires
            raw != 0,
        ensures
            c.addr() == raw,
            c.installed() is None,
    {
        Completion { raw, callback: None }
    }

    /// Reset to the `Dead` state: the pending callback, if any, is released.
    pub fn zero(&mut self)
        ensures
            final(self).addr() == old(self).addr(),
            final(self).installed() is None,
    {
        proof {
            use_type_invariant(&*self);
        }
        self.callback = None;
    }

    /// Install the callback of a new operation; the previously installed
    /// one, if any, is released.
    pub fn install_callback(&mut self, cb: C)
        ensures
            final(self).addr() == old(self).addr(),
            final(self).installed() == Some(cb),
    {
        proof {
            use_type_invariant(&*self);
        }
        self.callback = Some(cb);
    }

    /// Whether a callback is installed.
    pub fn has_callback(&self) -> (b: bool)
        ensures
            b == self.installed() is Some,
    {
        self.callback.is_some()
    }

    /// The address of the underlying `xev_completion`.
    pub fn as_raw(&mut self) -> (r: usize)
        ensures
            r == old(self).addr(),
            r != 0,
            *final(self) == *old(self),
    {
        proof {
            use_type_invariant(&*self);
        }
        self.raw
    }
}

/// A timer watcher, held by the address of its initialised C storage.
pub struct Timer {
    raw: usize,
}

impl Timer {
    /// The handle always refers to real storage: its address is never zero.
    #[verifier::type_invariant]
    spec fn addr_non_zero(self) -> bool {
        self.raw != 0
    }
}

impl View for Timer {
    type V = usize;

    closed spec fn view(&self) -> usize {
        self.raw
    }
}

impl Timer {
    /// Take over the watcher storage at `raw`, given the status that
    /// `xev_timer_init` returned for it.
    pub fn new(raw: usize, rc: i32) -> (r: Result<Timer, OsError>)
        requires
            raw != 0,
        ensures
            match r {
                Ok(t) => rc == 0 && t@ == raw,
                Err(e) => rc != 0 && e == (OsError { code: rc }),
            },
    {
        match check_status(rc) {
            Ok(()) => Ok(Timer { raw }),
            Err(e) => Err(e),
        }
    }

    /// The address of the underlying `xev_watcher`.
    pub fn as_raw(&mut self) -> (r: usize)
        ensures
            r == old(self)@,
            r != 0,
            *final(self) == *old(self),
    {
        proof {
            use_type_invariant(&*self);
        }
        self.raw
    }
}

/// An async notifier, held by the address of its initialised C storage.
pub struct Async {
    raw: usize,
}

impl Async {
    /// The handle always refers to real storage: its address is never zero.
    #[verifier::type_invariant]
    spec fn addr_non_zero(self) -> bool {
        self.raw != 0
    }
}

impl View for Async {
    type V = usize;

    closed spec fn view(&self) -> usize {
        self.raw
    }
}

impl Async {
    /// Take over the watcher storage at `raw`, given the status that
    /// `xev_async_init` returned for it.
    pub fn new(raw: usize, rc: i32) -> (r: Result<Async, OsError>)
        requires
            raw != 0,
        ensures
            match r {
                Ok(a) => rc == 0 && a@ == raw,
                Err(e) => rc != 0 && e == (OsError { code: rc }),
            },
    {
        match check_status(rc) {
            Ok(()) => Ok(Async { raw }),
            Err(e) => Err(e),
        }
    }

    /// The address of the underlying `xev_watcher`.
    pub fn as_raw(&mut self) -> (r: usize)
        ensures
            r == old(self)@,
            r != 0,
            *final(self) == *old(self),
    {
        proof {
            use_type_invariant(&*self);
        }
        self.raw
    }
}

} // verus!
