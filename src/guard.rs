//! The guard that owns one redirection: it hands out the setup to apply,
//! records whether it was applied, and hands out the teardown exactly once.
use vstd::prelude::*;
use crate::plan::{
    setup_effects, setup_plan, teardown_effects, teardown_plan, Effect, RedirectionKey,
};

verus! {

/// Lifecycle of a guard. There is no transition out of `Released`.
#[derive(Clone, Copy, Debug, PartialEq, Eq, Structural)]
pub enum GuardState {
    Uninitialized,
    Active,
    Released,
}

/// Failures that the lifecycle reports.
#[derive(Clone, Copy, Debug, PartialEq, Eq, Structural)]
pub enum GuardError {
    /// Setup stopped at effect `failed_at`; the effects before it stay
    /// applied and are not rolled back.
    SetupFailed { failed_at: usize },
    /// Teardown stopped at effect `failed_at`: the host is left in an
    /// inconsistent state that needs manual inspection.
    InconsistentKernelState { failed_at: usize },
    /// The guard was already released and cannot be set up again.
    AlreadyReleased,
}

/// The abstract state of a guard.
pub struct GuardModel {
    pub key: RedirectionKey,
    pub state: GuardState,
}

/// Owns one redirection and its lifecycle state.
pub struct RedirectionGuard {
    key: RedirectionKey,
    state: GuardState,
}

impl View for RedirectionGuard {
    type V = GuardModel;

    closed spec fn view(&self) -> GuardModel {
        GuardModel { key: self.key, state: self.state }
    }
}

impl RedirectionGuard {
    /// A guard for `key` that has set nothing up yet.
    pub fn new(key: RedirectionKey) -> (r: RedirectionGuard)
        ensures
            r@.key == key,
            r@.state == GuardState::Uninitialized,
    {
        RedirectionGuard { key, state: GuardState::Uninitialized }
    }

    pub fn key(&self) -> (r: RedirectionKey)
        ensures
            r == self@.key,
    {
        self.key
    }

    pub fn state(&self) -> (r: GuardState)
        ensures
            r == self@.state,
    {
        self.state
    }

    /// The effects still to apply: the whole setup while nothing is set up,
    /// and nothing once the guard is active or released.
    pub fn acquire_plan(&self) -> (r: Vec<Effect>)
        ensures
            self@.state == GuardState::Uninitialized ==> r@ == setup_plan(self@.key),
            self@.state != GuardState::Uninitialized ==> r@.len() == 0,
    {
        match self.state {
            GuardState::Uninitialized => setup_effects(&self.key),
            _ => Vec::new(),
        }
    }

    /// Records how applying the setup went: `Ok`, or the index of the effect
    /// that failed (the effects before it were applied, later ones were not
    /// attempted). Only a complete setup makes the guard active.
    pub fn complete_acquire(&mut self, outcome: Result<(), usize>) -> (r: Result<(), GuardError>)
        ensures
            final(self)@.key == old(self)@.key,
            old(self)@.state == GuardState::Uninitialized ==> match outcome {
                Ok(()) => r == Ok::<(), GuardError>(()) && final(self)@.state == GuardState::Active,
                Err(i) => r == Err::<(), GuardError>(GuardError::SetupFailed { failed_at: i })
                    && final(self)@.state == GuardState::Uninitialized,
            },
            old(self)@.state == GuardState::Active ==> r == Ok::<(), GuardError>(())
                && final(self)@.state == GuardState::Active,
            old(self)@.state == GuardState::Released ==> r == Err::<(), GuardError>(
                GuardError::AlreadyReleased,
            ) && final(self)@.state == GuardState::Released,
    {
        match self.state {
            GuardState::Uninitialized => match outcome {
                Ok(()) => {
                    self.state = GuardState::Active;
                    Ok(())
                },
                Err(i) => Err(GuardError::SetupFailed { failed_at: i }),
            },
            GuardState::Active => Ok(()),
            GuardState::Released => Err(GuardError::AlreadyReleased),
        }
    }

    /// What a setup that failed at effect `failed_at` left applied on the
    /// host: the effects before it.
    pub fn left_behind(&self, failed_at: usize) -> (r: Vec<Effect>)
        requires
            failed_at <= setup_plan(self@.key).len(),
        ensures
            r@ == setup_plan(self@.key).subrange(0, failed_at as int),
    {
        let all = setup_effects(&self.key);
        let mut r: Vec<Effect> = Vec::new();
        let mut k: usize = 0;
        while k < failed_at
            invariant
                all@ == setup_plan(self@.key),
                failed_at <= all@.len(),
                k <= failed_at,
                r@ == all@.subrange(0, k as int),
            decreases failed_at - k,
        {
            r.push(all[k]);
            k = k + 1;
            assert(r@ =~= all@.subrange(0, k as int));
        }
        r
    }

    /// Starts the release: an active guard becomes released and hands out
    /// the teardown of its setup, each effect undone in reverse order. Any
    /// other guard is left as it is and hands out nothing, so a second
    /// release issues no command.
    pub fn release(&mut self) -> (r: Vec<Effect>)
        ensures
            final(self)@.key == old(self)@.key,
            old(self)@.state == GuardState::Active ==> final(self)@.state == GuardState::Released
                && r@ == teardown_plan(setup_plan(old(self)@.key)),
            old(self)@.state != GuardState::Active ==> final(self)@.state == old(self)@.state
                && r@.len() == 0,
    {
        match self.state {
            GuardState::Active => {
                self.state = GuardState::Released;
                let applied = setup_effects(&self.key);
                teardown_effects(&applied)
            },
            _ => Vec::new(),
        }
    }

    /// Judges how running the teardown went: `Ok`, or the index of the
    /// effect that failed, which leaves the host inconsistent.
    pub fn complete_release(&self, outcome: Result<(), usize>) -> (r: Result<(), GuardError>)
        ensures
            match outcome {
                Ok(()) => r == Ok::<(), GuardError>(()),
                Err(i) => r == Err::<(), GuardError>(
                    GuardError::InconsistentKernelState { failed_at: i },
                ),
            },
    {
        match outcome {
            Ok(()) => Ok(()),
            Err(i) => Err(GuardError::InconsistentKernelState { failed_at: i }),
        }
    }
}

} // verus!
