//! Process init guard: the one-time setup of the process runs once.

use vstd::prelude::*;

verus! {

/// What a call of the init entry point has to do.
#[derive(Debug, Clone, Copy, PartialEq, Eq)]
pub enum InitStep {
    /// First call: redirect the output streams of the process to the host's
    /// logging sink.
    Redirect,
    /// The setup has run before: nothing to do.
    AlreadyInitialized,
}

/// The process-wide init flag.
pub struct InitGuard {
    initialized: bool,
}

/// What a call is told, by the flag it finds.
pub open spec fn init_step(initialized: bool) -> InitStep {
    if initialized {
        InitStep::AlreadyInitialized
    } else {
        InitStep::Redirect
    }
}

/// How many of `calls` successive calls are told to redirect, by the flag that
/// the first of them finds.
pub open spec fn redirections(initialized: bool, calls: nat) -> nat
    decreases calls,
{
    if calls == 0 {
        0
    } else {
        let rest = redirections(true, (calls - 1) as nat);
        if init_step(initialized) == InitStep::Redirect {
            rest + 1
        } else {
            rest
        }
    }
}

impl InitGuard {
    /// True once the setup has been asked for.
    pub closed spec fn view(&self) -> bool {
        self.initialized
    }

    /// The guard at process start: nothing is set up.
    pub fn new() -> (guard: Self)
        ensures
            !guard@,
    {
        InitGuard { initialized: false }
    }

    /// Asks for the setup. The flag is set in the same call that answers, so
    /// only the first caller is ever told to redirect.
    pub fn ensure_initialized(&mut self) -> (step: InitStep)
        ensures
            step == init_step(old(self)@),
            final(self)@,
    {
        let step = if self.initialized {
            InitStep::AlreadyInitialized
        } else {
            InitStep::Redirect
        };
        self.initialized = true;
        step
    }

    /// True once the setup has been asked for.
    pub fn is_initialized(&self) -> (initialized: bool)
        ensures
            initialized == self@,
    {
        self.initialized
    }
}

/// Once the flag is set, no number of calls is told to redirect.
pub proof fn lemma_initialized_stays_quiet(calls: nat)
    ensures
        redirections(true, calls) == 0,
    decreases calls,
{
    if calls > 0 {
        lemma_initialized_stays_quiet((calls - 1) as nat);
    }
}

/// Any number of calls on a fresh guard, one or more, redirects exactly once.
pub proof fn lemma_redirects_once(calls: nat)
    requires
        calls >= 1,
    ensures
        redirections(false, calls) == 1,
{
    lemma_initialized_stays_quiet((calls - 1) as nat);
}

} // verus!
