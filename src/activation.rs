//! The activation hack: a freshly launched application may lose focus before
//! the system has routed any input to it; a resignation in that window is
//! answered by activating the application again.
use vstd::prelude::*;

verus! {

/// Where the application stands in the activation hack.
#[derive(PartialEq, Eq, Structural, Clone, Copy, Debug)]
pub enum Phase {
    Inactive,
    AwaitingInput,
    Confirmed,
}

/// What a resignation of the active state calls for.
#[derive(PartialEq, Eq, Structural, Clone, Copy, Debug)]
pub enum Resignation {
    /// Accept the resignation as it is.
    Accept,
    /// Activate the application again, ignoring other applications.
    Refocus,
}

/// The per-delegate activation state.
#[derive(Clone, Copy, Debug)]
pub struct ActivationState {
    /// Whether the application has become active.
    pub activated: bool,
    /// Whether input has been observed since the activation.
    pub input_observed: bool,
}

impl ActivationState {
    /// Input is only observed once the application is active.
    pub open spec fn wf(&self) -> bool {
        self.input_observed ==> self.activated
    }

    pub open spec fn phase_of(&self) -> Phase {
        if !self.activated {
            Phase::Inactive
        } else if !self.input_observed {
            Phase::AwaitingInput
        } else {
            Phase::Confirmed
        }
    }

    /// A fresh state: inactive.
    pub fn new() -> (r: ActivationState)
        ensures
            r.wf(),
            r.phase_of() == Phase::Inactive,
    {
        ActivationState { activated: false, input_observed: false }
    }

    /// The current phase.
    pub fn phase(&self) -> (r: Phase)
        ensures
            r == self.phase_of(),
    {
        if !self.activated {
            Phase::Inactive
        } else if !self.input_observed {
            Phase::AwaitingInput
        } else {
            Phase::Confirmed
        }
    }

    /// The application became active: an inactive state now awaits input; a
    /// state past that point is kept.
    pub fn did_become_active(&mut self)
        requires
            old(self).wf(),
        ensures
            final(self).wf(),
            final(self).activated,
            final(self).phase_of() == (if old(self).phase_of() == Phase::Inactive {
                Phase::AwaitingInput
            } else {
                old(self).phase_of()
            }),
    {
        self.activated = true;
    }

    /// Input reached the application: a state awaiting input is confirmed; in
    /// any other phase nothing changes.
    pub fn mouse_moved(&mut self)
        requires
            old(self).wf(),
        ensures
            final(self).wf(),
            final(self).phase_of() == (if old(self).phase_of() == Phase::AwaitingInput {
                Phase::Confirmed
            } else {
                old(self).phase_of()
            }),
    {
        if self.activated {
            self.input_observed = true;
        }
    }

    /// The application resigned the active state: refocus exactly when it was
    /// active and no input had confirmed it yet. The state itself is kept.
    pub fn did_resign_active(&self) -> (r: Resignation)
        requires
            self.wf(),
        ensures
            r == (if self.phase_of() == Phase::AwaitingInput {
                Resignation::Refocus
            } else {
                Resignation::Accept
            }),
    {
        if self.activated && !self.input_observed {
            Resignation::Refocus
        } else {
            Resignation::Accept
        }
    }
}

} // verus!
