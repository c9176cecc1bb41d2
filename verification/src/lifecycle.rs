//! Expansion lifecycle controller: owns the active flag and decides when the
//! host must start or may stop a capture session. The host runs the actual
//! OS hook thread; the controller guarantees it is asked to run at most one.

use vstd::prelude::*;

verus! {

/// The controller's abstract state: whether expansion is active, and how
/// many capture sessions the controller has authorized.
pub struct LifecycleView {
    pub active: bool,
    pub sessions: nat,
}

/// The state after a start: active, with exactly one authorized session.
pub open spec fn started(v: LifecycleView) -> LifecycleView {
    LifecycleView { active: true, sessions: 1 }
}

/// The state after a stop: inactive, with no authorized session.
pub open spec fn stopped(v: LifecycleView) -> LifecycleView {
    LifecycleView { active: false, sessions: 0 }
}

/// Starting twice is the same as starting once, and either way exactly one
/// capture session is active afterwards.
pub proof fn lemma_start_idempotent(v: LifecycleView)
    ensures
        started(started(v)) == started(v),
        started(v).sessions == 1,
        started(v).active,
{
}

/// Stopping an inactive controller changes nothing and never errs: the
/// state stays inactive with no session.
pub proof fn lemma_stop_inactive_noop(v: LifecycleView)
    requires
        !v.active,
        v.sessions == 0,
    ensures
        stopped(v) == v,
        !stopped(v).active,
{
}

/// Lifecycle controller for the expansion engine.
pub struct ExpanderLifecycle {
    active: bool,
    sessions: u64,
}

impl ExpanderLifecycle {
    pub closed spec fn view(&self) -> LifecycleView {
        LifecycleView { active: self.active, sessions: self.sessions as nat }
    }

    /// The controller authorizes a session exactly while it is active.
    pub closed spec fn well_formed(&self) -> bool {
        self.sessions == if self.active {
            1int
        } else {
            0int
        }
    }

    /// Created inactive at process start.
    pub fn new() -> (r: ExpanderLifecycle)
        ensures
            r.well_formed(),
            r@ == (LifecycleView { active: false, sessions: 0 }),
    {
        ExpanderLifecycle { active: false, sessions: 0 }
    }

    /// Activate expansion. Returns whether the host must spawn a capture
    /// session: true exactly on the transition from inactive to active, so
    /// repeated starts leave a single session running.
    pub fn start(&mut self) -> (spawn: bool)
        requires
            old(self).well_formed(),
        ensures
            final(self).well_formed(),
            final(self)@ == started(old(self)@),
            spawn == !old(self)@.active,
    {
        if self.active {
            false
        } else {
            self.active = true;
            self.sessions = 1;
            true
        }
    }

    /// Deactivate expansion. A no-op when already inactive; never errs. The
    /// capture session observes the flag and winds itself down, so no
    /// session stays authorized.
    pub fn stop(&mut self)
        requires
            old(self).well_formed(),
        ensures
            final(self).well_formed(),
            final(self)@ == stopped(old(self)@),
    {
        self.active = false;
        self.sessions = 0;
    }

    /// Stop, then start: used when the snippet directory or configuration
    /// changes. Always leaves the controller active with one session, and
    /// always asks the host for a fresh capture session.
    pub fn reload(&mut self) -> (spawn: bool)
        requires
            old(self).well_formed(),
        ensures
            final(self).well_formed(),
            final(self)@ == started(stopped(old(self)@)),
            spawn,
    {
        self.stop();
        self.start()
    }

    /// Read by the capture callback on every event to allow near-immediate
    /// suspension without tearing down the hook.
    pub fn is_active(&self) -> (r: bool)
        ensures
            r == self@.active,
    {
        self.active
    }
}

} // verus!
