use vstd::prelude::*;
use crate::state::{clamp_ordinal, MAX_STATE};

verus! {

/// What the owner of the transition's progress value must do with it after
/// a step of the machine.
#[derive(Debug, Clone, Copy, PartialEq, Eq, Structural)]
pub enum BlendReset {
    /// Leave the progress as it is.
    Keep,
    /// Set the progress to 0 and hold it there: the machine is idle.
    Idle,
    /// Set the progress to 0 and start a fresh ease towards 1.
    Restart,
}

/// The discrete half of a state transition: which state is shown and which
/// one is being blended in. The continuous progress between them lives with
/// the caller, who feeds the machine the two facts it needs about it.
#[derive(Debug, Clone, Copy, PartialEq, Eq, Structural)]
pub struct StateBlend {
    pub current_state: u32,
    pub target_state: u32,
}

impl StateBlend {
    /// Both states are valid ordinals.
    pub open spec fn wf(self) -> bool {
        self.current_state <= MAX_STATE && self.target_state <= MAX_STATE
    }

    /// No transition is in flight.
    pub open spec fn idle(self) -> bool {
        self.current_state == self.target_state
    }

    /// The machine after a retarget towards `target` (already clamped), where
    /// `past_half` tells whether the progress has reached one half.
    pub open spec fn retargeted(self, target: u32, past_half: bool) -> StateBlend {
        if self.target_state == target {
            self
        } else {
            StateBlend {
                current_state: if !self.idle() && past_half {
                    self.target_state
                } else {
                    self.current_state
                },
                target_state: target,
            }
        }
    }

    /// The machine after an update in which the progress did, or did not,
    /// reach its end.
    pub open spec fn updated(self, reached_end: bool) -> StateBlend {
        if self.idle() || reached_end {
            StateBlend { current_state: self.target_state, target_state: self.target_state }
        } else {
            self
        }
    }

    /// Starts idle at `state`, clamped to the valid ordinals.
    pub fn new(state: u32) -> (r: StateBlend)
        ensures
            r.wf(),
            r.idle(),
            r.current_state == clamp_ordinal(state),
    {
        let s = if state > MAX_STATE { MAX_STATE } else { state };
        StateBlend { current_state: s, target_state: s }
    }

    pub fn is_idle(&self) -> (r: bool)
        ensures
            r == self.idle(),
    {
        self.current_state == self.target_state
    }

    /// Retargets the transition. A new target equal to the present one changes
    /// nothing. Otherwise a transition that has reached half its progress is
    /// first committed to its old target; the machine is then idle if the
    /// shown state already is the new target, and restarts its blend if not.
    pub fn set_target(&mut self, target_state: u32, past_half: bool) -> (r: BlendReset)
        requires
            old(self).wf(),
        ensures
            final(self).wf(),
            *final(self) == old(self).retargeted(clamp_ordinal(target_state), past_half),
            r == retarget_reset(*old(self), clamp_ordinal(target_state), past_half),
    {
        let target = if target_state > MAX_STATE { MAX_STATE } else { target_state };
        if self.target_state == target {
            return BlendReset::Keep;
        }
        if self.current_state != self.target_state && past_half {
            self.current_state = self.target_state;
        }
        self.target_state = target;
        if self.current_state == self.target_state {
            BlendReset::Idle
        } else {
            BlendReset::Restart
        }
    }

    /// Advances the machine once the caller has advanced the progress;
    /// `reached_end` tells whether it has reached 1. An idle machine stays
    /// idle; a finished transition commits to its target.
    pub fn update(&mut self, reached_end: bool) -> (r: BlendReset)
        requires
            old(self).wf(),
        ensures
            final(self).wf(),
            *final(self) == old(self).updated(reached_end),
            r == update_reset(*old(self), reached_end),
    {
        if self.current_state == self.target_state {
            return BlendReset::Idle;
        }
        if reached_end {
            self.current_state = self.target_state;
            BlendReset::Idle
        } else {
            BlendReset::Keep
        }
    }
}

} // verus!

verus! {

/// What `set_target` tells the caller to do with the progress.
pub open spec fn retarget_reset(b: StateBlend, target: u32, past_half: bool) -> BlendReset {
    if b.target_state == target {
        BlendReset::Keep
    } else if b.retargeted(target, past_half).idle() {
        BlendReset::Idle
    } else {
        BlendReset::Restart
    }
}

/// What `update` tells the caller to do with the progress.
pub open spec fn update_reset(b: StateBlend, reached_end: bool) -> BlendReset {
    if b.updated(reached_end).idle() {
        BlendReset::Idle
    } else {
        BlendReset::Keep
    }
}

/// A retarget away from a transition that has reached half its progress
/// first lands on that transition's target: the shown state becomes the old
/// target before the new target is adopted, so no state is skipped.
pub proof fn lemma_half_done_transition_commits(b: StateBlend, target_state: u32)
    requires
        b.wf(),
        !b.idle(),
        clamp_ordinal(target_state) != b.target_state,
    ensures
        b.retargeted(clamp_ordinal(target_state), true).current_state == b.target_state,
        b.retargeted(clamp_ordinal(target_state), true).target_state == clamp_ordinal(
            target_state,
        ),
{
}

/// Progress is held at 0 whenever no transition is in flight: if it is 0
/// while the machine is idle, then after any retarget or update that leaves
/// the machine idle the caller has either been told to zero it, or the
/// machine was idle and untouched.
pub proof fn lemma_idle_progress_is_zero(
    b: StateBlend,
    target_state: u32,
    past_half: bool,
    reached_end: bool,
)
    requires
        b.wf(),
    ensures
        ({
            let t = clamp_ordinal(target_state);
            let after = b.retargeted(t, past_half);
            after.idle() ==> (retarget_reset(b, t, past_half) == BlendReset::Idle || (
            retarget_reset(b, t, past_half) == BlendReset::Keep && after == b && b.idle()))
        }),
        ({
            let after = b.updated(reached_end);
            after.idle() ==> update_reset(b, reached_end) == BlendReset::Idle
        }),
{
}

/// From rest, a retarget to a different state starts a transition that is in
/// flight until its progress reaches the end, and then shows the new state
/// at rest.
pub proof fn lemma_retarget_then_arrive(b: StateBlend, target_state: u32, past_half: bool)
    requires
        b.wf(),
        b.idle(),
        clamp_ordinal(target_state) != b.target_state,
    ensures
        ({
            let moving = b.retargeted(clamp_ordinal(target_state), past_half);
            &&& !moving.idle()
            &&& retarget_reset(b, clamp_ordinal(target_state), past_half) == BlendReset::Restart
            &&& moving.updated(false) == moving
            &&& moving.updated(true).current_state == clamp_ordinal(target_state)
            &&& moving.updated(true).idle()
        }),
{
}

} // verus!
