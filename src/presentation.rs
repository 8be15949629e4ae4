use vstd::prelude::*;

verus! {

/// The outcome of one attempt to acquire the surface's current texture.
#[derive(Clone, Copy, Debug, PartialEq, Eq, Structural)]
pub enum Attempt {
    Acquired,
    /// The surface was lost or outdated.
    Lost,
}

/// Where the acquisition of one frame stands.
#[derive(Clone, Copy, Debug, PartialEq, Eq, Structural)]
pub enum AcquireState {
    /// No attempt has been made yet.
    Fresh,
    /// The first attempt failed and the surface was reconfigured.
    Retrying,
    /// A texture was acquired: the frame can be drawn and presented.
    Ready,
    /// Both attempts failed: the frame must be aborted.
    Failed,
}

/// What the caller must do after reporting an attempt.
#[derive(Clone, Copy, Debug, PartialEq, Eq, Structural)]
pub enum AcquireAction {
    /// Create the default view over the acquired texture and keep the texture
    /// alive until the work that uses the view is submitted.
    UseFrame,
    /// Reconfigure the surface with its last configuration, then try again.
    ReconfigureAndRetry,
    /// Presentation cannot proceed; this is fatal for the frame loop.
    Abort,
}

/// The acquisition protocol of one frame: at most two attempts, with one
/// reconfiguration of the surface between them.
pub struct FrameAcquisition {
    pub state: AcquireState,
    pub attempts: u32,
    pub reconfigurations: u32,
}

/// The state after an attempt with outcome `a` is reported in state `s`.
pub open spec fn next_state(s: AcquireState, a: Attempt) -> AcquireState {
    match (s, a) {
        (AcquireState::Fresh, Attempt::Acquired) => AcquireState::Ready,
        (AcquireState::Fresh, Attempt::Lost) => AcquireState::Retrying,
        (AcquireState::Retrying, Attempt::Acquired) => AcquireState::Ready,
        (AcquireState::Retrying, Attempt::Lost) => AcquireState::Failed,
        _ => s,
    }
}

/// The action that goes with entering a state.
pub open spec fn action_for(s: AcquireState) -> AcquireAction {
    match s {
        AcquireState::Ready => AcquireAction::UseFrame,
        AcquireState::Retrying => AcquireAction::ReconfigureAndRetry,
        _ => AcquireAction::Abort,
    }
}

/// Whether more attempts may be reported.
pub open spec fn awaits_attempt(s: AcquireState) -> bool {
    s == AcquireState::Fresh || s == AcquireState::Retrying
}

/// `after` and `r` are what reporting `a` in `before` leads to: one more
/// attempt, and one more reconfiguration exactly where a retry is asked for.
pub open spec fn record_step(
    before: FrameAcquisition,
    a: Attempt,
    after: FrameAcquisition,
    r: AcquireAction,
) -> bool {
    &&& after.state == next_state(before.state, a)
    &&& r == action_for(after.state)
    &&& after.attempts == before.attempts + 1
    &&& after.reconfigurations == before.reconfigurations + (if r
        == AcquireAction::ReconfigureAndRetry {
        1int
    } else {
        0int
    })
}

impl FrameAcquisition {
    /// The counters agree with the state.
    pub open spec fn wf(&self) -> bool {
        match self.state {
            AcquireState::Fresh => self.attempts == 0 && self.reconfigurations == 0,
            AcquireState::Retrying => self.attempts == 1 && self.reconfigurations == 1,
            AcquireState::Ready => (self.attempts == 1 && self.reconfigurations == 0) || (
            self.attempts == 2 && self.reconfigurations == 1),
            AcquireState::Failed => self.attempts == 2 && self.reconfigurations == 1,
        }
    }

    pub fn new() -> (r: FrameAcquisition)
        ensures
            r.wf(),
            r.state == AcquireState::Fresh,
            r.attempts == 0,
            r.reconfigurations == 0,
    {
        FrameAcquisition { state: AcquireState::Fresh, attempts: 0, reconfigurations: 0 }
    }

    /// Reports the outcome of an attempt and returns what to do next.
    pub fn record(&mut self, a: Attempt) -> (r: AcquireAction)
        requires
            old(self).wf(),
            awaits_attempt(old(self).state),
        ensures
            final(self).wf(),
            record_step(*old(self), a, *final(self), r),
    {
        self.attempts = self.attempts + 1;
        match (self.state, a) {
            (AcquireState::Fresh, Attempt::Lost) => {
                self.state = AcquireState::Retrying;
                self.reconfigurations = self.reconfigurations + 1;
                AcquireAction::ReconfigureAndRetry
            },
            (AcquireState::Retrying, Attempt::Lost) => {
                self.state = AcquireState::Failed;
                AcquireAction::Abort
            },
            _ => {
                self.state = AcquireState::Ready;
                AcquireAction::UseFrame
            },
        }
    }
}

/// A first attempt that succeeds yields the frame at once, with no
/// reconfiguration of the surface.
pub proof fn lemma_valid_surface_needs_no_reconfiguration(
    f0: FrameAcquisition,
    f1: FrameAcquisition,
    r1: AcquireAction,
)
    requires
        f0.wf(),
        f0.state == AcquireState::Fresh,
        record_step(f0, Attempt::Acquired, f1, r1),
    ensures
        r1 == AcquireAction::UseFrame,
        f1.state == AcquireState::Ready,
        f1.attempts == 1,
        f1.reconfigurations == 0,
{
}

/// After a failed first attempt the surface is reconfigured once and exactly
/// one more attempt is made; if that one fails as well the frame is aborted,
/// and no state is left from which a view could still be handed out.
pub proof fn lemma_one_retry_then_fatal(
    f0: FrameAcquisition,
    f1: FrameAcquisition,
    f2: FrameAcquisition,
    retry: Attempt,
    r1: AcquireAction,
    r2: AcquireAction,
)
    requires
        f0.wf(),
        f0.state == AcquireState::Fresh,
        record_step(f0, Attempt::Lost, f1, r1),
        record_step(f1, retry, f2, r2),
    ensures
        r1 == AcquireAction::ReconfigureAndRetry,
        awaits_attempt(f1.state),
        f2.attempts == 2,
        f2.reconfigurations == 1,
        retry == Attempt::Acquired ==> r2 == AcquireAction::UseFrame,
        retry == Attempt::Lost ==> r2 == AcquireAction::Abort && f2.state == AcquireState::Failed,
        !awaits_attempt(f2.state),
{
}

} // verus!
