//! Per-region control of one render tick.
//!
//! Each tracked region steps through one tick as a small state machine:
//! capture, validate, upload, compose, with a bounded retry budget for
//! rejected captures.  The machine only decides; the surrounding loop
//! performs each requested action against the operating system and
//! reports the outcome back as the next event.

use vstd::prelude::*;

verus! {

/// The message code that signals the output window's destruction.
pub const MSG_DESTROY: u32 = 2;

/// What the message pump should do with one window message.
#[derive(Clone, Copy, PartialEq, Eq, Structural, Debug)]
pub enum MessageDecision {
    /// The output window is gone: leave the render loop and exit cleanly.
    QuitProcess,
    /// Hand the message to the system's default handling.
    ForwardToSystem,
}

/// Decides what one window message means for the render loop: window
/// destruction ends the process voluntarily, everything else is forwarded.
pub fn classify_message(msg: u32) -> (d: MessageDecision)
    ensures
        d == (if msg == MSG_DESTROY {
            MessageDecision::QuitProcess
        } else {
            MessageDecision::ForwardToSystem
        }),
{
    if msg == MSG_DESTROY {
        MessageDecision::QuitProcess
    } else {
        MessageDecision::ForwardToSystem
    }
}

/// What to do once a region's retry budget is exhausted.
#[derive(Clone, Copy, PartialEq, Eq, Structural, Debug)]
pub enum ExhaustionPolicy {
    /// Drop this tick's update for the region, leaving the previously
    /// composited content in place.
    Skip,
    /// Forward the last captured buffer regardless of poisoning.
    AcceptStale,
}

/// The retry budget for poisoned captures: at most `attempt_cap` capture
/// attempts per tick, then the exhaustion policy resolves the tick.
#[derive(Clone, Copy, PartialEq, Eq, Structural, Debug)]
pub struct RetryConfig {
    /// Maximum capture attempts per region per tick.  A cap of 1 is the
    /// single-shot mode: one rejection resolves the tick; a cap of 0
    /// behaves the same, since the first capture has already begun when
    /// the budget is first consulted.
    pub attempt_cap: u32,
    /// How an exhausted budget resolves.
    pub policy: ExhaustionPolicy,
}

/// Where a region stands within the current tick.
#[derive(Clone, Copy, PartialEq, Eq, Structural, Debug)]
pub enum RegionState {
    /// Between ticks; both the initial and the per-tick terminal state.
    Idle,
    /// A capture attempt is in flight.
    Capturing,
    /// A captured buffer awaits the poison check.
    Validating,
    /// An accepted (or knowingly stale) buffer awaits texture creation.
    Uploading,
    /// The region's texture has been handed to the compositor.
    Composited,
    /// This tick's update is dropped; prior content stays.
    SkipTick,
}

/// The outcome the surrounding loop reports after performing an action.
#[derive(Clone, Copy, PartialEq, Eq, Structural, Debug)]
pub enum RegionEvent {
    /// A new tick begins for this region.
    TickStarted,
    /// The capture produced a buffer.
    CaptureSucceeded,
    /// The capture device failed this attempt.
    CaptureFailed,
    /// The validator accepted the captured buffer.
    ValidationAccepted,
    /// The validator rejected the captured buffer as poisoned.
    ValidationRejected,
    /// The texture was created from the buffer.
    UploadSucceeded,
    /// Texture creation failed this tick.
    UploadFailed,
    /// The compositor finished copying the region's texture.
    ComposeCompleted,
    /// The tick is over for this region.
    TickEnded,
}

/// What the surrounding loop should do next for this region.
#[derive(Clone, Copy, PartialEq, Eq, Structural, Debug)]
pub enum RegionAction {
    /// Capture the region's window into a fresh buffer.
    BeginCapture,
    /// Run the poison check on the captured buffer.
    RunValidation,
    /// Create a texture from the accepted buffer.
    UploadFrame,
    /// Budget exhausted under `AcceptStale`: create a texture from the
    /// last captured buffer regardless of poisoning.
    ForwardStaleFrame,
    /// Copy the region's texture into the back buffer.
    ComposeFrame,
    /// Drop this tick's update for the region.
    SkipRegion,
    /// Nothing to do until the next tick or event.
    AwaitTick,
}

/// One tracked region's position in the tick, with its attempt count.
#[derive(Clone, Copy, PartialEq, Eq, Structural, Debug)]
pub struct RegionTracker {
    /// Where the region stands.
    pub state: RegionState,
    /// Capture attempts begun this tick.
    pub attempts: u32,
}

impl RegionTracker {
    /// The initial (and per-tick terminal) tracker.
    pub fn new() -> (t: RegionTracker)
        ensures
            t == (RegionTracker { state: RegionState::Idle, attempts: 0u32 }),
    {
        RegionTracker { state: RegionState::Idle, attempts: 0 }
    }
}

/// The full transition table of the per-region tick machine.
///
/// `Idle → Capturing → Validating`, then acceptance runs
/// `Uploading → Composited → Idle` while rejection either retries the
/// capture — while attempts remain under the cap — or resolves the tick
/// by the exhaustion policy: drop the update (`SkipTick`) or forward the
/// stale buffer through the upload path.  Capture or upload failure drops
/// the update for this tick only.  An event that does not belong to the
/// current state changes nothing.
pub open spec fn step_spec(t: RegionTracker, event: RegionEvent, config: RetryConfig) -> (
    RegionTracker,
    RegionAction,
) {
    match (t.state, event) {
        (RegionState::Idle, RegionEvent::TickStarted) => (
            RegionTracker { state: RegionState::Capturing, attempts: 1u32 },
            RegionAction::BeginCapture,
        ),
        (RegionState::Capturing, RegionEvent::CaptureSucceeded) => (
            RegionTracker { state: RegionState::Validating, ..t },
            RegionAction::RunValidation,
        ),
        (RegionState::Capturing, RegionEvent::CaptureFailed) => (
            RegionTracker { state: RegionState::SkipTick, ..t },
            RegionAction::SkipRegion,
        ),
        (RegionState::Validating, RegionEvent::ValidationAccepted) => (
            RegionTracker { state: RegionState::Uploading, ..t },
            RegionAction::UploadFrame,
        ),
        (RegionState::Validating, RegionEvent::ValidationRejected) => {
            if t.attempts < config.attempt_cap {
                (
                    RegionTracker { state: RegionState::Capturing, attempts: (t.attempts + 1) as u32 },
                    RegionAction::BeginCapture,
                )
            } else {
                match config.policy {
                    ExhaustionPolicy::Skip => (
                        RegionTracker { state: RegionState::SkipTick, ..t },
                        RegionAction::SkipRegion,
                    ),
                    ExhaustionPolicy::AcceptStale => (
                        RegionTracker { state: RegionState::Uploading, ..t },
                        RegionAction::ForwardStaleFrame,
                    ),
                }
            }
        },
        (RegionState::Uploading, RegionEvent::UploadSucceeded) => (
            RegionTracker { state: RegionState::Composited, ..t },
            RegionAction::ComposeFrame,
        ),
        (RegionState::Uploading, RegionEvent::UploadFailed) => (
            RegionTracker { state: RegionState::SkipTick, ..t },
            RegionAction::SkipRegion,
        ),
        (RegionState::Composited, RegionEvent::ComposeCompleted) => (
            RegionTracker { state: RegionState::Idle, attempts: 0u32 },
            RegionAction::AwaitTick,
        ),
        (RegionState::SkipTick, RegionEvent::TickEnded) => (
            RegionTracker { state: RegionState::Idle, attempts: 0u32 },
            RegionAction::AwaitTick,
        ),
        _ => (t, RegionAction::AwaitTick),
    }
}

/// Advances the tracker by one event, exactly as `step_spec` says, and
/// returns the action the surrounding loop should perform next.
pub fn step(tracker: &mut RegionTracker, event: RegionEvent, config: &RetryConfig) -> (action:
    RegionAction)
    ensures
        (*final(tracker), action) == step_spec(*old(tracker), event, *config),
{
    match (tracker.state, event) {
        (RegionState::Idle, RegionEvent::TickStarted) => {
            tracker.state = RegionState::Capturing;
            tracker.attempts = 1;
            RegionAction::BeginCapture
        },
        (RegionState::Capturing, RegionEvent::CaptureSucceeded) => {
            tracker.state = RegionState::Validating;
            RegionAction::RunValidation
        },
        (RegionState::Capturing, RegionEvent::CaptureFailed) => {
            tracker.state = RegionState::SkipTick;
            RegionAction::SkipRegion
        },
        (RegionState::Validating, RegionEvent::ValidationAccepted) => {
            tracker.state = RegionState::Uploading;
            RegionAction::UploadFrame
        },
        (RegionState::Validating, RegionEvent::ValidationRejected) => {
            if tracker.attempts < config.attempt_cap {
                tracker.state = RegionState::Capturing;
                tracker.attempts = tracker.attempts + 1;
                RegionAction::BeginCapture
            } else {
                match config.policy {
                    ExhaustionPolicy::Skip => {
                        tracker.state = RegionState::SkipTick;
                        RegionAction::SkipRegion
                    },
                    ExhaustionPolicy::AcceptStale => {
                        tracker.state = RegionState::Uploading;
                        RegionAction::ForwardStaleFrame
                    },
                }
            }
        },
        (RegionState::Uploading, RegionEvent::UploadSucceeded) => {
            tracker.state = RegionState::Composited;
            RegionAction::ComposeFrame
        },
        (RegionState::Uploading, RegionEvent::UploadFailed) => {
            tracker.state = RegionState::SkipTick;
            RegionAction::SkipRegion
        },
        (RegionState::Composited, RegionEvent::ComposeCompleted) => {
            tracker.state = RegionState::Idle;
            tracker.attempts = 0;
            RegionAction::AwaitTick
        },
        (RegionState::SkipTick, RegionEvent::TickEnded) => {
            tracker.state = RegionState::Idle;
            tracker.attempts = 0;
            RegionAction::AwaitTick
        },
        _ => RegionAction::AwaitTick,
    }
}

/// An exhausted retry budget resolves in exactly one of the two
/// configured ways — drop the tick's update, or forward the stale frame —
/// never a third behaviour.
pub proof fn lemma_exhaustion_resolution(t: RegionTracker, config: RetryConfig)
    requires
        t.state is Validating,
        t.attempts >= config.attempt_cap,
    ensures
        ({
            let (t2, action) = step_spec(t, RegionEvent::ValidationRejected, config);
            match config.policy {
                ExhaustionPolicy::Skip => t2.state is SkipTick && action
                    is SkipRegion,
                ExhaustionPolicy::AcceptStale => t2.state is Uploading && action
                    is ForwardStaleFrame,
            }
        }),
{
}

/// While attempts remain under the cap, a rejected validation always
/// retries the capture, whatever the exhaustion policy.
pub proof fn lemma_rejection_retries(t: RegionTracker, config: RetryConfig)
    requires
        t.state is Validating,
        t.attempts < config.attempt_cap,
    ensures
        ({
            let (t2, action) = step_spec(t, RegionEvent::ValidationRejected, config);
            t2.state is Capturing && t2.attempts == t.attempts + 1 && action
                is BeginCapture
        }),
{
}

} // verus!
