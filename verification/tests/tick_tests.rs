use kg_capture::tick::classify_message;
use kg_capture::tick::step;
use kg_capture::tick::ExhaustionPolicy;
use kg_capture::tick::MessageDecision;
use kg_capture::tick::RegionAction;
use kg_capture::tick::RegionEvent;
use kg_capture::tick::RegionState;
use kg_capture::tick::RegionTracker;
use kg_capture::tick::RetryConfig;
use kg_capture::tick::MSG_DESTROY;

fn config(cap: u32, policy: ExhaustionPolicy) -> RetryConfig {
    RetryConfig {
        attempt_cap: cap,
        policy,
    }
}

#[test]
fn destroy_message_quits_everything_else_is_forwarded() {
    assert_eq!(classify_message(MSG_DESTROY), MessageDecision::QuitProcess);
    assert_eq!(classify_message(0), MessageDecision::ForwardToSystem);
    assert_eq!(classify_message(0x000F), MessageDecision::ForwardToSystem);
}

#[test]
fn accepted_capture_walks_the_full_tick() {
    let cfg = config(3, ExhaustionPolicy::Skip);
    let mut t = RegionTracker::new();
    assert_eq!(t.state, RegionState::Idle);
    assert_eq!(step(&mut t, RegionEvent::TickStarted, &cfg), RegionAction::BeginCapture);
    assert_eq!(t.state, RegionState::Capturing);
    assert_eq!(step(&mut t, RegionEvent::CaptureSucceeded, &cfg), RegionAction::RunValidation);
    assert_eq!(t.state, RegionState::Validating);
    assert_eq!(step(&mut t, RegionEvent::ValidationAccepted, &cfg), RegionAction::UploadFrame);
    assert_eq!(t.state, RegionState::Uploading);
    assert_eq!(step(&mut t, RegionEvent::UploadSucceeded, &cfg), RegionAction::ComposeFrame);
    assert_eq!(t.state, RegionState::Composited);
    assert_eq!(step(&mut t, RegionEvent::ComposeCompleted, &cfg), RegionAction::AwaitTick);
    assert_eq!(t.state, RegionState::Idle);
}

#[test]
fn capture_failure_skips_the_tick() {
    let cfg = config(3, ExhaustionPolicy::Skip);
    let mut t = RegionTracker::new();
    step(&mut t, RegionEvent::TickStarted, &cfg);
    assert_eq!(step(&mut t, RegionEvent::CaptureFailed, &cfg), RegionAction::SkipRegion);
    assert_eq!(t.state, RegionState::SkipTick);
    assert_eq!(step(&mut t, RegionEvent::TickEnded, &cfg), RegionAction::AwaitTick);
    assert_eq!(t.state, RegionState::Idle);
}

#[test]
fn upload_failure_skips_the_tick() {
    let cfg = config(3, ExhaustionPolicy::Skip);
    let mut t = RegionTracker::new();
    step(&mut t, RegionEvent::TickStarted, &cfg);
    step(&mut t, RegionEvent::CaptureSucceeded, &cfg);
    step(&mut t, RegionEvent::ValidationAccepted, &cfg);
    assert_eq!(step(&mut t, RegionEvent::UploadFailed, &cfg), RegionAction::SkipRegion);
    assert_eq!(t.state, RegionState::SkipTick);
}

/// Drives one tick in which every capture validates as rejected, and
/// returns the action the machine resolves the tick with.
fn drive_always_poisoned(cfg: &RetryConfig) -> (RegionTracker, RegionAction, u32) {
    let mut t = RegionTracker::new();
    let mut action = step(&mut t, RegionEvent::TickStarted, cfg);
    let mut rejections: u32 = 0;
    loop {
        match action {
            RegionAction::BeginCapture => {
                action = step(&mut t, RegionEvent::CaptureSucceeded, cfg);
            }
            RegionAction::RunValidation => {
                rejections += 1;
                action = step(&mut t, RegionEvent::ValidationRejected, cfg);
            }
            other => return (t, other, rejections),
        }
    }
}

#[test]
fn poisoned_every_attempt_then_skip_policy_skips() {
    // The validator rejects on every one of the N attempts; the tick
    // resolves exactly per the configured policy, never a third way.
    let cfg = config(3, ExhaustionPolicy::Skip);
    let (t, action, rejections) = drive_always_poisoned(&cfg);
    assert_eq!(rejections, 3, "exactly the attempt cap");
    assert_eq!(action, RegionAction::SkipRegion);
    assert_eq!(t.state, RegionState::SkipTick);
}

#[test]
fn poisoned_every_attempt_then_stale_policy_forwards_stale() {
    let cfg = config(3, ExhaustionPolicy::AcceptStale);
    let (t, action, rejections) = drive_always_poisoned(&cfg);
    assert_eq!(rejections, 3, "exactly the attempt cap");
    assert_eq!(action, RegionAction::ForwardStaleFrame);
    assert_eq!(t.state, RegionState::Uploading);
}

#[test]
fn single_shot_mode_rejects_once_and_skips() {
    let cfg = config(1, ExhaustionPolicy::Skip);
    let (t, action, rejections) = drive_always_poisoned(&cfg);
    assert_eq!(rejections, 1);
    assert_eq!(action, RegionAction::SkipRegion);
    assert_eq!(t.state, RegionState::SkipTick);
}

#[test]
fn rejection_under_the_cap_retries_the_capture() {
    let cfg = config(2, ExhaustionPolicy::Skip);
    let mut t = RegionTracker::new();
    step(&mut t, RegionEvent::TickStarted, &cfg);
    assert_eq!(t.attempts, 1);
    step(&mut t, RegionEvent::CaptureSucceeded, &cfg);
    assert_eq!(step(&mut t, RegionEvent::ValidationRejected, &cfg), RegionAction::BeginCapture);
    assert_eq!(t.state, RegionState::Capturing);
    assert_eq!(t.attempts, 2);
    // The retried capture may validate cleanly and finish the tick.
    step(&mut t, RegionEvent::CaptureSucceeded, &cfg);
    assert_eq!(step(&mut t, RegionEvent::ValidationAccepted, &cfg), RegionAction::UploadFrame);
}

#[test]
fn mismatched_event_changes_nothing() {
    let cfg = config(3, ExhaustionPolicy::Skip);
    let mut t = RegionTracker::new();
    assert_eq!(step(&mut t, RegionEvent::UploadSucceeded, &cfg), RegionAction::AwaitTick);
    assert_eq!(t.state, RegionState::Idle);
    assert_eq!(t.attempts, 0);
}
