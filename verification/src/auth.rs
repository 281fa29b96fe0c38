//! The decisions of one face authentication, as a state machine.
//!
//! The caller performs each action (reading the uptime, asking PAM for the
//! user, opening the camera, capturing a frame, ...) and reports its outcome
//! as an event; the machine answers with the next action, until it finishes
//! with a PAM code. Every failure finishes with `PAM_IGNORE`, so that PAM
//! falls through to the next method (the password); only a face whose
//! embedding matches the enrolled one finishes with `PAM_SUCCESS`.
use vstd::prelude::*;

use crate::config::Config;
use crate::pam::{PAM_IGNORE, PAM_SUCCESS};

verus! {

/// How many frames are tried before giving up.
pub const MAX_FRAMES: u32 = 30;

/// Where the authentication stands: which outcome it waits for.
#[derive(PartialEq, Eq, Structural, Clone, Copy, Debug)]
pub enum Phase {
    /// The system uptime (only when a minimum uptime is set).
    AwaitUptime,
    /// The user name from PAM.
    AwaitUsername,
    /// Whether the user has an enrolled face.
    AwaitEnrollment,
    /// The enrolled embedding.
    AwaitStoredEmbedding,
    /// The camera.
    AwaitCamera,
    /// The face detector.
    AwaitDetector,
    /// The face embedder.
    AwaitEmbedder,
    /// The start of the clock that bounds the capture loop.
    AwaitClock,
    /// Whether the deadline has not yet passed, at the start of a frame.
    AwaitDeadline,
    /// A captured frame.
    AwaitFrame,
    /// A face in the frame.
    AwaitFace,
    /// The embedding of that face.
    AwaitEmbedding,
    /// Whether that embedding matches the enrolled one.
    AwaitComparison,
    /// The storing of the updated embedding (whose outcome does not matter).
    AwaitSave,
    /// Finished, with `result`.
    Done,
}

/// What the caller is asked to do next.
#[derive(PartialEq, Eq, Structural, Clone, Copy, Debug)]
pub enum AuthAction {
    /// Read the seconds since boot; report `Uptime`.
    ReadUptime,
    /// Ask PAM for the user name.
    GetUsername,
    /// Check that the user has an enrolled face.
    CheckEnrollment,
    /// Load the user's enrolled embedding.
    LoadStoredEmbedding,
    /// Open the camera (see `Config::auto_detects_camera`).
    OpenCamera,
    /// Load the face detector.
    LoadDetector,
    /// Load the face embedder.
    LoadEmbedder,
    /// Set the deadline `timeout_secs` from now.
    StartClock,
    /// Check that the deadline has not passed.
    CheckDeadline,
    /// Capture a frame.
    CaptureFrame,
    /// Look for a face in the frame.
    DetectFace,
    /// Compute the embedding of the face.
    ComputeEmbedding,
    /// Compare the live embedding with the enrolled one against the threshold.
    CompareEmbeddings,
    /// Blend the live embedding into the enrolled one and store the result.
    SaveUpdatedEmbedding,
    /// Return this PAM code.
    Finish(i32),
}

/// The outcome of an action.
#[derive(PartialEq, Eq, Structural, Clone, Copy, Debug)]
pub enum AuthEvent {
    /// The seconds since boot, or `None` when they could not be read.
    Uptime(Option<u64>),
    /// The action succeeded: the user name was found, the user is enrolled,
    /// the item was loaded or opened, the clock was started, the deadline has
    /// not passed, a frame was captured, a face was found, the embedding was
    /// computed, the embeddings match, or the embedding was stored.
    Succeeded,
    /// The action failed, or its answer was "no".
    Failed,
}

/// The state of one authentication.
#[derive(PartialEq, Eq, Structural, Clone, Copy, Debug)]
pub struct AuthFlow {
    pub phase: Phase,
    /// How many frames the capture loop has started.
    pub frames: u32,
    /// The minimum uptime in seconds; 0 disables the check.
    pub min_uptime_secs: u64,
    /// The PAM code, once `phase` is `Done`.
    pub result: i32,
}

/// Moves to `phase` and asks for `action`.
pub open spec fn go(f: AuthFlow, phase: Phase, action: AuthAction) -> (AuthFlow, AuthAction) {
    (AuthFlow { phase, ..f }, action)
}

/// Finishes with the PAM code `code`.
pub open spec fn finish(f: AuthFlow, code: i32) -> (AuthFlow, AuthAction) {
    (AuthFlow { phase: Phase::Done, result: code, ..f }, AuthAction::Finish(code))
}

/// Starts the next frame of the capture loop, or gives up when
/// `MAX_FRAMES` frames have been started.
pub open spec fn next_frame(f: AuthFlow) -> (AuthFlow, AuthAction) {
    if f.frames < MAX_FRAMES {
        (
            AuthFlow { phase: Phase::AwaitDeadline, frames: (f.frames + 1) as u32, ..f },
            AuthAction::CheckDeadline,
        )
    } else {
        finish(f, PAM_IGNORE)
    }
}

/// On success moves to `phase` asking for `action`; otherwise finishes with
/// `PAM_IGNORE`.
pub open spec fn on_success(f: AuthFlow, e: AuthEvent, phase: Phase, action: AuthAction) -> (
    AuthFlow,
    AuthAction,
) {
    if e is Succeeded {
        go(f, phase, action)
    } else {
        finish(f, PAM_IGNORE)
    }
}

/// On success moves to `phase` asking for `action`; otherwise goes on with
/// the next frame.
pub open spec fn in_frame(f: AuthFlow, e: AuthEvent, phase: Phase, action: AuthAction) -> (
    AuthFlow,
    AuthAction,
) {
    if e is Succeeded {
        go(f, phase, action)
    } else {
        next_frame(f)
    }
}

/// The first state and action of an authentication with minimum uptime
/// `min_uptime_secs`.
pub open spec fn start_flow(min_uptime_secs: u64) -> (AuthFlow, AuthAction) {
    let f = AuthFlow {
        phase: Phase::AwaitUptime,
        frames: 0,
        min_uptime_secs,
        result: PAM_IGNORE,
    };
    if min_uptime_secs > 0 {
        (f, AuthAction::ReadUptime)
    } else {
        go(f, Phase::AwaitUsername, AuthAction::GetUsername)
    }
}

/// The next state and action after event `e` in state `f`.
pub open spec fn next_step(f: AuthFlow, e: AuthEvent) -> (AuthFlow, AuthAction) {
    match f.phase {
        Phase::AwaitUptime => match e {
            AuthEvent::Uptime(Some(up)) => if up < f.min_uptime_secs {
                finish(f, PAM_IGNORE)
            } else {
                go(f, Phase::AwaitUsername, AuthAction::GetUsername)
            },
            _ => finish(f, PAM_IGNORE),
        },
        Phase::AwaitUsername => on_success(
            f,
            e,
            Phase::AwaitEnrollment,
            AuthAction::CheckEnrollment,
        ),
        Phase::AwaitEnrollment => on_success(
            f,
            e,
            Phase::AwaitStoredEmbedding,
            AuthAction::LoadStoredEmbedding,
        ),
        Phase::AwaitStoredEmbedding => on_success(
            f,
            e,
            Phase::AwaitCamera,
            AuthAction::OpenCamera,
        ),
        Phase::AwaitCamera => on_success(f, e, Phase::AwaitDetector, AuthAction::LoadDetector),
        Phase::AwaitDetector => on_success(f, e, Phase::AwaitEmbedder, AuthAction::LoadEmbedder),
        Phase::AwaitEmbedder => on_success(f, e, Phase::AwaitClock, AuthAction::StartClock),
        Phase::AwaitClock => if e is Succeeded {
            next_frame(f)
        } else {
            finish(f, PAM_IGNORE)
        },
        Phase::AwaitDeadline => on_success(f, e, Phase::AwaitFrame, AuthAction::CaptureFrame),
        Phase::AwaitFrame => in_frame(f, e, Phase::AwaitFace, AuthAction::DetectFace),
        Phase::AwaitFace => in_frame(f, e, Phase::AwaitEmbedding, AuthAction::ComputeEmbedding),
        Phase::AwaitEmbedding => in_frame(
            f,
            e,
            Phase::AwaitComparison,
            AuthAction::CompareEmbeddings,
        ),
        Phase::AwaitComparison => in_frame(
            f,
            e,
            Phase::AwaitSave,
            AuthAction::SaveUpdatedEmbedding,
        ),
        Phase::AwaitSave => finish(f, PAM_SUCCESS),
        Phase::Done => (f, AuthAction::Finish(f.result)),
    }
}

impl AuthFlow {
    /// Starts an authentication with the given settings: with a minimum
    /// uptime it first asks for the uptime, otherwise for the user name.
    pub fn start(config: &Config) -> (res: (AuthFlow, AuthAction))
        ensures
            res == start_flow(config.min_uptime_secs),
    {
        let f = AuthFlow {
            phase: Phase::AwaitUptime,
            frames: 0,
            min_uptime_secs: config.min_uptime_secs,
            result: PAM_IGNORE,
        };
        if config.min_uptime_secs > 0 {
            (f, AuthAction::ReadUptime)
        } else {
            (AuthFlow { phase: Phase::AwaitUsername, ..f }, AuthAction::GetUsername)
        }
    }

    fn go(&mut self, phase: Phase, action: AuthAction) -> (a: AuthAction)
        ensures
            (*final(self), a) == go(*old(self), phase, action),
    {
        self.phase = phase;
        action
    }

    fn finish(&mut self, code: i32) -> (a: AuthAction)
        ensures
            (*final(self), a) == finish(*old(self), code),
    {
        self.phase = Phase::Done;
        self.result = code;
        AuthAction::Finish(code)
    }

    fn next_frame(&mut self) -> (a: AuthAction)
        ensures
            (*final(self), a) == next_frame(*old(self)),
    {
        if self.frames < MAX_FRAMES {
            self.frames = self.frames + 1;
            self.phase = Phase::AwaitDeadline;
            AuthAction::CheckDeadline
        } else {
            self.finish(PAM_IGNORE)
        }
    }

    fn on_success(&mut self, e: AuthEvent, phase: Phase, action: AuthAction) -> (a: AuthAction)
        ensures
            (*final(self), a) == on_success(*old(self), e, phase, action),
    {
        match e {
            AuthEvent::Succeeded => self.go(phase, action),
            _ => self.finish(PAM_IGNORE),
        }
    }

    fn in_frame(&mut self, e: AuthEvent, phase: Phase, action: AuthAction) -> (a: AuthAction)
        ensures
            (*final(self), a) == in_frame(*old(self), e, phase, action),
    {
        match e {
            AuthEvent::Succeeded => self.go(phase, action),
            _ => self.next_frame(),
        }
    }

    /// Takes the outcome of the last action and gives the next action.
    pub fn step(&mut self, e: AuthEvent) -> (a: AuthAction)
        ensures
            (*final(self), a) == next_step(*old(self), e),
    {
        match self.phase {
            Phase::AwaitUptime => match e {
                AuthEvent::Uptime(Some(up)) => {
                    if up < self.min_uptime_secs {
                        self.finish(PAM_IGNORE)
                    } else {
                        self.go(Phase::AwaitUsername, AuthAction::GetUsername)
                    }
                },
                _ => self.finish(PAM_IGNORE),
            },
            Phase::AwaitUsername => self.on_success(
                e,
                Phase::AwaitEnrollment,
                AuthAction::CheckEnrollment,
            ),
            Phase::AwaitEnrollment => self.on_success(
                e,
                Phase::AwaitStoredEmbedding,
                AuthAction::LoadStoredEmbedding,
            ),
            Phase::AwaitStoredEmbedding => self.on_success(
                e,
                Phase::AwaitCamera,
                AuthAction::OpenCamera,
            ),
            Phase::AwaitCamera => self.on_success(
                e,
                Phase::AwaitDetector,
                AuthAction::LoadDetector,
            ),
            Phase::AwaitDetector => self.on_success(
                e,
                Phase::AwaitEmbedder,
                AuthAction::LoadEmbedder,
            ),
            Phase::AwaitEmbedder => self.on_success(e, Phase::AwaitClock, AuthAction::StartClock),
            Phase::AwaitClock => match e {
                AuthEvent::Succeeded => self.next_frame(),
                _ => self.finish(PAM_IGNORE),
            },
            Phase::AwaitDeadline => self.on_success(e, Phase::AwaitFrame, AuthAction::CaptureFrame),
            Phase::AwaitFrame => self.in_frame(e, Phase::AwaitFace, AuthAction::DetectFace),
            Phase::AwaitFace => self.in_frame(
                e,
                Phase::AwaitEmbedding,
                AuthAction::ComputeEmbedding,
            ),
            Phase::AwaitEmbedding => self.in_frame(
                e,
                Phase::AwaitComparison,
                AuthAction::CompareEmbeddings,
            ),
            Phase::AwaitComparison => self.in_frame(
                e,
                Phase::AwaitSave,
                AuthAction::SaveUpdatedEmbedding,
            ),
            Phase::AwaitSave => self.finish(PAM_SUCCESS),
            Phase::Done => AuthAction::Finish(self.result),
        }
    }
}

/// Whether the capture loop is under way in phase `p`.
pub open spec fn in_loop(p: Phase) -> bool {
    p is AwaitDeadline || p is AwaitFrame || p is AwaitFace || p is AwaitEmbedding
        || p is AwaitComparison || p is AwaitSave
}

/// Whether phase `p` comes before the capture loop.
pub open spec fn before_loop(p: Phase) -> bool {
    p is AwaitUptime || p is AwaitUsername || p is AwaitEnrollment || p is AwaitStoredEmbedding
        || p is AwaitCamera || p is AwaitDetector || p is AwaitEmbedder || p is AwaitClock
}

/// The states that an authentication can be in.
pub open spec fn reachable(f: AuthFlow) -> bool {
    &&& f.frames <= MAX_FRAMES
    &&& f.result == PAM_SUCCESS || f.result == PAM_IGNORE
    &&& in_loop(f.phase) ==> f.frames >= 1
    &&& before_loop(f.phase) ==> f.frames == 0
}

/// The state after the events `es`, from state `f`.
pub open spec fn run(f: AuthFlow, es: Seq<AuthEvent>) -> AuthFlow
    decreases es.len(),
{
    if es.len() == 0 {
        f
    } else {
        next_step(run(f, es.drop_last()), es.last()).0
    }
}

/// How many frames the caller is asked to capture along the events `es`,
/// from state `f`.
pub open spec fn captures(f: AuthFlow, es: Seq<AuthEvent>) -> nat
    decreases es.len(),
{
    if es.len() == 0 {
        0
    } else {
        captures(f, es.drop_last()) + if next_step(run(f, es.drop_last()), es.last()).1
            is CaptureFrame {
            1nat
        } else {
            0nat
        }
    }
}

/// The `i`-th event is a successful comparison of the live embedding with
/// the enrolled one.
pub open spec fn matched_at(f: AuthFlow, es: Seq<AuthEvent>, i: int) -> bool {
    &&& run(f, es.take(i)).phase is AwaitComparison
    &&& es[i] is Succeeded
}

/// An upper bound on the number of events before the authentication finishes.
pub open spec fn rank(f: AuthFlow) -> int {
    let loop_left = 6 * (MAX_FRAMES - f.frames);
    match f.phase {
        Phase::AwaitUptime => 10 + 6 * MAX_FRAMES + 8,
        Phase::AwaitUsername => 10 + 6 * MAX_FRAMES + 7,
        Phase::AwaitEnrollment => 10 + 6 * MAX_FRAMES + 6,
        Phase::AwaitStoredEmbedding => 10 + 6 * MAX_FRAMES + 5,
        Phase::AwaitCamera => 10 + 6 * MAX_FRAMES + 4,
        Phase::AwaitDetector => 10 + 6 * MAX_FRAMES + 3,
        Phase::AwaitEmbedder => 10 + 6 * MAX_FRAMES + 2,
        Phase::AwaitClock => 10 + 6 * MAX_FRAMES + 1,
        Phase::AwaitDeadline => 2 + loop_left + 5,
        Phase::AwaitFrame => 2 + loop_left + 4,
        Phase::AwaitFace => 2 + loop_left + 3,
        Phase::AwaitEmbedding => 2 + loop_left + 2,
        Phase::AwaitComparison => 2 + loop_left + 1,
        Phase::AwaitSave => 1,
        Phase::Done => 0,
    }
}

/// An authentication starts in a reachable state.
pub proof fn lemma_start_reachable(min_uptime_secs: u64)
    ensures
        reachable(start_flow(min_uptime_secs).0),
        !(start_flow(min_uptime_secs).1 is Finish),
{
}

/// Every step keeps the state reachable, and the module only ever finishes
/// with `PAM_SUCCESS` or `PAM_IGNORE`: never with `PAM_AUTH_ERR`, so a failed
/// face check never counts against the user.
pub proof fn lemma_only_success_or_ignore(f: AuthFlow, e: AuthEvent)
    requires
        reachable(f),
    ensures
        reachable(next_step(f, e).0),
        next_step(f, e).1 matches AuthAction::Finish(code) ==> (code == PAM_SUCCESS || code
            == PAM_IGNORE),
        next_step(f, e).1 != AuthAction::Finish(crate::pam::PAM_AUTH_ERR),
{
}

/// Every step of an unfinished authentication brings it closer to its end:
/// an authentication finishes after at most `rank` events.
pub proof fn lemma_progress(f: AuthFlow, e: AuthEvent)
    requires
        reachable(f),
        !(f.phase is Done),
    ensures
        0 <= rank(next_step(f, e).0) < rank(f),
{
}

/// Once finished, an authentication stays finished with the same code and
/// asks for nothing but that code.
pub proof fn lemma_done_is_final(f: AuthFlow, e: AuthEvent)
    requires
        f.phase is Done,
    ensures
        next_step(f, e) == (f, AuthAction::Finish(f.result)),
{
}

/// With a minimum uptime set, an uptime that cannot be read, or one below the
/// minimum (a fresh boot), finishes with `PAM_IGNORE` before anything else.
pub proof fn lemma_fresh_boot_ignored(min_uptime_secs: u64, uptime: Option<u64>)
    requires
        min_uptime_secs > 0,
        uptime is None || uptime->Some_0 < min_uptime_secs,
    ensures
        start_flow(min_uptime_secs).1 == AuthAction::ReadUptime,
        next_step(start_flow(min_uptime_secs).0, AuthEvent::Uptime(uptime)).1
            == AuthAction::Finish(PAM_IGNORE),
{
}

/// The module finishes with `PAM_SUCCESS` only after the live embedding of a
/// captured face has been compared with the enrolled one and matched: for
/// any events, if the authentication has finished with `PAM_SUCCESS`, one of
/// the events was such a match.
pub proof fn lemma_success_requires_match(min_uptime_secs: u64, es: Seq<AuthEvent>)
    ensures
        ({
            let g = run(start_flow(min_uptime_secs).0, es);
            g.phase is Done && g.result == PAM_SUCCESS
        }) ==> exists|i: int|
            0 <= i < es.len() && #[trigger] matched_at(start_flow(min_uptime_secs).0, es, i),
{
    lemma_match_invariant(start_flow(min_uptime_secs).0, es);
}

proof fn lemma_match_invariant(f: AuthFlow, es: Seq<AuthEvent>)
    requires
        f.phase is AwaitUptime || f.phase is AwaitUsername,
        f.result == PAM_IGNORE,
    ensures
        ({
            let g = run(f, es);
            g.phase is AwaitSave || (g.phase is Done && g.result == PAM_SUCCESS)
        }) ==> exists|i: int| 0 <= i < es.len() && #[trigger] matched_at(f, es, i),
    decreases es.len(),
{
    if es.len() > 0 {
        let prev = es.drop_last();
        lemma_match_invariant(f, prev);
        let g0 = run(f, prev);
        let g = run(f, es);
        if g.phase is AwaitSave || (g.phase is Done && g.result == PAM_SUCCESS) {
            if g0.phase is AwaitSave || (g0.phase is Done && g0.result == PAM_SUCCESS) {
                let i = choose|i: int| 0 <= i < prev.len() && #[trigger] matched_at(f, prev, i);
                assert(es.take(i) == prev.take(i));
                assert(matched_at(f, es, i));
            } else {
                let i = prev.len() as int;
                assert(es.take(i) == prev);
                assert(matched_at(f, es, i));
            }
        }
    }
}

/// How the number of requested captures relates to the frame counter.
pub open spec fn capture_count_ok(g: AuthFlow, c: nat) -> bool {
    &&& g.phase is AwaitDeadline ==> c + 1 == g.frames
    &&& (g.phase is AwaitFrame || g.phase is AwaitFace || g.phase is AwaitEmbedding
        || g.phase is AwaitComparison || g.phase is AwaitSave) ==> c == g.frames
    &&& before_loop(g.phase) ==> c == 0
    &&& g.phase is Done ==> c <= g.frames
}

proof fn lemma_capture_invariant(f: AuthFlow, es: Seq<AuthEvent>)
    requires
        reachable(f),
        before_loop(f.phase),
    ensures
        reachable(run(f, es)),
        capture_count_ok(run(f, es), captures(f, es)),
    decreases es.len(),
{
    if es.len() > 0 {
        lemma_capture_invariant(f, es.drop_last());
        lemma_only_success_or_ignore(run(f, es.drop_last()), es.last());
    }
}

/// The caller is asked to capture at most `MAX_FRAMES` frames, whatever the
/// events.
pub proof fn lemma_at_most_max_frames(min_uptime_secs: u64, es: Seq<AuthEvent>)
    ensures
        captures(start_flow(min_uptime_secs).0, es) <= MAX_FRAMES,
{
    lemma_capture_invariant(start_flow(min_uptime_secs).0, es);
}

/// Any failure before the capture loop (no user name, no enrolled face, an
/// unreadable embedding, a camera or model that does not open, a clock that
/// cannot be set) and a passed deadline finish at once with `PAM_IGNORE`.
pub proof fn lemma_setup_failure_ignored(f: AuthFlow)
    requires
        (before_loop(f.phase) && !(f.phase is AwaitUptime)) || f.phase is AwaitDeadline,
    ensures
        next_step(f, AuthEvent::Failed) == finish(f, PAM_IGNORE),
{
}

/// A failure never makes the module succeed: the only step that finishes
/// with `PAM_SUCCESS` on a failed outcome is the one after the updated
/// embedding was to be stored, which comes after a match.
pub proof fn lemma_failure_never_succeeds(f: AuthFlow)
    requires
        reachable(f),
        !(f.phase is AwaitSave),
        !(f.phase is Done),
    ensures
        next_step(f, AuthEvent::Failed).1 != AuthAction::Finish(PAM_SUCCESS),
{
}

/// Whether phase `p` is one of the steps of a frame: capture, detection,
/// embedding, comparison.
pub open spec fn frame_step(p: Phase) -> bool {
    p is AwaitFrame || p is AwaitFace || p is AwaitEmbedding || p is AwaitComparison
}

/// Within the capture loop, a frame that fails at any step (not captured, no
/// face in it, no embedding, or an embedding that does not match) leads to
/// the next frame while fewer than `MAX_FRAMES` frames have been started: the
/// frame counter goes up by one, the settings and code are kept, and the
/// deadline is checked again. A later frame can still authenticate.
pub proof fn lemma_failed_frame_tries_next(f: AuthFlow)
    requires
        frame_step(f.phase),
        f.frames < MAX_FRAMES,
    ensures
        next_step(f, AuthEvent::Failed) == (
            AuthFlow {
                phase: Phase::AwaitDeadline,
                frames: (f.frames + 1) as u32,
                min_uptime_secs: f.min_uptime_secs,
                result: f.result,
            },
            AuthAction::CheckDeadline,
        ),
        next_step(f, AuthEvent::Uptime(None)) == next_step(f, AuthEvent::Failed),
{
}

/// When the last of the `MAX_FRAMES` frames fails at any step, the
/// authentication finishes with `PAM_IGNORE`.
pub proof fn lemma_failed_last_frame_ignored(f: AuthFlow)
    requires
        frame_step(f.phase),
        f.frames == MAX_FRAMES,
    ensures
        next_step(f, AuthEvent::Failed) == (
            AuthFlow {
                phase: Phase::Done,
                frames: f.frames,
                min_uptime_secs: f.min_uptime_secs,
                result: PAM_IGNORE,
            },
            AuthAction::Finish(PAM_IGNORE),
        ),
{
}

/// A frame goes through capture, detection, embedding and comparison in this
/// order, each step asked for after the previous one succeeded; a match asks
/// for the updated embedding to be stored, and then the module succeeds
/// whatever the store answers.
pub proof fn lemma_frame_steps_in_order(f: AuthFlow, e: AuthEvent)
    ensures
        f.phase is AwaitDeadline ==> next_step(f, AuthEvent::Succeeded) == (
            AuthFlow { phase: Phase::AwaitFrame, ..f },
            AuthAction::CaptureFrame,
        ),
        f.phase is AwaitFrame ==> next_step(f, AuthEvent::Succeeded) == (
            AuthFlow { phase: Phase::AwaitFace, ..f },
            AuthAction::DetectFace,
        ),
        f.phase is AwaitFace ==> next_step(f, AuthEvent::Succeeded) == (
            AuthFlow { phase: Phase::AwaitEmbedding, ..f },
            AuthAction::ComputeEmbedding,
        ),
        f.phase is AwaitEmbedding ==> next_step(f, AuthEvent::Succeeded) == (
            AuthFlow { phase: Phase::AwaitComparison, ..f },
            AuthAction::CompareEmbeddings,
        ),
        f.phase is AwaitComparison ==> next_step(f, AuthEvent::Succeeded) == (
            AuthFlow { phase: Phase::AwaitSave, ..f },
            AuthAction::SaveUpdatedEmbedding,
        ),
        f.phase is AwaitSave ==> next_step(f, e) == (
            AuthFlow { phase: Phase::Done, result: PAM_SUCCESS, ..f },
            AuthAction::Finish(PAM_SUCCESS),
        ),
        f.phase is AwaitDeadline ==> next_step(f, AuthEvent::Failed) == (
            AuthFlow { phase: Phase::Done, result: PAM_IGNORE, ..f },
            AuthAction::Finish(PAM_IGNORE),
        ),
{
}

/// Before the capture loop the actions come in this order, each after the
/// previous one succeeded: (uptime, when a minimum is set), user name,
/// enrollment check, enrolled embedding, camera, detector, embedder, clock;
/// the clock starts the first frame.
pub proof fn lemma_setup_steps_in_order(f: AuthFlow, up: u64)
    ensures
        start_flow(0).1 == AuthAction::GetUsername,
        start_flow(0).0.phase == Phase::AwaitUsername,
        f.phase is AwaitUptime && up >= f.min_uptime_secs ==> next_step(
            f,
            AuthEvent::Uptime(Some(up)),
        ) == (AuthFlow { phase: Phase::AwaitUsername, ..f }, AuthAction::GetUsername),
        f.phase is AwaitUsername ==> next_step(f, AuthEvent::Succeeded) == (
            AuthFlow { phase: Phase::AwaitEnrollment, ..f },
            AuthAction::CheckEnrollment,
        ),
        f.phase is AwaitEnrollment ==> next_step(f, AuthEvent::Succeeded) == (
            AuthFlow { phase: Phase::AwaitStoredEmbedding, ..f },
            AuthAction::LoadStoredEmbedding,
        ),
        f.phase is AwaitStoredEmbedding ==> next_step(f, AuthEvent::Succeeded) == (
            AuthFlow { phase: Phase::AwaitCamera, ..f },
            AuthAction::OpenCamera,
        ),
        f.phase is AwaitCamera ==> next_step(f, AuthEvent::Succeeded) == (
            AuthFlow { phase: Phase::AwaitDetector, ..f },
            AuthAction::LoadDetector,
        ),
        f.phase is AwaitDetector ==> next_step(f, AuthEvent::Succeeded) == (
            AuthFlow { phase: Phase::AwaitEmbedder, ..f },
            AuthAction::LoadEmbedder,
        ),
        f.phase is AwaitEmbedder ==> next_step(f, AuthEvent::Succeeded) == (
            AuthFlow { phase: Phase::AwaitClock, ..f },
            AuthAction::StartClock,
        ),
        f.phase is AwaitClock && f.frames == 0 ==> next_step(f, AuthEvent::Succeeded) == (
            AuthFlow { phase: Phase::AwaitDeadline, frames: 1, ..f },
            AuthAction::CheckDeadline,
        ),
{
}

/// An authentication starts with no frame tried and no result yet
/// (`PAM_IGNORE` until it finishes): with a minimum uptime set it first asks
/// for the uptime, otherwise for the user name.
pub proof fn lemma_start_state(min_uptime_secs: u64)
    ensures
        start_flow(min_uptime_secs).0.frames == 0,
        start_flow(min_uptime_secs).0.min_uptime_secs == min_uptime_secs,
        start_flow(min_uptime_secs).0.result == PAM_IGNORE,
        min_uptime_secs > 0 ==> start_flow(min_uptime_secs) == (
            AuthFlow {
                phase: Phase::AwaitUptime,
                frames: 0,
                min_uptime_secs,
                result: PAM_IGNORE,
            },
            AuthAction::ReadUptime,
        ),
        min_uptime_secs == 0 ==> start_flow(min_uptime_secs) == (
            AuthFlow {
                phase: Phase::AwaitUsername,
                frames: 0,
                min_uptime_secs: 0,
                result: PAM_IGNORE,
            },
            AuthAction::GetUsername,
        ),
{
}

} // verus!
