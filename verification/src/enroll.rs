//! The decisions of face enrollment, as a state machine.
//!
//! Enrollment tries up to `DETECT_RETRIES` times to capture a warmed-up
//! frame, find a face in it and compute its embedding; the first embedding
//! is stored as the user's enrolled face. The caller performs each action
//! and reports its outcome; the machine answers with the next action.
use vstd::prelude::*;

verus! {

/// How many frames are tried before enrollment gives up.
pub const DETECT_RETRIES: u32 = 10;

/// How many frames are skipped before each capture, to warm up the camera.
pub const WARMUP_FRAMES: u32 = 5;

/// Where enrollment stands: which outcome it waits for.
#[derive(PartialEq, Eq, Structural, Clone, Copy, Debug)]
pub enum EnrollPhase {
    /// A captured frame.
    AwaitFrame,
    /// A face in the frame.
    AwaitFace,
    /// The embedding of that face.
    AwaitEmbedding,
    /// The storing of the embedding.
    AwaitSave,
    /// Finished, with `outcome`.
    Done,
}

/// How enrollment ended.
#[derive(PartialEq, Eq, Structural, Clone, Copy, Debug)]
pub enum EnrollOutcome {
    /// The embedding was stored.
    Enrolled,
    /// No attempt gave an embedding.
    NoFace,
    /// The embedding could not be stored.
    SaveFailed,
}

/// What the caller is asked to do next.
#[derive(PartialEq, Eq, Structural, Clone, Copy, Debug)]
pub enum EnrollAction {
    /// Capture a frame after skipping `warmup` frames; this is attempt
    /// number `attempt` (from 1).
    CaptureFrame { attempt: u32, warmup: u32 },
    /// Look for a face in the frame.
    DetectFace,
    /// Compute the embedding of the face.
    ComputeEmbedding,
    /// Store the embedding as the user's enrolled face.
    SaveEmbedding,
    /// Stop, with this outcome.
    Finish(EnrollOutcome),
}

/// The outcome of an action.
#[derive(PartialEq, Eq, Structural, Clone, Copy, Debug)]
pub enum EnrollEvent {
    /// The frame was captured, a face was found, the embedding was computed,
    /// or the embedding was stored.
    Succeeded,
    /// The action failed, or no face was found.
    Failed,
}

/// The state of one enrollment.
#[derive(PartialEq, Eq, Structural, Clone, Copy, Debug)]
pub struct EnrollFlow {
    pub phase: EnrollPhase,
    /// The number of the current attempt, from 1.
    pub attempt: u32,
    /// How enrollment ended, once `phase` is `Done`.
    pub outcome: EnrollOutcome,
}

/// Finishes with `outcome`.
pub open spec fn enroll_finish(f: EnrollFlow, outcome: EnrollOutcome) -> (EnrollFlow, EnrollAction) {
    (EnrollFlow { phase: EnrollPhase::Done, outcome, ..f }, EnrollAction::Finish(outcome))
}

/// Starts the next attempt, or gives up with `NoFace` after
/// `DETECT_RETRIES` attempts.
pub open spec fn enroll_retry(f: EnrollFlow) -> (EnrollFlow, EnrollAction) {
    if f.attempt < DETECT_RETRIES {
        (
            EnrollFlow { phase: EnrollPhase::AwaitFrame, attempt: (f.attempt + 1) as u32, ..f },
            EnrollAction::CaptureFrame { attempt: (f.attempt + 1) as u32, warmup: WARMUP_FRAMES },
        )
    } else {
        enroll_finish(f, EnrollOutcome::NoFace)
    }
}

/// On success moves to `phase` asking for `action`; otherwise tries again.
pub open spec fn enroll_advance(
    f: EnrollFlow,
    e: EnrollEvent,
    phase: EnrollPhase,
    action: EnrollAction,
) -> (EnrollFlow, EnrollAction) {
    if e is Succeeded {
        (EnrollFlow { phase, ..f }, action)
    } else {
        enroll_retry(f)
    }
}

/// The first state and action of an enrollment: the first capture.
pub open spec fn enroll_start() -> (EnrollFlow, EnrollAction) {
    (
        EnrollFlow { phase: EnrollPhase::AwaitFrame, attempt: 1, outcome: EnrollOutcome::NoFace },
        EnrollAction::CaptureFrame { attempt: 1, warmup: WARMUP_FRAMES },
    )
}

/// The next state and action after event `e` in state `f`.
pub open spec fn enroll_next(f: EnrollFlow, e: EnrollEvent) -> (EnrollFlow, EnrollAction) {
    match f.phase {
        EnrollPhase::AwaitFrame => enroll_advance(
            f,
            e,
            EnrollPhase::AwaitFace,
            EnrollAction::DetectFace,
        ),
        EnrollPhase::AwaitFace => enroll_advance(
            f,
            e,
            EnrollPhase::AwaitEmbedding,
            EnrollAction::ComputeEmbedding,
        ),
        EnrollPhase::AwaitEmbedding => enroll_advance(
            f,
            e,
            EnrollPhase::AwaitSave,
            EnrollAction::SaveEmbedding,
        ),
        EnrollPhase::AwaitSave => if e is Succeeded {
            enroll_finish(f, EnrollOutcome::Enrolled)
        } else {
            enroll_finish(f, EnrollOutcome::SaveFailed)
        },
        EnrollPhase::Done => (f, EnrollAction::Finish(f.outcome)),
    }
}

impl EnrollFlow {
    /// Starts an enrollment: the first attempt captures a frame after
    /// `WARMUP_FRAMES` warm-up frames.
    pub fn start() -> (r: (EnrollFlow, EnrollAction))
        ensures
            r == enroll_start(),
    {
        (
            EnrollFlow { phase: EnrollPhase::AwaitFrame, attempt: 1, outcome: EnrollOutcome::NoFace },
            EnrollAction::CaptureFrame { attempt: 1, warmup: WARMUP_FRAMES },
        )
    }

    fn finish(&mut self, outcome: EnrollOutcome) -> (a: EnrollAction)
        ensures
            (*final(self), a) == enroll_finish(*old(self), outcome),
    {
        self.phase = EnrollPhase::Done;
        self.outcome = outcome;
        EnrollAction::Finish(outcome)
    }

    fn retry(&mut self) -> (a: EnrollAction)
        ensures
            (*final(self), a) == enroll_retry(*old(self)),
    {
        if self.attempt < DETECT_RETRIES {
            self.attempt = self.attempt + 1;
            self.phase = EnrollPhase::AwaitFrame;
            EnrollAction::CaptureFrame { attempt: self.attempt, warmup: WARMUP_FRAMES }
        } else {
            self.finish(EnrollOutcome::NoFace)
        }
    }

    fn advance(&mut self, e: EnrollEvent, phase: EnrollPhase, action: EnrollAction) -> (a:
        EnrollAction)
        ensures
            (*final(self), a) == enroll_advance(*old(self), e, phase, action),
    {
        match e {
            EnrollEvent::Succeeded => {
                self.phase = phase;
                action
            },
            EnrollEvent::Failed => self.retry(),
        }
    }

    /// Takes the outcome of the last action and gives the next action.
    pub fn step(&mut self, e: EnrollEvent) -> (a: EnrollAction)
        ensures
            (*final(self), a) == enroll_next(*old(self), e),
    {
        match self.phase {
            EnrollPhase::AwaitFrame => self.advance(
                e,
                EnrollPhase::AwaitFace,
                EnrollAction::DetectFace,
            ),
            EnrollPhase::AwaitFace => self.advance(
                e,
                EnrollPhase::AwaitEmbedding,
                EnrollAction::ComputeEmbedding,
            ),
            EnrollPhase::AwaitEmbedding => self.advance(
                e,
                EnrollPhase::AwaitSave,
                EnrollAction::SaveEmbedding,
            ),
            EnrollPhase::AwaitSave => match e {
                EnrollEvent::Succeeded => self.finish(EnrollOutcome::Enrolled),
                EnrollEvent::Failed => self.finish(EnrollOutcome::SaveFailed),
            },
            EnrollPhase::Done => EnrollAction::Finish(self.outcome),
        }
    }
}

/// The state after the events `es`, from the start.
pub open spec fn enroll_run(es: Seq<EnrollEvent>) -> EnrollFlow
    decreases es.len(),
{
    if es.len() == 0 {
        enroll_start().0
    } else {
        enroll_next(enroll_run(es.drop_last()), es.last()).0
    }
}

/// The action asked for after the events `es` (the first action when there
/// are none).
pub open spec fn enroll_action(es: Seq<EnrollEvent>) -> EnrollAction {
    if es.len() == 0 {
        enroll_start().1
    } else {
        enroll_next(enroll_run(es.drop_last()), es.last()).1
    }
}

/// How many captures are asked for along the events `es`, the first one
/// included.
pub open spec fn enroll_captures(es: Seq<EnrollEvent>) -> nat
    decreases es.len(),
{
    (if enroll_action(es) is CaptureFrame {
        1nat
    } else {
        0nat
    }) + if es.len() == 0 {
        0nat
    } else {
        enroll_captures(es.drop_last())
    }
}

/// How the number of requested captures relates to the attempt counter.
pub open spec fn enroll_count_ok(f: EnrollFlow, c: nat) -> bool {
    &&& 1 <= f.attempt <= DETECT_RETRIES
    &&& !(f.phase is Done) ==> c == f.attempt
    &&& f.phase is Done ==> c <= f.attempt
}

proof fn lemma_enroll_count(es: Seq<EnrollEvent>)
    ensures
        enroll_count_ok(enroll_run(es), enroll_captures(es)),
    decreases es.len(),
{
    if es.len() > 0 {
        lemma_enroll_count(es.drop_last());
    }
}

/// Enrollment asks for at most `DETECT_RETRIES` captures, whatever the
/// events.
pub proof fn lemma_at_most_detect_retries(es: Seq<EnrollEvent>)
    ensures
        enroll_captures(es) <= DETECT_RETRIES,
{
    lemma_enroll_count(es);
}

/// Every capture skips `WARMUP_FRAMES` warm-up frames, and is numbered by
/// its attempt, from 1 to `DETECT_RETRIES`.
pub proof fn lemma_capture_attempts(es: Seq<EnrollEvent>)
    ensures
        enroll_action(es) matches EnrollAction::CaptureFrame { attempt, warmup } ==> warmup
            == WARMUP_FRAMES && 1 <= attempt <= DETECT_RETRIES && attempt == enroll_run(
            es,
        ).attempt,
{
    lemma_enroll_count(es);
    if es.len() > 0 {
        lemma_enroll_count(es.drop_last());
    }
}

/// The save is asked for only right after an embedding was computed: the
/// event before it was a success while the flow waited for the embedding.
pub proof fn lemma_save_after_embedding(es: Seq<EnrollEvent>)
    ensures
        enroll_action(es) is SaveEmbedding ==> es.len() > 0 && enroll_run(es.drop_last()).phase
            is AwaitEmbedding && es.last() is Succeeded,
{
}

/// Enrollment ends as `Enrolled` only when the save succeeded right after an
/// embedding was computed.
pub proof fn lemma_enrolled_after_save(es: Seq<EnrollEvent>)
    ensures
        enroll_action(es) == EnrollAction::Finish(EnrollOutcome::Enrolled) ==> (es.len() > 0
            && (enroll_run(es.drop_last()).phase is AwaitSave && es.last() is Succeeded
            || enroll_run(es.drop_last()).phase is Done && enroll_run(es.drop_last()).outcome
            == EnrollOutcome::Enrolled)),
{
}

/// Every step of an unfinished enrollment brings it closer to its end.
pub proof fn lemma_enroll_progress(f: EnrollFlow, e: EnrollEvent)
    requires
        1 <= f.attempt <= DETECT_RETRIES,
        !(f.phase is Done),
    ensures
        enroll_rank(enroll_next(f, e).0) < enroll_rank(f),
        1 <= enroll_next(f, e).0.attempt <= DETECT_RETRIES,
{
}

/// An upper bound on the number of events before enrollment finishes.
pub open spec fn enroll_rank(f: EnrollFlow) -> int {
    let left = 4 * (DETECT_RETRIES - f.attempt);
    match f.phase {
        EnrollPhase::AwaitFrame => 2 + left + 3,
        EnrollPhase::AwaitFace => 2 + left + 2,
        EnrollPhase::AwaitEmbedding => 2 + left + 1,
        EnrollPhase::AwaitSave => 1,
        EnrollPhase::Done => 0,
    }
}

/// Whether phase `p` is one of the steps of an attempt: capture,
/// detection, embedding.
pub open spec fn attempt_step(p: EnrollPhase) -> bool {
    p is AwaitFrame || p is AwaitFace || p is AwaitEmbedding
}

/// Enrollment starts with attempt 1: a capture after `WARMUP_FRAMES`
/// warm-up frames.
pub proof fn lemma_enroll_starts_with_capture()
    ensures
        enroll_start() == (
            EnrollFlow {
                phase: EnrollPhase::AwaitFrame,
                attempt: 1,
                outcome: EnrollOutcome::NoFace,
            },
            EnrollAction::CaptureFrame { attempt: 1, warmup: 5 },
        ),
{
}

/// An attempt that fails at any step (no frame, no face, no embedding) is
/// followed by the next attempt, a capture after `WARMUP_FRAMES` warm-up
/// frames, while fewer than `DETECT_RETRIES` attempts were made; after the
/// last one, enrollment ends with `NoFace`.
pub proof fn lemma_failed_attempt_retries(f: EnrollFlow)
    requires
        attempt_step(f.phase),
    ensures
        f.attempt < DETECT_RETRIES ==> enroll_next(f, EnrollEvent::Failed) == (
            EnrollFlow {
                phase: EnrollPhase::AwaitFrame,
                attempt: (f.attempt + 1) as u32,
                outcome: f.outcome,
            },
            EnrollAction::CaptureFrame { attempt: (f.attempt + 1) as u32, warmup: 5 },
        ),
        f.attempt >= DETECT_RETRIES ==> enroll_next(f, EnrollEvent::Failed) == (
            EnrollFlow { phase: EnrollPhase::Done, attempt: f.attempt, outcome: EnrollOutcome::NoFace },
            EnrollAction::Finish(EnrollOutcome::NoFace),
        ),
{
}

/// Within an attempt, a captured frame is searched for a face, a found face
/// is embedded, and the first embedding is stored; a stored embedding ends
/// enrollment as `Enrolled`, a failed store as `SaveFailed`.
pub proof fn lemma_attempt_steps_in_order(f: EnrollFlow)
    ensures
        f.phase is AwaitFrame ==> enroll_next(f, EnrollEvent::Succeeded) == (
            EnrollFlow { phase: EnrollPhase::AwaitFace, ..f },
            EnrollAction::DetectFace,
        ),
        f.phase is AwaitFace ==> enroll_next(f, EnrollEvent::Succeeded) == (
            EnrollFlow { phase: EnrollPhase::AwaitEmbedding, ..f },
            EnrollAction::ComputeEmbedding,
        ),
        f.phase is AwaitEmbedding ==> enroll_next(f, EnrollEvent::Succeeded) == (
            EnrollFlow { phase: EnrollPhase::AwaitSave, ..f },
            EnrollAction::SaveEmbedding,
        ),
        f.phase is AwaitSave ==> enroll_next(f, EnrollEvent::Succeeded) == (
            EnrollFlow { phase: EnrollPhase::Done, outcome: EnrollOutcome::Enrolled, ..f },
            EnrollAction::Finish(EnrollOutcome::Enrolled),
        ),
        f.phase is AwaitSave ==> enroll_next(f, EnrollEvent::Failed) == (
            EnrollFlow { phase: EnrollPhase::Done, outcome: EnrollOutcome::SaveFailed, ..f },
            EnrollAction::Finish(EnrollOutcome::SaveFailed),
        ),
        f.phase is Done ==> enroll_next(f, EnrollEvent::Failed) == (f, EnrollAction::Finish(
            f.outcome,
        )) && enroll_next(f, EnrollEvent::Succeeded) == (f, EnrollAction::Finish(f.outcome)),
{
}

} // verus!
