use pam_rustface::enroll::{
    EnrollAction, EnrollEvent, EnrollFlow, EnrollOutcome, EnrollPhase, DETECT_RETRIES,
    WARMUP_FRAMES,
};

use EnrollAction::{CaptureFrame, ComputeEmbedding, DetectFace, Finish, SaveEmbedding};
use EnrollEvent::{Failed, Succeeded};

#[test]
fn enroll_first_attempt_succeeds() {
    let (mut f, a) = EnrollFlow::start();
    assert_eq!(a, CaptureFrame { attempt: 1, warmup: WARMUP_FRAMES });
    assert_eq!(WARMUP_FRAMES, 5);
    assert_eq!(f.step(Succeeded), DetectFace);
    assert_eq!(f.step(Succeeded), ComputeEmbedding);
    assert_eq!(f.step(Succeeded), SaveEmbedding);
    assert_eq!(f.step(Succeeded), Finish(EnrollOutcome::Enrolled));
    assert_eq!(f.phase, EnrollPhase::Done);
    assert_eq!(f.step(Failed), Finish(EnrollOutcome::Enrolled));
}

#[test]
fn enroll_retries_after_each_kind_of_failure() {
    let (mut f, _) = EnrollFlow::start();
    assert_eq!(f.step(Failed), CaptureFrame { attempt: 2, warmup: 5 });
    assert_eq!(f.step(Succeeded), DetectFace);
    assert_eq!(f.step(Failed), CaptureFrame { attempt: 3, warmup: 5 });
    assert_eq!(f.step(Succeeded), DetectFace);
    assert_eq!(f.step(Succeeded), ComputeEmbedding);
    assert_eq!(f.step(Failed), CaptureFrame { attempt: 4, warmup: 5 });
}

#[test]
fn enroll_gives_up_after_ten_attempts() {
    assert_eq!(DETECT_RETRIES, 10);
    let (mut f, mut a) = EnrollFlow::start();
    let mut captures = 0;
    loop {
        match a {
            CaptureFrame { .. } => captures += 1,
            Finish(outcome) => {
                assert_eq!(outcome, EnrollOutcome::NoFace);
                break;
            }
            other => panic!("unexpected {other:?}"),
        }
        a = f.step(Failed);
    }
    assert_eq!(captures, DETECT_RETRIES);
}

#[test]
fn enroll_save_failure() {
    let (mut f, _) = EnrollFlow::start();
    f.step(Succeeded);
    f.step(Succeeded);
    assert_eq!(f.step(Succeeded), SaveEmbedding);
    assert_eq!(f.step(Failed), Finish(EnrollOutcome::SaveFailed));
}

#[test]
fn enroll_last_attempt_can_still_enroll() {
    let (mut f, _) = EnrollFlow::start();
    for k in 2..=DETECT_RETRIES {
        assert_eq!(f.step(Failed), CaptureFrame { attempt: k, warmup: 5 });
    }
    assert_eq!(f.step(Succeeded), DetectFace);
    assert_eq!(f.step(Succeeded), ComputeEmbedding);
    assert_eq!(f.step(Succeeded), SaveEmbedding);
    assert_eq!(f.step(Succeeded), Finish(EnrollOutcome::Enrolled));
}
