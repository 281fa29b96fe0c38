use pam_rustface::auth::{AuthAction, AuthEvent, AuthFlow, Phase, MAX_FRAMES};
use pam_rustface::config::Config;
use pam_rustface::pam::{PAM_AUTH_ERR, PAM_IGNORE, PAM_SUCCESS};

use AuthAction::{
    CaptureFrame, CheckDeadline, CheckEnrollment, CompareEmbeddings, ComputeEmbedding, DetectFace,
    Finish, GetUsername, LoadDetector, LoadEmbedder, LoadStoredEmbedding, OpenCamera, ReadUptime,
    SaveUpdatedEmbedding, StartClock,
};
use AuthEvent::{Failed, Succeeded, Uptime};

fn config(min_uptime: u64) -> Config {
    let arg = format!("min_uptime={min_uptime}");
    Config::from_pam_args(&vec![arg]).unwrap()
}

/// Feeds events; returns the actions asked for.
fn drive(flow: &mut AuthFlow, events: &[AuthEvent]) -> Vec<AuthAction> {
    events.iter().map(|e| flow.step(*e)).collect()
}

const SETUP: [AuthEvent; 7] = [
    Succeeded, Succeeded, Succeeded, Succeeded, Succeeded, Succeeded, Succeeded,
];

#[test]
fn successful_authentication() {
    let (mut f, a) = AuthFlow::start(&config(0));
    assert_eq!(a, GetUsername);
    let actions = drive(&mut f, &SETUP);
    assert_eq!(
        actions,
        vec![
            CheckEnrollment,
            LoadStoredEmbedding,
            OpenCamera,
            LoadDetector,
            LoadEmbedder,
            StartClock,
            CheckDeadline
        ]
    );
    let actions = drive(&mut f, &[Succeeded, Succeeded, Succeeded, Succeeded, Succeeded, Failed]);
    assert_eq!(
        actions,
        vec![
            CaptureFrame,
            DetectFace,
            ComputeEmbedding,
            CompareEmbeddings,
            SaveUpdatedEmbedding,
            Finish(PAM_SUCCESS)
        ]
    );
    assert_eq!(f.phase, Phase::Done);
    assert_eq!(f.step(Failed), Finish(PAM_SUCCESS));
}

#[test]
fn not_enrolled_is_ignored() {
    let (mut f, _) = AuthFlow::start(&config(0));
    assert_eq!(drive(&mut f, &[Succeeded, Failed]), vec![CheckEnrollment, Finish(PAM_IGNORE)]);
}

#[test]
fn failures_before_the_loop_are_ignored() {
    for k in 0..7 {
        let (mut f, _) = AuthFlow::start(&config(0));
        let mut events = vec![Succeeded; k];
        events.push(Failed);
        let actions = drive(&mut f, &events);
        assert_eq!(*actions.last().unwrap(), Finish(PAM_IGNORE), "failure at step {k}");
    }
}

#[test]
fn fresh_boot_is_ignored() {
    let (mut f, a) = AuthFlow::start(&config(120));
    assert_eq!(a, ReadUptime);
    assert_eq!(f.step(Uptime(Some(30))), Finish(PAM_IGNORE));

    let (mut f, _) = AuthFlow::start(&config(120));
    assert_eq!(f.step(Uptime(None)), Finish(PAM_IGNORE));

    let (mut f, _) = AuthFlow::start(&config(120));
    assert_eq!(f.step(Uptime(Some(120))), GetUsername);
}

#[test]
fn no_match_within_thirty_frames() {
    let (mut f, _) = AuthFlow::start(&config(0));
    drive(&mut f, &SETUP);
    let mut captures = 0;
    let mut last = CheckDeadline;
    let mut steps = 0;
    while !matches!(last, Finish(_)) {
        let event = match last {
            CheckDeadline => Succeeded,
            CaptureFrame => Succeeded,
            DetectFace => Succeeded,
            ComputeEmbedding => Succeeded,
            CompareEmbeddings => Failed,
            _ => panic!("unexpected {last:?}"),
        };
        if last == CaptureFrame {
            captures += 1;
        }
        last = f.step(event);
        steps += 1;
        assert!(steps < 1000);
    }
    assert_eq!(last, Finish(PAM_IGNORE));
    assert_eq!(captures, MAX_FRAMES);
    assert_eq!(f.frames, 30);
}

#[test]
fn failed_frames_retry_until_limit() {
    let (mut f, _) = AuthFlow::start(&config(0));
    drive(&mut f, &SETUP);
    for _ in 0..29 {
        assert_eq!(drive(&mut f, &[Succeeded, Failed]), vec![CaptureFrame, CheckDeadline]);
    }
    assert_eq!(drive(&mut f, &[Succeeded, Failed]), vec![CaptureFrame, Finish(PAM_IGNORE)]);
}

#[test]
fn deadline_ends_the_loop() {
    let (mut f, _) = AuthFlow::start(&config(0));
    drive(&mut f, &SETUP);
    assert_eq!(f.step(Failed), Finish(PAM_IGNORE));
}

#[test]
fn save_failure_still_succeeds() {
    let (mut f, _) = AuthFlow::start(&config(0));
    drive(&mut f, &SETUP);
    let actions = drive(&mut f, &[Succeeded, Succeeded, Succeeded, Succeeded, Succeeded]);
    assert_eq!(*actions.last().unwrap(), SaveUpdatedEmbedding);
    assert_eq!(f.step(Failed), Finish(PAM_SUCCESS));
}

#[test]
fn never_auth_err_and_always_finishes() {
    // every event sequence from a small alphabet, within bounded length
    let alphabet = [Succeeded, Failed, Uptime(None), Uptime(Some(500))];
    let mut seed: u64 = 12345;
    for _ in 0..2000 {
        let (mut f, mut a) = AuthFlow::start(&config(seed % 3 * 200));
        let mut n = 0;
        while !matches!(a, Finish(_)) {
            seed = seed.wrapping_mul(6364136223846793005).wrapping_add(1442695040888963407);
            let e = alphabet[((seed >> 33) % 4) as usize];
            a = f.step(e);
            n += 1;
            assert!(n <= 10 + 6 * 30 + 9);
        }
        assert_ne!(a, Finish(PAM_AUTH_ERR));
        assert!(a == Finish(PAM_SUCCESS) || a == Finish(PAM_IGNORE));
    }
}
