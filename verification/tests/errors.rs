use pam_rustface::error::{CameraError, RustfaceError};
use pam_rustface::pam::{PAM_AUTH_ERR, PAM_IGNORE, PAM_SUCCESS, PAM_USER};

#[test]
fn camera_error_messages() {
    let e = CameraError::Open { path: "/dev/video9".into(), source: "No such device".into() };
    assert_eq!(e.message(), "Failed to open device: /dev/video9 — No such device");
    assert_eq!(
        CameraError::WrongFormat("YUYV".into()).message(),
        "Wrong format: YUYV, expected Y800 or GREY"
    );
    assert_eq!(
        CameraError::FrameConversion.message(),
        "Frame conversion failed — buffer size mismatch"
    );
    assert_eq!(CameraError::FormatSet("x".into()).message(), "Failed to set format: x");
    assert_eq!(CameraError::StreamStart("x".into()).message(), "Failed to start stream: x");
    assert_eq!(CameraError::FrameCapture("x".into()).message(), "Failed to capture frame: x");
}

#[test]
fn rustface_error_messages() {
    assert_eq!(RustfaceError::NoFaceDetected.message(), "No face detected");
    assert_eq!(
        RustfaceError::NoEnrolledFace { username: "bob".into() }.message(),
        "No enrolled face found for user: bob"
    );
    assert_eq!(RustfaceError::OnnxError("m".into()).message(), "ONNX model error: m");
    assert_eq!(
        RustfaceError::StorageRead("eof".into()).message(),
        "Failed to read embedding file: eof"
    );
    assert_eq!(RustfaceError::PamHandle.message(), "PAM handle error");
    assert_eq!(RustfaceError::NoUsername.message(), "Failed to get username");
    assert_eq!(
        RustfaceError::WrongFormat("MJPG".into()).message(),
        "Wrong camera format: MJPG, expected Y800 or GREY"
    );
    assert_eq!(
        RustfaceError::CameraCapture("busy".into()).message(),
        "Failed to capture frame: busy"
    );
}

#[test]
fn camera_error_becomes_camera_open() {
    let e = RustfaceError::from(CameraError::FrameConversion);
    match &e {
        RustfaceError::CameraOpen { path, source } => {
            assert_eq!(path, "");
            assert_eq!(source, "Frame conversion failed — buffer size mismatch");
        }
        other => panic!("unexpected {other:?}"),
    }
    assert_eq!(
        e.message(),
        "Failed to open camera:  — Frame conversion failed — buffer size mismatch"
    );
}

#[test]
fn pam_codes() {
    assert_eq!(PAM_SUCCESS, 0);
    assert_eq!(PAM_AUTH_ERR, 7);
    assert_eq!(PAM_IGNORE, 25);
    assert_eq!(PAM_USER, 2);
}
