//! The error types of the camera and of the library, with their messages.
use vstd::prelude::*;
use vstd::string::*;

verus! {

/// What can go wrong with the IR camera.
#[derive(Debug)]
pub enum CameraError {
    /// The device could not be opened; `source` is the reason.
    Open { path: String, source: String },
    /// The device's format could not be read or set.
    FormatSet(String),
    /// The device does not deliver 8-bit grayscale frames.
    WrongFormat(String),
    /// The capture stream could not be started.
    StreamStart(String),
    /// A frame could not be taken from the stream.
    FrameCapture(String),
    /// The frame buffer is too small for the frame's dimensions.
    FrameConversion,
}

/// What can go wrong in the library.
#[derive(Debug)]
pub enum RustfaceError {
    /// The camera could not be opened; `source` is the reason.
    CameraOpen { path: String, source: String },
    /// A frame could not be captured.
    CameraCapture(String),
    /// The camera does not deliver 8-bit grayscale frames.
    WrongFormat(String),
    /// No face was found in a frame.
    NoFaceDetected,
    /// The user has no enrolled face.
    NoEnrolledFace { username: String },
    /// The embedding file could not be read; the text is the reason.
    StorageRead(String),
    /// A model could not be loaded or run, or a stored embedding is malformed.
    OnnxError(String),
    /// The PAM handle could not be used.
    PamHandle,
    /// The user name could not be found.
    NoUsername,
}

/// The message of a camera error.
pub open spec fn camera_error_text(e: CameraError) -> Seq<char> {
    match e {
        CameraError::Open { path, source } => "Failed to open device: "@ + path@ + " — "@
            + source@,
        CameraError::FormatSet(s) => "Failed to set format: "@ + s@,
        CameraError::WrongFormat(s) => "Wrong format: "@ + s@ + ", expected Y800 or GREY"@,
        CameraError::StreamStart(s) => "Failed to start stream: "@ + s@,
        CameraError::FrameCapture(s) => "Failed to capture frame: "@ + s@,
        CameraError::FrameConversion => "Frame conversion failed — buffer size mismatch"@,
    }
}

/// The message of a library error.
pub open spec fn rustface_error_text(e: RustfaceError) -> Seq<char> {
    match e {
        RustfaceError::CameraOpen { path, source } => "Failed to open camera: "@ + path@
            + " — "@ + source@,
        RustfaceError::CameraCapture(s) => "Failed to capture frame: "@ + s@,
        RustfaceError::WrongFormat(s) => "Wrong camera format: "@ + s@
            + ", expected Y800 or GREY"@,
        RustfaceError::NoFaceDetected => "No face detected"@,
        RustfaceError::NoEnrolledFace { username } => "No enrolled face found for user: "@
            + username@,
        RustfaceError::StorageRead(s) => "Failed to read embedding file: "@ + s@,
        RustfaceError::OnnxError(s) => "ONNX model error: "@ + s@,
        RustfaceError::PamHandle => "PAM handle error"@,
        RustfaceError::NoUsername => "Failed to get username"@,
    }
}

/// `a + b` as a new string.
fn join2(a: &str, b: &str) -> (s: String)
    ensures
        s@ == a@ + b@,
{
    let s = String::from_str(a);
    s.concat(b)
}

/// `a + b + c` as a new string.
fn join3(a: &str, b: &str, c: &str) -> (s: String)
    ensures
        s@ == a@ + b@ + c@,
{
    let s = String::from_str(a);
    let s = s.concat(b);
    s.concat(c)
}

/// `a + b + c + d` as a new string.
fn join4(a: &str, b: &str, c: &str, d: &str) -> (s: String)
    ensures
        s@ == a@ + b@ + c@ + d@,
{
    let s = join3(a, b, c);
    s.concat(d)
}

impl CameraError {
    /// The human-readable message of this error.
    pub fn message(&self) -> (s: String)
        ensures
            s@ == camera_error_text(*self),
    {
        match self {
            CameraError::Open { path, source } => join4(
                "Failed to open device: ",
                path.as_str(),
                " — ",
                source.as_str(),
            ),
            CameraError::FormatSet(s) => join2("Failed to set format: ", s.as_str()),
            CameraError::WrongFormat(s) => join3(
                "Wrong format: ",
                s.as_str(),
                ", expected Y800 or GREY",
            ),
            CameraError::StreamStart(s) => join2("Failed to start stream: ", s.as_str()),
            CameraError::FrameCapture(s) => join2("Failed to capture frame: ", s.as_str()),
            CameraError::FrameConversion => String::from_str(
                "Frame conversion failed — buffer size mismatch",
            ),
        }
    }
}

impl RustfaceError {
    /// The human-readable message of this error.
    pub fn message(&self) -> (s: String)
        ensures
            s@ == rustface_error_text(*self),
    {
        match self {
            RustfaceError::CameraOpen { path, source } => join4(
                "Failed to open camera: ",
                path.as_str(),
                " — ",
                source.as_str(),
            ),
            RustfaceError::CameraCapture(s) => join2("Failed to capture frame: ", s.as_str()),
            RustfaceError::WrongFormat(s) => join3(
                "Wrong camera format: ",
                s.as_str(),
                ", expected Y800 or GREY",
            ),
            RustfaceError::NoFaceDetected => String::from_str("No face detected"),
            RustfaceError::NoEnrolledFace { username } => join2(
                "No enrolled face found for user: ",
                username.as_str(),
            ),
            RustfaceError::StorageRead(s) => join2("Failed to read embedding file: ", s.as_str()),
            RustfaceError::OnnxError(s) => join2("ONNX model error: ", s.as_str()),
            RustfaceError::PamHandle => String::from_str("PAM handle error"),
            RustfaceError::NoUsername => String::from_str("Failed to get username"),
        }
    }

    /// A camera error seen as a library error: a `CameraOpen` with an empty
    /// path whose reason is the camera error's message.
    pub fn from(e: CameraError) -> (r: RustfaceError)
        ensures
            r matches RustfaceError::CameraOpen { path, source } && path@ == Seq::<char>::empty()
                && source@ == camera_error_text(e),
    {
        RustfaceError::CameraOpen { path: String::new(), source: e.message() }
    }
}

} // verus!
