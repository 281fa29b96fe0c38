use pam_rustface::camera::{camera_candidates, is_grayscale8, sort_paths, video_device_path, DEFAULT_DEVICE};
use pam_rustface::face::{clamp_face_box, FaceBox, InferenceDevice};

#[test]
fn grayscale_codes() {
    assert!(is_grayscale8(*b"Y800"));
    assert!(is_grayscale8(*b"GREY"));
    assert!(!is_grayscale8(*b"YUYV"));
    assert!(!is_grayscale8(*b"MJPG"));
    assert!(!is_grayscale8(*b"Y8 0"));
}

#[test]
fn candidates_in_lexicographic_order() {
    let c = camera_candidates();
    let mut expected: Vec<String> = (0..16).map(|i| format!("/dev/video{i}")).collect();
    expected.sort();
    assert_eq!(c, expected);
    assert_eq!(c[2], "/dev/video10");
    assert_eq!(DEFAULT_DEVICE, "/dev/video2");
    assert_eq!(video_device_path(7), "/dev/video7");
}

#[test]
fn sort_paths_matches_std_sort() {
    let v: Vec<String> = ["b", "a", "ab", "", "ba", "a", "Z", "é"]
        .iter()
        .map(|s| s.to_string())
        .collect();
    let mut expected = v.clone();
    expected.sort();
    assert_eq!(sort_paths(v), expected);
}

#[test]
fn clamp_inside_frame_unchanged() {
    assert_eq!(
        clamp_face_box(10, 20, 100, 80, 640, 360),
        FaceBox { x: 10, y: 20, width: 100, height: 80 }
    );
}

#[test]
fn clamp_negative_start_and_overflow() {
    let b = clamp_face_box(-15, -3, 100, 400, 640, 360);
    assert_eq!(b, FaceBox { x: 0, y: 0, width: 100, height: 360 });
    let b = clamp_face_box(600, 300, 100, 100, 640, 360);
    assert_eq!(b, FaceBox { x: 600, y: 300, width: 40, height: 60 });
    let b = clamp_face_box(700, 400, 50, 50, 640, 360);
    assert_eq!(b, FaceBox { x: 700, y: 400, width: 0, height: 0 });
}

#[test]
fn device_choice() {
    assert_eq!(InferenceDevice::best_available(), InferenceDevice::Cpu);
    assert_eq!(InferenceDevice::select(true, true), InferenceDevice::Npu);
    assert_eq!(InferenceDevice::select(false, true), InferenceDevice::Gpu);
    assert_eq!(InferenceDevice::select(false, false), InferenceDevice::Cpu);
    assert_eq!(InferenceDevice::Npu.device_type(), "NPU");
    assert_eq!(InferenceDevice::Gpu.device_type(), "GPU");
    assert_eq!(InferenceDevice::Cpu.device_type(), "CPU");
}
