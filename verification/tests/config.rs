use pam_rustface::config::Config;

fn parse(args: &[&str]) -> Config {
    let args: Vec<String> = args.iter().map(|s| s.to_string()).collect();
    Config::from_pam_args(&args).unwrap()
}

#[test]
fn config_parses_min_uptime() {
    let cfg = parse(&["min_uptime=120"]);
    assert_eq!(cfg.min_uptime_secs, 120);
}

#[test]
fn config_default_min_uptime_is_zero() {
    let cfg = Config::default();
    assert_eq!(cfg.min_uptime_secs, 0);
}

#[test]
fn config_defaults() {
    let cfg = Config::default();
    assert!(cfg.threshold_args.is_empty());
    assert_eq!(cfg.timeout_secs, 3);
    assert_eq!(cfg.device, "/dev/video2");
    assert!(!cfg.debug);
    assert_eq!(cfg.face_model, "/etc/rustface/models/seeta_fd_frontal_v1.0.bin");
    assert_eq!(cfg.embed_model, "/etc/rustface/models/arcface.onnx");
    assert!(!cfg.auto_detects_camera());
}

#[test]
fn config_device_auto_detects() {
    let cfg = parse(&["device=auto"]);
    assert_eq!(cfg.device, "auto");
    assert!(cfg.auto_detects_camera());
}

#[test]
fn config_no_arguments_is_default() {
    let cfg = parse(&[]);
    let d = Config::default();
    assert_eq!(cfg.timeout_secs, d.timeout_secs);
    assert_eq!(cfg.device, d.device);
    assert_eq!(cfg.min_uptime_secs, d.min_uptime_secs);
}

#[test]
fn config_reads_every_key() {
    let cfg = parse(&[
        "threshold=0.75",
        "timeout=5",
        "device=/dev/video4",
        "debug",
        "face_model=/m/face.bin",
        "embed_model=/m/embed.onnx",
        "min_uptime=60",
    ]);
    assert_eq!(cfg.threshold_args, vec!["0.75".to_string()]);
    assert_eq!(cfg.timeout_secs, 5);
    assert_eq!(cfg.device, "/dev/video4");
    assert!(cfg.debug);
    assert_eq!(cfg.face_model, "/m/face.bin");
    assert_eq!(cfg.embed_model, "/m/embed.onnx");
    assert_eq!(cfg.min_uptime_secs, 60);
    assert!(!cfg.auto_detects_camera());
}

#[test]
fn config_debug_true_sets_debug() {
    assert!(parse(&["debug=true"]).debug);
    assert!(!parse(&["debug=false"]).debug);
    assert!(!parse(&["debugging"]).debug);
}

#[test]
fn config_bad_number_keeps_previous_value() {
    let cfg = parse(&["timeout=7", "timeout=abc", "min_uptime=-5", "timeout="]);
    assert_eq!(cfg.timeout_secs, 7);
    assert_eq!(cfg.min_uptime_secs, 0);
}

#[test]
fn config_later_argument_wins() {
    let cfg = parse(&["device=/dev/video1", "device=/dev/video3", "timeout=+9", "timeout=010"]);
    assert_eq!(cfg.device, "/dev/video3");
    assert_eq!(cfg.timeout_secs, 10);
}

#[test]
fn config_keeps_all_thresholds_in_order() {
    let cfg = parse(&["threshold=0.9", "threshold=oops", "threshold="]);
    assert_eq!(
        cfg.threshold_args,
        vec!["0.9".to_string(), "oops".to_string(), "".to_string()]
    );
}

#[test]
fn config_ignores_unknown_arguments() {
    let cfg = parse(&["verbose", "", "Timeout=9", "DEVICE=x", "timeout = 4"]);
    let d = Config::default();
    assert_eq!(cfg.timeout_secs, d.timeout_secs);
    assert_eq!(cfg.device, d.device);
    assert!(cfg.threshold_args.is_empty());
}

#[test]
fn config_timeout_overflow_is_ignored() {
    let cfg = parse(&["timeout=18446744073709551615", "min_uptime=18446744073709551616"]);
    assert_eq!(cfg.timeout_secs, u64::MAX);
    assert_eq!(cfg.min_uptime_secs, 0);
}
