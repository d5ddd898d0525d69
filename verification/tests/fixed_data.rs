use companion_launcher::config::{
    health_endpoint, is_success_status, poll_interval_secs, spawn_args, window_config,
    POLL_INTERVAL_SECS,
};
use companion_launcher::paths::{backend_dir_path, entry_module_path, join, OsFamily};

#[test]
fn join_appends_with_family_separator() {
    assert_eq!(join("/proj", "backend", OsFamily::Unix), "/proj/backend");
    assert_eq!(join("C:\\proj", "backend", OsFamily::Windows), "C:\\proj\\backend");
}

#[test]
fn entry_module_path_under_candidate_root() {
    assert_eq!(entry_module_path("/proj", OsFamily::Unix), "/proj/backend/main.py");
    assert_eq!(
        entry_module_path("C:\\proj", OsFamily::Windows),
        "C:\\proj\\backend\\main.py"
    );
}

#[test]
fn backend_dir_under_candidate_root() {
    assert_eq!(backend_dir_path("/proj", OsFamily::Unix), "/proj/backend");
    assert_eq!(backend_dir_path("C:\\proj", OsFamily::Windows), "C:\\proj\\backend");
}

#[test]
fn poll_cadence_is_one_second_flat() {
    assert_eq!(POLL_INTERVAL_SECS, 1);
    assert_eq!(poll_interval_secs(), 1);
}

#[test]
fn success_class_is_exactly_the_2xx_band() {
    assert!(is_success_status(200));
    assert!(is_success_status(204));
    assert!(is_success_status(299));
    assert!(!is_success_status(199));
    assert!(!is_success_status(300));
    assert!(!is_success_status(404));
    assert!(!is_success_status(500));
}

#[test]
fn liveness_endpoint_is_the_fixed_local_one() {
    assert_eq!(health_endpoint(), "http://localhost:8000/api/voice/status");
}

#[test]
fn spawn_arguments_select_module_invocation() {
    let args = spawn_args();
    assert_eq!(args, vec!["-m".to_string(), "backend.main".to_string()]);
}

#[test]
fn window_is_fixed_square_undecorated_topmost() {
    let w = window_config();
    assert_eq!(w.width, 460);
    assert_eq!(w.height, 460);
    assert_eq!(w.width, w.height);
    assert!(!w.decorations);
    assert!(!w.shadow);
    assert!(w.always_on_top);
    assert!(w.skip_taskbar);
}
