use paseo_store::codec::{decode_inline_payload, encode_file_payload};
use paseo_store::daemon::{
    choose_login_shell, daemon_update_spawn_failure, daemon_version_spawn_failure,
    interpret_daemon_update_output, interpret_daemon_version_output,
};
use paseo_store::errors::StoreError;
use paseo_store::update::{
    install_outcome_installed, install_outcome_no_update, summarize_update_check, UpdateInfo,
};
use paseo_store::zoom::ZoomLevel;

#[test]
fn encoding_is_real_base64_not_identity() {
    assert_eq!(encode_file_payload(b"hello"), "aGVsbG8=");
    assert_eq!(encode_file_payload(b""), "");
    assert_eq!(encode_file_payload(&[0xff, 0x00, 0x10]), "/wAQ");
}

#[test]
fn decoding_inverts_encoding_and_rejects_garbage() {
    let decoded = decode_inline_payload("aGVsbG8=").expect("valid payload");
    assert_eq!(decoded, b"hello");
    assert!(matches!(
        decode_inline_payload("@@@@"),
        Err(StoreError::MalformedPayload)
    ));
    assert!(matches!(
        decode_inline_payload("aGVsbG8"),
        Err(StoreError::MalformedPayload)
    ));
}

#[test]
fn version_check_trims_successful_output() {
    let r = interpret_daemon_version_output(true, Some(0), "  1.4.2\n", "");
    assert_eq!(r.version.as_deref(), Some("1.4.2"));
    assert!(r.error.is_none());
}

#[test]
fn version_check_reports_empty_output() {
    let r = interpret_daemon_version_output(true, Some(0), " \n", "");
    assert!(r.version.is_none());
    assert_eq!(
        r.error.as_deref(),
        Some("paseo --version returned empty output")
    );
}

#[test]
fn version_check_prefers_stderr_then_exit_code() {
    let r = interpret_daemon_version_output(false, Some(127), "", "command not found\n");
    assert_eq!(r.error.as_deref(), Some("command not found"));

    let silent = interpret_daemon_version_output(false, Some(127), "", "  ");
    assert_eq!(
        silent.error.as_deref(),
        Some("paseo --version exited with code 127")
    );

    let signalled = interpret_daemon_version_output(false, None, "", "");
    assert_eq!(
        signalled.error.as_deref(),
        Some("paseo --version exited with code 1")
    );

    let negative = interpret_daemon_version_output(false, Some(-9), "", "");
    assert_eq!(
        negative.error.as_deref(),
        Some("paseo --version exited with code -9")
    );
}

#[test]
fn update_run_passes_output_through() {
    let r = interpret_daemon_update_output(
        Some(3),
        String::from("out"),
        String::from("err"),
    );
    assert_eq!(r.exit_code, 3);
    assert_eq!(r.stdout, "out");
    assert_eq!(r.stderr, "err");

    let defaulted = interpret_daemon_update_output(None, String::new(), String::new());
    assert_eq!(defaulted.exit_code, 1);
}

#[test]
fn spawn_failures_carry_the_detail() {
    let v = daemon_version_spawn_failure("no such shell");
    assert_eq!(
        v.error.as_deref(),
        Some("Failed to run version check: no such shell")
    );
    let u = daemon_update_spawn_failure("no such shell");
    assert_eq!(u.exit_code, -1);
    assert_eq!(u.stdout, "");
    assert_eq!(
        u.stderr,
        "Failed to run daemon update command: no such shell"
    );
}

#[test]
fn login_shell_falls_back_to_zsh() {
    assert_eq!(choose_login_shell(None), "/bin/zsh");
    assert_eq!(choose_login_shell(Some(String::from("  "))), "/bin/zsh");
    assert_eq!(
        choose_login_shell(Some(String::from(" /bin/bash \n"))),
        "/bin/bash"
    );
}

#[test]
fn update_check_summaries() {
    let none = summarize_update_check(String::from("1.0.0"), None);
    assert!(!none.has_update);
    assert_eq!(none.current_version, "1.0.0");
    assert!(none.latest_version.is_none());

    let some = summarize_update_check(
        String::from("1.0.0"),
        Some(UpdateInfo {
            version: String::from("1.1.0"),
            body: Some(String::from("notes")),
            date: None,
        }),
    );
    assert!(some.has_update);
    assert_eq!(some.latest_version.as_deref(), Some("1.1.0"));
    assert_eq!(some.body.as_deref(), Some("notes"));
    assert!(some.date.is_none());
}

#[test]
fn install_outcomes() {
    let idle = install_outcome_no_update();
    assert!(!idle.installed);
    assert_eq!(idle.message, "No update is currently available.");

    let done = install_outcome_installed(String::from("1.1.0"));
    assert!(done.installed);
    assert_eq!(done.version.as_deref(), Some("1.1.0"));
    assert_eq!(done.message, "Update installed. Restart Paseo to finish applying it.");
}

#[test]
fn zoom_steps_stay_clamped() {
    let mut z = ZoomLevel::new();
    assert_eq!(z.percent(), 100);
    z.zoom_in();
    assert_eq!(z.percent(), 110);
    z.reset();
    assert_eq!(z.percent(), 100);
    for _ in 0..10 {
        z.zoom_out();
    }
    assert_eq!(z.percent(), 50);
    for _ in 0..30 {
        z.zoom_in();
    }
    assert_eq!(z.percent(), 300);
    z.set(12);
    assert_eq!(z.percent(), 50);
    z.set(9999);
    assert_eq!(z.percent(), 300);
    z.set(175);
    assert_eq!(z.percent(), 175);
}
