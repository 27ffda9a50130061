use std::path::PathBuf;
use std::time::Duration;

use sui_orchestrator::connection::{
    check_exit_status, execute_from_path, failure, timeout_millis, Step, DEFAULT_TIMEOUT_SECS,
    UPLOAD_MODE,
};
use sui_orchestrator::error::SshError;

#[test]
fn timeout_defaults_to_thirty_seconds() {
    assert_eq!(DEFAULT_TIMEOUT_SECS, 30);
    assert_eq!(timeout_millis(&None), 30_000);
}

#[test]
fn timeout_is_given_in_milliseconds() {
    assert_eq!(timeout_millis(&Some(Duration::from_secs(5))), 5_000);
    assert_eq!(timeout_millis(&Some(Duration::from_millis(1))), 1);
    assert_eq!(timeout_millis(&Some(Duration::from_micros(999))), 0);
    assert_eq!(timeout_millis(&Some(Duration::from_secs(0))), 0);
    assert_eq!(
        timeout_millis(&Some(Duration::from_millis(u32::MAX as u64))),
        u32::MAX
    );
}

#[test]
fn timeout_keeps_the_low_bits_of_a_long_duration() {
    assert_eq!(
        timeout_millis(&Some(Duration::from_millis((1 << 32) + 5))),
        5
    );
    assert_eq!(
        timeout_millis(&Some(Duration::from_secs(u64::MAX))),
        ((u64::MAX as u128 * 1000) % (1 << 32)) as u32
    );
}

#[test]
fn uploads_are_readable_by_all_and_writable_by_the_owner() {
    assert_eq!(UPLOAD_MODE, 0o644);
}

#[test]
fn steps_that_move_data_fail_the_connection() {
    for step in [
        Step::Connect,
        Step::ReadOutput,
        Step::ReadErrors,
        Step::WriteUpload,
        Step::ReadDownload,
    ] {
        assert_eq!(
            failure("10.0.0.1:22".to_string(), step, "broken pipe".to_string()),
            SshError::ConnectionError {
                address: "10.0.0.1:22".to_string(),
                error: "broken pipe".to_string(),
            }
        );
    }
}

#[test]
fn other_steps_fail_the_session() {
    for step in [
        Step::StartSession,
        Step::Handshake,
        Step::Authenticate,
        Step::OpenChannel,
        Step::Execute,
        Step::CloseChannel,
        Step::AwaitClose,
        Step::ReadExitStatus,
        Step::OpenUpload,
        Step::OpenDownload,
    ] {
        assert_eq!(
            failure("10.0.0.1:22".to_string(), step, "denied".to_string()),
            SshError::SessionError {
                address: "10.0.0.1:22".to_string(),
                error: "denied".to_string(),
            }
        );
    }
}

#[test]
fn exit_status_zero_gives_the_output() {
    assert_eq!(
        check_exit_status(
            "10.0.0.1:22".to_string(),
            ("out".to_string(), "warnings".to_string()),
            0
        ),
        Ok(("out".to_string(), "warnings".to_string()))
    );
}

#[test]
fn other_exit_status_gives_the_code_and_the_errors() {
    for code in [1, 2, 127, 255, -1, i32::MAX, i32::MIN] {
        assert_eq!(
            check_exit_status(
                "10.0.0.1:22".to_string(),
                ("out".to_string(), "no such file".to_string()),
                code
            ),
            Err(SshError::NonZeroExitCode {
                address: "10.0.0.1:22".to_string(),
                code,
                message: "no such file".to_string(),
            })
        );
    }
}

#[test]
fn every_error_carries_the_address() {
    let errors = [
        SshError::ConnectionError {
            address: "a:22".to_string(),
            error: String::new(),
        },
        SshError::SessionError {
            address: "b:22".to_string(),
            error: String::new(),
        },
        SshError::NonZeroExitCode {
            address: "c:22".to_string(),
            code: 1,
            message: String::new(),
        },
    ];
    assert_eq!(errors[0].address(), "a:22");
    assert_eq!(errors[1].address(), "b:22");
    assert_eq!(errors[2].address(), "c:22");
}

#[test]
fn command_from_a_path_changes_into_it_first() {
    assert_eq!(
        execute_from_path("cargo build".to_string(), &PathBuf::from("/home/ubuntu/repo")),
        "(cd /home/ubuntu/repo && cargo build)"
    );
}
