use zero_gesture::control::ControlError;
use zero_gesture::endpoint::{
    require_peer_uid, require_socket_path_fits, valid_endpoint_suffix, validate_metadata,
    validate_path_identity, ObjectFacts, ObjectKind, PathIdentity, DIRECTORY_MODE, FILE_MODE,
    MAX_SOCKET_PATH_BYTES,
};
use zero_gesture::endpoint::{
    pipe_failure_step, PipeFailureStep, ERROR_BROKEN_PIPE, ERROR_NO_DATA, ERROR_PIPE_BUSY,
    ERROR_PIPE_LISTENING,
};

fn file(uid: u32, mode: u32, nlink: u64) -> ObjectFacts {
    ObjectFacts {
        is_dir: false,
        is_file: true,
        is_socket: false,
        uid,
        mode,
        nlink,
    }
}

#[test]
fn endpoint_suffix_is_short_ascii_alphanumeric_or_dash() {
    assert!(valid_endpoint_suffix(""));
    assert!(valid_endpoint_suffix("1234-abcd-XYZ"));
    assert!(!valid_endpoint_suffix("a/b"));
    assert!(!valid_endpoint_suffix("é"));
    assert!(valid_endpoint_suffix(&"a".repeat(32)));
    assert!(!valid_endpoint_suffix(&"a".repeat(33)));
}

#[test]
fn secret_file_needs_exact_mode_owner_and_single_link() {
    assert!(validate_metadata(file(501, 0o100600, 1), 501, ObjectKind::RegularFile, FILE_MODE).is_ok());
    assert!(matches!(
        validate_metadata(file(501, 0o100644, 1), 501, ObjectKind::RegularFile, FILE_MODE),
        Err(ControlError::Security(_))
    ));
    assert!(matches!(
        validate_metadata(file(502, 0o100600, 1), 501, ObjectKind::RegularFile, FILE_MODE),
        Err(ControlError::Security(_))
    ));
    assert!(matches!(
        validate_metadata(file(501, 0o100600, 2), 501, ObjectKind::RegularFile, FILE_MODE),
        Err(ControlError::Security(_))
    ));
    assert!(matches!(
        validate_metadata(file(501, 0o100600, 1), 501, ObjectKind::Directory, FILE_MODE),
        Err(ControlError::Security(_))
    ));
}

#[test]
fn runtime_directory_may_have_several_links() {
    let directory = ObjectFacts {
        is_dir: true,
        is_file: false,
        is_socket: false,
        uid: 0,
        mode: 0o40700,
        nlink: 3,
    };
    assert!(validate_metadata(directory, 0, ObjectKind::Directory, DIRECTORY_MODE).is_ok());
    assert!(validate_metadata(
        ObjectFacts {
            mode: 0o41700,
            ..directory
        },
        0,
        ObjectKind::Directory,
        DIRECTORY_MODE
    )
    .is_err());
}

#[test]
fn peers_and_paths_must_stay_the_same() {
    assert!(require_peer_uid(501, 501).is_ok());
    assert!(matches!(require_peer_uid(0, 501), Err(ControlError::Security(_))));
    let opened = PathIdentity { device: 1, inode: 2 };
    assert!(validate_path_identity(opened, opened).is_ok());
    assert!(validate_path_identity(PathIdentity { device: 1, inode: 3 }, opened).is_err());
    assert!(require_socket_path_fits(MAX_SOCKET_PATH_BYTES).is_ok());
    assert!(require_socket_path_fits(MAX_SOCKET_PATH_BYTES + 1).is_err());
}

#[test]
fn pipe_failures_retry_until_the_deadline() {
    assert_eq!(pipe_failure_step(ERROR_NO_DATA, false), PipeFailureStep::Retry);
    assert_eq!(pipe_failure_step(ERROR_PIPE_LISTENING, false), PipeFailureStep::Retry);
    assert_eq!(pipe_failure_step(ERROR_PIPE_BUSY, true), PipeFailureStep::TimedOut);
    assert_eq!(pipe_failure_step(ERROR_BROKEN_PIPE, false), PipeFailureStep::Closed);
    assert_eq!(pipe_failure_step(5, false), PipeFailureStep::Failed);
}
