use wsl_api::error::StatusCodes;
use wsl_api::handle::{
    type_to_string, validate_diagnostics_handle, validate_file_handle, validate_transfer_handles,
    FileType, ObservedHandle,
};
use wsl_api::known::KnownError;

fn codes() -> StatusCodes {
    let mut table = [0i32; 45];
    let mut i = 0;
    while i < 45 {
        table[i] = -1000 - (i as i32);
        i += 1;
    }
    StatusCodes::new(table)
}

#[test]
fn character_device_is_rejected_where_pipe_is_required() {
    let error = validate_file_handle("stderr_handle", 0x1c, 2, 0, FileType::Pipe, &codes())
        .unwrap_err();
    assert_eq!(
        error.message(),
        "stderr_handle (1c) must be a pipe (got a character device)"
    );
    assert_eq!(error.hresult(), -1008);
}

#[test]
fn handle_without_a_type_is_rejected_with_the_host_error() {
    let error =
        validate_file_handle("file_handle", -1, 0, 6, FileType::Disk, &codes()).unwrap_err();
    assert_eq!(
        error.message(),
        format!(
            "file_handle ({:x}) is not a valid file handle: WIN32_ERROR(6)",
            -1isize
        )
    );
}

#[test]
fn matching_type_is_accepted() {
    assert!(validate_file_handle("file_handle", 0x20, 1, 0, FileType::Disk, &codes()).is_ok());
    assert!(validate_file_handle("stderr_handle", 0x20, 3, 0, FileType::Pipe, &codes()).is_ok());
}

#[test]
fn every_type_is_named_in_the_diagnostic() {
    let cases = [
        (1u32, "file"),
        (2, "character device"),
        (0x8000, "remote file"),
        (4, "invalid type"),
        (0xffff_ffff, "invalid type"),
    ];
    for (observed, name) in cases {
        let error = validate_file_handle("h", 10, observed, 0, FileType::Pipe, &codes())
            .unwrap_err();
        assert_eq!(
            error.message(),
            format!("h (a) must be a pipe (got a {})", name)
        );
    }
    let error = validate_file_handle("h", 10, 3, 0, FileType::Remote, &codes()).unwrap_err();
    assert_eq!(error.message(), "h (a) must be a remote file (got a pipe)");
    let error = validate_file_handle("h", 10, 3, 0, FileType::Unknown, &codes()).unwrap_err();
    assert_eq!(error.message(), "h (a) must be a unknown type (got a pipe)");
}

#[test]
fn type_names_follow_the_host_numbers() {
    assert_eq!(type_to_string(0), "unknown type");
    assert_eq!(type_to_string(1), "file");
    assert_eq!(type_to_string(2), "character device");
    assert_eq!(type_to_string(3), "pipe");
    assert_eq!(type_to_string(0x8000), "remote file");
    assert_eq!(type_to_string(5), "invalid type");
    assert_eq!(FileType::Unknown.raw(), 0);
    assert_eq!(FileType::Disk.raw(), 1);
    assert_eq!(FileType::Char.raw(), 2);
    assert_eq!(FileType::Pipe.raw(), 3);
    assert_eq!(FileType::Remote.raw(), 0x8000);
}

#[test]
fn validation_errors_are_host_errors_with_the_invalid_usage_code() {
    let codes = codes();
    let error = validate_file_handle("h", 10, 2, 0, FileType::Pipe, &codes).unwrap_err();
    assert_eq!(error.hresult(), codes.code(KnownError::InvalidUsage));
    assert!(error.has_source());
    assert_eq!(error.to_text(&codes, ""), "WSL error: Invalid usage");
}

#[test]
fn transfer_handles_are_checked_pipe_first() {
    let good_file = ObservedHandle { handle: 0x30, file_type: 1, last_error: 0 };
    let good_pipe = ObservedHandle { handle: 0x34, file_type: 3, last_error: 0 };
    let console = ObservedHandle { handle: 0x38, file_type: 2, last_error: 0 };
    let closed = ObservedHandle { handle: 0x3c, file_type: 0, last_error: 6 };
    assert!(validate_transfer_handles(&good_file, &good_pipe, &codes()).is_ok());
    assert_eq!(
        validate_transfer_handles(&good_file, &console, &codes())
            .unwrap_err()
            .message(),
        "stderr_handle (38) must be a pipe (got a character device)"
    );
    assert_eq!(
        validate_transfer_handles(&good_pipe, &good_pipe, &codes())
            .unwrap_err()
            .message(),
        "file_handle (34) must be a file (got a pipe)"
    );
    assert_eq!(
        validate_transfer_handles(&closed, &console, &codes())
            .unwrap_err()
            .message(),
        "stderr_handle (38) must be a pipe (got a character device)"
    );
    assert_eq!(
        validate_transfer_handles(&closed, &good_pipe, &codes())
            .unwrap_err()
            .message(),
        "file_handle (3c) is not a valid file handle: WIN32_ERROR(6)"
    );
}

#[test]
fn diagnostics_handle_must_be_a_pipe() {
    let pipe = ObservedHandle { handle: 0x34, file_type: 3, last_error: 0 };
    let file = ObservedHandle { handle: 0x30, file_type: 1, last_error: 0 };
    let console = ObservedHandle { handle: 0x38, file_type: 2, last_error: 0 };
    let closed = ObservedHandle { handle: 0x3c, file_type: 0, last_error: 6 };
    assert!(validate_diagnostics_handle(&pipe, &codes()).is_ok());
    assert_eq!(
        validate_diagnostics_handle(&file, &codes())
            .unwrap_err()
            .message(),
        "stderr_handle (30) must be a pipe (got a file)"
    );
    let error = validate_diagnostics_handle(&console, &codes()).unwrap_err();
    assert_eq!(
        error.message(),
        "stderr_handle (38) must be a pipe (got a character device)"
    );
    assert_eq!(error.hresult(), codes().code(KnownError::InvalidUsage));
    assert_eq!(
        validate_diagnostics_handle(&closed, &codes())
            .unwrap_err()
            .message(),
        "stderr_handle (3c) is not a valid file handle: WIN32_ERROR(6)"
    );
}
