//! Raw operating-system handles as plain values: which values are handles at
//! all, what kind of object a handle names, and the check that a handle is
//! of the kind a call needs.
use crate::error::{StatusCodes, WslError};
use crate::known::KnownError;
use crate::text::{bits_of_isize, decimal_digits, hex_digits, push_hex, unsigned_of_isize};
use vstd::prelude::*;
use vstd::string::*;
use windows::Win32::Foundation::{HANDLE, WIN32_ERROR};
use windows::Win32::Storage::FileSystem::{
    FILE_TYPE_CHAR, FILE_TYPE_DISK, FILE_TYPE_PIPE, FILE_TYPE_REMOTE, FILE_TYPE_UNKNOWN,
};

verus! {

/// Whether `raw` is one of the two values that never name an object: null
/// and all ones.
pub open spec fn is_invalid_handle(raw: isize) -> bool {
    raw == 0 || raw == -1
}

/// `HANDLE::is_invalid` of the windows crate, on the handle with the value
/// `raw`: true for 0 and for -1, false for every other value.
#[verifier::external_body]
fn handle_is_invalid(raw: isize) -> (invalid: bool)
    ensures
        invalid == is_invalid_handle(raw),
{
    HANDLE(raw).is_invalid()
}

/// Whether `raw` can name an object.
pub fn is_valid(raw: isize) -> (valid: bool)
    ensures
        valid == !is_invalid_handle(raw),
{
    !handle_is_invalid(raw)
}

/// The kinds of object that the host tells apart behind a handle.
#[derive(Clone, Copy, Debug, PartialEq, Eq, Hash, Structural)]
pub enum FileType {
    Unknown,
    Disk,
    Char,
    Pipe,
    Remote,
}

impl FileType {
    /// The number by which the host reports this kind.
    pub open spec fn code(self) -> u32 {
        match self {
            FileType::Unknown => 0,
            FileType::Disk => 1,
            FileType::Char => 2,
            FileType::Pipe => 3,
            FileType::Remote => 0x8000,
        }
    }

    /// The number by which the host reports this kind.
    pub fn raw(self) -> (raw: u32)
        ensures
            raw == self.code(),
    {
        match self {
            FileType::Unknown => file_type_unknown(),
            FileType::Disk => file_type_disk(),
            FileType::Char => file_type_char(),
            FileType::Pipe => file_type_pipe(),
            FileType::Remote => file_type_remote(),
        }
    }
}

/// `FILE_TYPE_UNKNOWN` of the windows crate: the constant holds 0.
#[verifier::external_body]
fn file_type_unknown() -> (raw: u32)
    ensures
        raw == FileType::Unknown.code(),
{
    FILE_TYPE_UNKNOWN.0
}

/// `FILE_TYPE_DISK` of the windows crate: the constant holds 1.
#[verifier::external_body]
fn file_type_disk() -> (raw: u32)
    ensures
        raw == FileType::Disk.code(),
{
    FILE_TYPE_DISK.0
}

/// `FILE_TYPE_CHAR` of the windows crate: the constant holds 2.
#[verifier::external_body]
fn file_type_char() -> (raw: u32)
    ensures
        raw == FileType::Char.code(),
{
    FILE_TYPE_CHAR.0
}

/// `FILE_TYPE_PIPE` of the windows crate: the constant holds 3.
#[verifier::external_body]
fn file_type_pipe() -> (raw: u32)
    ensures
        raw == FileType::Pipe.code(),
{
    FILE_TYPE_PIPE.0
}

/// `FILE_TYPE_REMOTE` of the windows crate: the constant holds 0x8000.
#[verifier::external_body]
fn file_type_remote() -> (raw: u32)
    ensures
        raw == FileType::Remote.code(),
{
    FILE_TYPE_REMOTE.0
}

/// The words for a kind of object as the host reports it.
pub open spec fn file_type_name(file_type: u32) -> Seq<char> {
    if file_type == FileType::Disk.code() {
        "file"@
    } else if file_type == FileType::Pipe.code() {
        "pipe"@
    } else if file_type == FileType::Char.code() {
        "character device"@
    } else if file_type == FileType::Remote.code() {
        "remote file"@
    } else if file_type == FileType::Unknown.code() {
        "unknown type"@
    } else {
        "invalid type"@
    }
}

/// The words for a kind of object as the host reports it.
pub fn type_to_string(file_type: u32) -> (name: &'static str)
    ensures
        name@ == file_type_name(file_type),
{
    if file_type == FileType::Disk.raw() {
        "file"
    } else if file_type == FileType::Pipe.raw() {
        "pipe"
    } else if file_type == FileType::Char.raw() {
        "character device"
    } else if file_type == FileType::Remote.raw() {
        "remote file"
    } else if file_type == FileType::Unknown.raw() {
        "unknown type"
    } else {
        "invalid type"
    }
}

/// How a host error code is shown in a diagnostic.
pub open spec fn last_error_text(code: u32) -> Seq<char> {
    "WIN32_ERROR("@ + decimal_digits(code as nat) + ")"@
}

/// The `Debug` text of the windows crate's `WIN32_ERROR` with the value
/// `code`: the type's name, then the value in decimal between round
/// brackets.
#[verifier::external_body]
fn win32_error_debug(code: u32) -> (text: String)
    ensures
        text@ == last_error_text(code),
{
    format!("{:?}", WIN32_ERROR(code))
}

/// The start of every diagnostic about a handle: the parameter's name, then
/// the handle's bit pattern in hexadecimal between round brackets.
pub open spec fn handle_label(name: Seq<char>, handle: isize) -> Seq<char> {
    name + " ("@ + hex_digits(bits_of_isize(handle)) + ")"@
}

/// The diagnostic for a handle that names no object.
pub open spec fn invalid_handle_text(name: Seq<char>, handle: isize, last_error: u32) -> Seq<
    char,
> {
    handle_label(name, handle) + " is not a valid file handle: "@ + last_error_text(last_error)
}

/// The diagnostic for a handle of the wrong kind.
pub open spec fn wrong_type_text(
    name: Seq<char>,
    handle: isize,
    expected: u32,
    actual: u32,
) -> Seq<char> {
    handle_label(name, handle) + " must be a "@ + file_type_name(expected) + " (got a "@
        + file_type_name(actual) + ")"@
}

/// What is wrong with a handle that the host reports as `file_type` where
/// `expected` is needed: nothing, or the diagnostic.
pub open spec fn handle_fault(
    name: Seq<char>,
    handle: isize,
    file_type: u32,
    last_error: u32,
    expected: FileType,
) -> Option<Seq<char>> {
    if file_type == FileType::Unknown.code() {
        Some(invalid_handle_text(name, handle, last_error))
    } else if file_type != expected.code() {
        Some(wrong_type_text(name, handle, expected.code(), file_type))
    } else {
        None
    }
}

fn label(name: &str, handle: isize) -> (text: String)
    ensures
        text@ == handle_label(name@, handle),
{
    let mut text = String::from_str(name);
    text.append(" (");
    push_hex(&mut text, unsigned_of_isize(handle) as u64);
    text.append(")");
    text
}

/// Checks that the handle passed as parameter `name` is of the kind
/// `expected_type`, before any call is made with it.
///
/// `file_type` is what the host reported for the handle, and `last_error`
/// the host's last error code, read right after that report. A handle with
/// no kind at all is refused with the host's error code in the diagnostic; a
/// handle of another kind is refused with both kinds named. Either refusal
/// carries the service's status code for invalid usage.
pub fn validate_file_handle(
    name: &str,
    handle: isize,
    file_type: u32,
    last_error: u32,
    expected_type: FileType,
    codes: &StatusCodes,
) -> (checked: Result<(), WslError>)
    ensures
        match checked {
            Ok(_) => handle_fault(name@, handle, file_type, last_error, expected_type) is None,
            Err(error) => {
                &&& handle_fault(name@, handle, file_type, last_error, expected_type) == Some(
                    error.detail(),
                )
                &&& error.code() == codes.code_of(KnownError::InvalidUsage)
                &&& !error.from_service()
            },
        },
{
    if file_type == FileType::Unknown.raw() {
        let mut text = label(name, handle);
        text.append(" is not a valid file handle: ");
        let shown = win32_error_debug(last_error);
        text.append(shown.as_str());
        return Err(WslError::from_windows(codes.code(KnownError::InvalidUsage), text));
    }
    let expected = expected_type.raw();
    if file_type != expected {
        let mut text = label(name, handle);
        text.append(" must be a ");
        text.append(type_to_string(expected));
        text.append(" (got a ");
        text.append(type_to_string(file_type));
        text.append(")");
        return Err(WslError::from_windows(codes.code(KnownError::InvalidUsage), text));
    }
    Ok(())
}

/// A handle together with what the host reported of it.
#[derive(Clone, Copy, Debug, PartialEq, Eq, Structural)]
pub struct ObservedHandle {
    pub handle: isize,
    /// The kind of object, as the host reported it.
    pub file_type: u32,
    /// The host's last error code, read right after the report.
    pub last_error: u32,
}

/// What is wrong with the handle that a call hands to the control service
/// for its diagnostics: it has to be a pipe.
pub open spec fn diagnostics_fault(stderr: ObservedHandle) -> Option<Seq<char>> {
    handle_fault(
        "stderr_handle"@,
        stderr.handle,
        stderr.file_type,
        stderr.last_error,
        FileType::Pipe,
    )
}

/// Checks the handle that a call hands to the control service for its
/// diagnostics, before the call is made: it must be a pipe.
pub fn validate_diagnostics_handle(stderr: &ObservedHandle, codes: &StatusCodes) -> (checked:
    Result<(), WslError>)
    ensures
        match checked {
            Ok(_) => diagnostics_fault(*stderr) is None,
            Err(error) => {
                &&& diagnostics_fault(*stderr) == Some(error.detail())
                &&& error.code() == codes.code_of(KnownError::InvalidUsage)
                &&& !error.from_service()
            },
        },
{
    validate_file_handle(
        "stderr_handle",
        stderr.handle,
        stderr.file_type,
        stderr.last_error,
        FileType::Pipe,
        codes,
    )
}

/// What is wrong with the two handles of a transfer, the diagnostics pipe
/// being looked at first.
pub open spec fn transfer_fault(file: ObservedHandle, stderr: ObservedHandle) -> Option<Seq<char>> {
    match diagnostics_fault(stderr) {
        Some(text) => Some(text),
        None => handle_fault(
            "file_handle"@,
            file.handle,
            file.file_type,
            file.last_error,
            FileType::Disk,
        ),
    }
}

/// Checks the two handles that an export or an import hands to the control
/// service: the diagnostics handle must be a pipe and the archive handle a
/// file on disk. The pipe is checked first, so where both are wrong the
/// diagnostic is about the pipe.
pub fn validate_transfer_handles(
    file: &ObservedHandle,
    stderr: &ObservedHandle,
    codes: &StatusCodes,
) -> (checked: Result<(), WslError>)
    ensures
        match checked {
            Ok(_) => transfer_fault(*file, *stderr) is None,
            Err(error) => {
                &&& transfer_fault(*file, *stderr) == Some(error.detail())
                &&& error.code() == codes.code_of(KnownError::InvalidUsage)
                &&& !error.from_service()
            },
        },
{
    match validate_diagnostics_handle(stderr, codes) {
        Err(error) => Err(error),
        Ok(_) => validate_file_handle(
            "file_handle",
            file.handle,
            file.file_type,
            file.last_error,
            FileType::Disk,
            codes,
        ),
    }
}

} // verus!
