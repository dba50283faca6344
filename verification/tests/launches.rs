use std::collections::BTreeMap;
use wsl_api::handle::is_valid;
use wsl_api::error::LXSS_ERROR_INFO;
use wsl_api::launch::{
    can_launch, is_nul_free, launch, launch_failed, CreateLxProcessResult, LaunchRequest,
    LxssHandleType, Pipe, StdPipes, CONSOLE_COLUMNS, CONSOLE_ROWS,
};
use wsl_api::process::{Completion, WaitRequest};

fn pipes() -> StdPipes {
    StdPipes {
        stdin: Pipe { read: 1, write: 2 },
        stdout: Pipe { read: 3, write: 4 },
        stderr: Pipe { read: 5, write: 6 },
    }
}

fn answer(process: isize) -> CreateLxProcessResult {
    CreateLxProcessResult {
        DistributionId: 0xa1a2,
        InstanceId: 0xb1b2,
        ProcessHandle: process,
        ServerHandle: 50,
        StandardIn: 61,
        StandardOut: 62,
        StandardErr: 63,
        CommunicationChannel: 70,
        InteropSocket: 80,
    }
}

#[test]
fn null_and_all_ones_are_no_handles() {
    assert!(!is_valid(0));
    assert!(!is_valid(-1));
    assert!(is_valid(1));
    assert!(is_valid(-2));
    assert!(is_valid(isize::MAX));
    assert!(is_valid(isize::MIN));
}

#[test]
fn valid_process_handle_gives_a_direct_process() {
    let mut launched = launch(pipes(), answer(40));
    assert!(launched.process.is_direct());
    assert_eq!(launched.interop_socket, None);
    assert_eq!(launched.close_now, vec![50]);
    assert_eq!(launched.process.take_stdin(), Some(2));
    assert_eq!(launched.process.take_stdout(), Some(3));
    assert_eq!(launched.process.take_stderr(), Some(5));
    assert_eq!(launched.process.release().owned, vec![40, 1, 4, 6]);
}

#[test]
fn missing_process_handle_gives_an_interop_process() {
    for missing in [0, -1] {
        let mut launched = launch(pipes(), answer(missing));
        assert!(!launched.process.is_direct());
        assert_eq!(launched.process.wait_request(), WaitRequest::ReceiveExitCode);
        assert_eq!(launched.interop_socket, Some(80));
        assert_eq!(launched.close_now, vec![50, 2, 3, 5]);
        assert_eq!(launched.process.take_stdin(), Some(61));
        assert_eq!(launched.process.take_stdout(), Some(62));
        assert_eq!(launched.process.take_stderr(), Some(63));
        assert_eq!(launched.process.release().owned, vec![70, 1, 4, 6]);
    }
}

fn all_out(process: isize) -> Vec<isize> {
    let mut launched = launch(pipes(), answer(process));
    let mut out = Vec::new();
    out.extend(launched.process.take_stdout());
    let released = launched.process.release();
    out.extend(released.owned);
    out.extend(released.streams);
    out.extend(launched.interop_socket);
    out.extend(launched.close_now);
    out.sort();
    out
}

#[test]
fn every_handle_of_a_launch_has_one_owner() {
    assert_eq!(all_out(40), vec![1, 2, 3, 4, 5, 6, 40, 50]);
    assert_eq!(all_out(0), vec![1, 2, 3, 4, 5, 6, 50, 61, 62, 63, 70, 80]);
}

#[test]
fn std_handles_describe_the_guest_ends() {
    let handles = pipes().std_handles();
    assert_eq!(handles.StdIn.Handle, 1);
    assert_eq!(handles.StdIn.HandleType, LxssHandleType::LxssHandleInput);
    assert_eq!(handles.StdOut.Handle, 4);
    assert_eq!(handles.StdOut.HandleType, LxssHandleType::LxssHandleOutput);
    assert_eq!(handles.StdErr.Handle, 6);
    assert_eq!(handles.StdErr.HandleType, LxssHandleType::LxssHandleOutput);
}

#[test]
fn std_handles_keep_the_low_32_bits() {
    let wide = StdPipes {
        stdin: Pipe { read: -2, write: 2 },
        stdout: Pipe { read: 3, write: 4 },
        stderr: Pipe { read: 5, write: 6 },
    };
    assert_eq!(wide.std_handles().StdIn.Handle, 0xffff_fffe);
}

#[test]
fn handle_types_are_numbered_from_zero() {
    assert_eq!(LxssHandleType::LxssHandleConsole.raw(), 0);
    assert_eq!(LxssHandleType::LxssHandleInput.raw(), 1);
    assert_eq!(LxssHandleType::LxssHandleOutput.raw(), 2);
}

#[test]
fn launch_request_encodes_wide_strings() {
    let request = LaunchRequest::new(
        0xa1a2a3a4b1b2c1c2d1d2d3d4d5d6d7d8,
        "/bin/echo",
        &["echo", "Hello, world!"],
        Some("/tmp"),
        "C:\\Users",
        "root",
        &pipes(),
    );
    assert_eq!(request.distro_guid, 0xa1a2a3a4b1b2c1c2d1d2d3d4d5d6d7d8);
    assert_eq!(request.command, "/bin/echo");
    assert_eq!(request.args, vec!["echo".to_string(), "Hello, world!".to_string()]);
    assert_eq!(request.username, vec![114u16, 111, 111, 116]);
    assert_eq!(request.cwd, Some(vec![47u16, 116, 109, 112]));
    assert_eq!(
        request.nt_path,
        vec![67u16, 58, 92, 85, 115, 101, 114, 115]
    );
    assert_eq!(request.columns, 80);
    assert_eq!(request.rows, 25);
    assert_eq!(request.columns, CONSOLE_COLUMNS);
    assert_eq!(request.rows, CONSOLE_ROWS);
    assert_eq!(request.console_handle, 0);
    assert_eq!(request.flags, 0);
    assert_eq!(request.std_handles, pipes().std_handles());
}

#[test]
fn launch_request_cuts_wide_strings_at_nul() {
    let request = LaunchRequest::new(1, "sh", &[], None, "", "ro\0ot", &pipes());
    assert_eq!(request.username, vec![114u16, 111]);
    assert_eq!(request.cwd, None);
    assert!(request.nt_path.is_empty());
    assert!(request.args.is_empty());
}

#[test]
fn launch_request_encodes_beyond_the_basic_plane() {
    let request = LaunchRequest::new(1, "sh", &[], None, "", "a\u{1F600}", &pipes());
    assert_eq!(request.username, vec![0x61u16, 0xD83D, 0xDE00]);
}

#[test]
fn failed_launch_closes_all_six_pipe_ends() {
    assert_eq!(pipes().all_ends(), vec![1, 2, 3, 4, 5, 6]);
}

#[test]
fn every_handle_of_a_launch_is_closed_exactly_once() {
    // Both kinds of process, and every subset of streams taken by the
    // caller before the process goes.
    for process_handle in [40isize, 0] {
        for taken in 0..8u32 {
            let mut closes: BTreeMap<isize, u32> = BTreeMap::new();
            let mut close = |handle: isize| *closes.entry(handle).or_insert(0) += 1;
            let mut launched = launch(pipes(), answer(process_handle));
            for handle in launched.close_now {
                close(handle);
            }
            // What the caller takes, the caller closes.
            let mut with_caller = Vec::new();
            if taken & 1 != 0 {
                with_caller.extend(launched.process.take_stdin());
            }
            if taken & 2 != 0 {
                with_caller.extend(launched.process.take_stdout());
            }
            if taken & 4 != 0 {
                with_caller.extend(launched.process.take_stderr());
            }
            for stream in with_caller {
                close(stream);
            }
            // The reader of the side channel closes its socket.
            if let Some(socket) = launched.interop_socket {
                close(socket);
            }
            // The process goes; whatever runs again afterwards closes nothing.
            for _ in 0..2 {
                let released = launched.process.release();
                for handle in released.owned.into_iter().chain(released.streams) {
                    close(handle);
                }
            }
            let expected: Vec<isize> = if process_handle == 40 {
                vec![1, 2, 3, 4, 5, 6, 40, 50]
            } else {
                vec![1, 2, 3, 4, 5, 6, 50, 61, 62, 63, 70, 80]
            };
            assert_eq!(closes.keys().copied().collect::<Vec<_>>(), expected);
            assert!(closes.values().all(|count| *count == 1));
        }
    }
}

#[test]
fn wait_on_a_launched_process_closes_untaken_streams() {
    let mut launched = launch(pipes(), answer(0));
    assert_eq!(launched.process.take_stdin(), Some(61));
    let waited = launched.process.wait(Completion::Received(None));
    assert_eq!(waited.to_close, vec![70, 1, 4, 6]);
    assert_eq!(waited.streams, vec![62, 63]);
}

fn refusal(message: Option<&str>) -> LXSS_ERROR_INFO {
    LXSS_ERROR_INFO {
        Flags: 0,
        Context: 0,
        Message: message.map(String::from),
        Warnings: None,
        WarningsPipe: 0,
    }
}

#[test]
fn failed_launch_gives_the_service_error_and_all_pipe_ends() {
    let (error, ends) = launch_failed(pipes(), -2147220734, refusal(Some("no such user")));
    assert_eq!(error.hresult(), -2147220734);
    assert!(!error.has_source());
    assert_eq!(error.message(), "no such user");
    assert_eq!(ends, vec![1, 2, 3, 4, 5, 6]);
    let (error, ends) = launch_failed(pipes(), -1, refusal(None));
    assert_eq!(error.hresult(), -1);
    assert_eq!(error.message(), "");
    assert_eq!(ends, vec![1, 2, 3, 4, 5, 6]);
}

#[test]
fn command_and_arguments_may_hold_no_nul() {
    assert!(can_launch("/bin/echo", &["echo", "Hello, world!"]));
    assert!(can_launch("", &[]));
    assert!(can_launch("sh", &["", "\u{1F600}"]));
    assert!(!can_launch("/bin/\0echo", &["echo"]));
    assert!(!can_launch("\0", &[]));
    assert!(!can_launch("/bin/echo", &["echo", "a\0b"]));
    assert!(!can_launch("/bin/echo", &["\0", "b"]));
    assert!(!can_launch("/bin/echo", &["a", "b", "c\0"]));
    assert!(is_nul_free("abc"));
    assert!(is_nul_free(""));
    assert!(!is_nul_free("abc\0"));
}
