use wsl_api::error::WslError;
use wsl_api::messages::{
    LXBUS_IPC_LX_PROCESS_WAIT_FOR_TERMINATION_INPUT,
    LXBUS_IPC_LX_PROCESS_WAIT_FOR_TERMINATION_OUTPUT,
};
use wsl_api::process::{
    wait_for_wsl_process, Completion, WaitRequest, WslProcess, WslProcessInner,
    UNKNOWN_EXIT_CODE,
};

fn direct() -> WslProcess {
    WslProcess::new(11, 12, 13, (21, 22, 23), WslProcessInner::WSL1(100))
}

fn interop() -> WslProcess {
    WslProcess::new(31, 32, 33, (21, 22, 23), WslProcessInner::WSL2(200))
}

fn output(status: i32) -> LXBUS_IPC_LX_PROCESS_WAIT_FOR_TERMINATION_OUTPUT {
    LXBUS_IPC_LX_PROCESS_WAIT_FOR_TERMINATION_OUTPUT { ExitStatus: status }
}

#[test]
fn direct_exit_status_is_shifted_right_by_eight() {
    assert_eq!(wait_for_wsl_process(output(0x2A00)), 42);
}

#[test]
fn direct_exit_status_drops_the_low_byte() {
    assert_eq!(wait_for_wsl_process(output(0)), 0);
    assert_eq!(wait_for_wsl_process(output(0xff)), 0);
    assert_eq!(wait_for_wsl_process(output(0x100)), 1);
    assert_eq!(wait_for_wsl_process(output(0x2A7f)), 42);
    assert_eq!(wait_for_wsl_process(output(i32::MAX)), 0x7f_ffff);
}

#[test]
fn direct_exit_status_of_negative_status_is_unsigned() {
    assert_eq!(wait_for_wsl_process(output(-1)), 0xff_ffff);
    assert_eq!(wait_for_wsl_process(output(i32::MIN)), 0x80_0000);
}

#[test]
fn direct_process_waits_on_its_handle_forever() {
    assert_eq!(
        direct().wait_request(),
        WaitRequest::WaitForTermination(
            100,
            LXBUS_IPC_LX_PROCESS_WAIT_FOR_TERMINATION_INPUT {
                TimeoutMs: u32::MAX
            }
        )
    );
    assert!(direct().is_direct());
}

#[test]
fn interop_process_waits_on_the_side_channel() {
    assert_eq!(interop().wait_request(), WaitRequest::ReceiveExitCode);
    assert!(!interop().is_direct());
}

#[test]
fn wait_on_direct_process_decodes_the_status() {
    let waited = direct().wait(Completion::Terminated(output(0x2A00)));
    assert_eq!(waited.status.unwrap(), 42);
    assert_eq!(waited.to_close, vec![100, 21, 22, 23]);
    assert_eq!(waited.streams, vec![11, 12, 13]);
}

#[test]
fn wait_on_direct_process_hands_on_the_failure() {
    let failure = WslError::from_windows(-5, String::from("no such device"));
    let waited = direct().wait(Completion::WaitFailed(failure));
    let error = waited.status.unwrap_err();
    assert_eq!(error.hresult(), -5);
    assert_eq!(error.message(), "no such device");
    assert_eq!(waited.to_close, vec![100, 21, 22, 23]);
}

#[test]
fn wait_on_interop_process_uses_the_code_as_it_is() {
    let waited = interop().wait(Completion::Received(Some(0x2A00)));
    assert_eq!(waited.status.unwrap(), 0x2A00);
    assert_eq!(waited.to_close, vec![200, 21, 22, 23]);
}

#[test]
fn wait_returns_default_status_when_the_channel_closed() {
    let waited = interop().wait(Completion::Received(None));
    assert_eq!(waited.status.unwrap(), UNKNOWN_EXIT_CODE);
    assert_eq!(UNKNOWN_EXIT_CODE, 0);
    assert_eq!(waited.to_close, vec![200, 21, 22, 23]);
    assert_eq!(waited.streams, vec![31, 32, 33]);
}

#[test]
fn process_accepts_only_answers_to_its_own_request() {
    assert!(direct().accepts(&Completion::Terminated(output(0))));
    assert!(direct().accepts(&Completion::WaitFailed(WslError::from_windows(
        -1,
        String::new()
    ))));
    assert!(!direct().accepts(&Completion::Received(Some(0))));
    assert!(interop().accepts(&Completion::Received(None)));
    assert!(!interop().accepts(&Completion::Terminated(output(0))));
}

#[test]
fn release_hands_out_every_held_handle_once() {
    let mut process = direct();
    let released = process.release();
    assert_eq!(released.owned, vec![100, 21, 22, 23]);
    assert_eq!(released.streams, vec![11, 12, 13]);
    for _ in 0..2 {
        let again = process.release();
        assert!(again.owned.is_empty());
        assert!(again.streams.is_empty());
    }
    assert_eq!(process.take_stdin(), None);
    assert_eq!(process.take_stdout(), None);
    assert_eq!(process.take_stderr(), None);
}

#[test]
fn release_after_streams_were_taken_closes_only_what_is_left() {
    let mut process = interop();
    assert_eq!(process.take_stdin(), Some(31));
    assert_eq!(process.take_stdout(), Some(32));
    assert_eq!(process.take_stderr(), Some(33));
    assert_eq!(process.take_stdout(), None);
    let released = process.release();
    assert_eq!(released.owned, vec![200, 21, 22, 23]);
    assert!(released.streams.is_empty());
    let again = process.release();
    assert!(again.owned.is_empty() && again.streams.is_empty());
}

#[test]
fn release_closes_exactly_the_streams_that_nobody_took() {
    // Every subset of the three streams is taken in turn.
    for taken in 0..8u32 {
        let mut process = WslProcess::new(2, 3, 5, (1, 4, 6), WslProcessInner::WSL2(70));
        let mut with_caller = Vec::new();
        if taken & 1 != 0 {
            with_caller.extend(process.take_stdin());
        }
        if taken & 2 != 0 {
            with_caller.extend(process.take_stdout());
        }
        if taken & 4 != 0 {
            with_caller.extend(process.take_stderr());
        }
        let released = process.release();
        assert_eq!(released.owned, vec![70, 1, 4, 6]);
        for stream in [2, 3, 5] {
            let closed = released.streams.iter().filter(|end| **end == stream).count();
            let kept = with_caller.iter().filter(|end| **end == stream).count();
            assert_eq!(closed + kept, 1, "stream {} with {} taken", stream, taken);
            assert!(!released.owned.contains(&stream));
        }
        assert_eq!(released.streams.len() + with_caller.len(), 3);
    }
}

#[test]
fn wait_closes_the_streams_that_nobody_took() {
    let mut process = WslProcess::new(2, 3, 5, (1, 4, 6), WslProcessInner::WSL2(70));
    assert_eq!(process.take_stdout(), Some(3));
    let waited = process.wait(Completion::Received(Some(9)));
    assert_eq!(waited.status.unwrap(), 9);
    assert_eq!(waited.to_close, vec![70, 1, 4, 6]);
    assert_eq!(waited.streams, vec![2, 5]);
}
