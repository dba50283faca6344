//! The messages of the side channel and of the process wait request, as
//! plain values. Of these the library reads the message header and the exit
//! status, and writes the wait request; the others are here for whoever
//! reads more of the channel.
use vstd::prelude::*;

verus! {

/// What every side-channel message starts with.
#[derive(Clone, Copy, Debug, PartialEq, Eq, Structural)]
pub struct MESSAGE_HEADER {
    /// The tag that says what the payload is.
    pub MessageType: u32,
    /// The size of the whole message, this header included.
    pub MessageSize: u32,
}

/// What every request to create a host process from inside the guest
/// holds.
#[derive(Clone, Copy, Debug, PartialEq, Eq, Structural)]
pub struct LX_INIT_CREATE_NT_PROCESS_COMMON {
    pub FilenameOffset: u32,
    pub CommandLineOffset: u32,
    pub CurrentWorkingDirectoryOffset: u32,
    pub EnvironmentOffset: u32,
    pub CommandLineCount: u16,
    pub Rows: u32,
    pub Columns: u32,
    pub CreatePseudoconsole: u32,
}

/// The guest's request to create a host process, with the ids of the three
/// standard streams.
#[derive(Clone, Copy, Debug)]
pub struct LX_INIT_CREATE_NT_PROCESS {
    pub Common: LX_INIT_CREATE_NT_PROCESS_COMMON,
    pub StdFdIds: [u32; 3],
}

/// The answer to a request to create a process.
#[derive(Clone, Copy, Debug, PartialEq, Eq, Structural)]
pub struct LX_INIT_CREATE_PROCESS_RESPONSE {
    pub Result: i32,
    pub Flags: u32,
    pub SignalPipeId: u32,
}

/// The payload of the message that reports a process's end.
#[derive(Clone, Copy, Debug, PartialEq, Eq, Structural)]
pub struct LX_INIT_PROCESS_EXIT_STATUS {
    pub ExitCode: u32,
}

/// The payload of the message that tells of a new console size.
#[derive(Clone, Copy, Debug, PartialEq, Eq, Structural)]
pub struct LX_INIT_WINDOW_SIZE_CHANGED {
    pub Rows: u32,
    pub Columns: u32,
}

/// The guest's request to create a host process, where the guest runs in a
/// virtual machine.
#[derive(Clone, Copy, Debug, PartialEq, Eq, Structural)]
pub struct LX_INIT_CREATE_NT_PROCESS_UTILITY_VM {
    pub Common: LX_INIT_CREATE_NT_PROCESS_COMMON,
    /// The 128-bit identifier of the virtual machine.
    pub VmId: u128,
    pub Port: u32,
}

/// A handle as it is marshalled to the guest.
#[derive(Clone, Copy, Debug, PartialEq, Eq, Structural)]
pub struct LXBUS_IPC_MESSAGE_MARSHAL_HANDLE_DATA {
    pub Handle: u32,
    pub HandleType: u32,
}

/// What a wait for a process's end is asked with.
#[derive(Clone, Copy, Debug, PartialEq, Eq, Structural)]
pub struct LXBUS_IPC_LX_PROCESS_WAIT_FOR_TERMINATION_INPUT {
    pub TimeoutMs: u32,
}

/// What a wait for a process's end answers.
#[derive(Clone, Copy, Debug, PartialEq, Eq, Structural)]
pub struct LXBUS_IPC_LX_PROCESS_WAIT_FOR_TERMINATION_OUTPUT {
    /// The guest's wait status: the exit code in the bits above the lowest
    /// eight.
    pub ExitStatus: i32,
}

} // verus!
