//! Launching a guest process: what is handed to the control service, and
//! what becomes of every handle once the service has answered.
use crate::error::{WslError, LXSS_ERROR_INFO};
use crate::handle::{is_invalid_handle, is_valid};
use crate::process::{WslProcess, WslProcessInner};
use vstd::multiset::Multiset;
use vstd::seq_lib::to_multiset_build;
use vstd::prelude::*;
use vstd::string::*;
use widestring::U16CString;

verus! {

/// What a handle passed for a standard stream is used as.
#[derive(Clone, Copy, Debug, PartialEq, Eq, Structural)]
pub enum LxssHandleType {
    LxssHandleConsole,
    LxssHandleInput,
    LxssHandleOutput,
}

impl LxssHandleType {
    /// The number that stands for this use on the wire.
    pub open spec fn code(self) -> u32 {
        match self {
            LxssHandleType::LxssHandleConsole => 0,
            LxssHandleType::LxssHandleInput => 1,
            LxssHandleType::LxssHandleOutput => 2,
        }
    }

    /// The number that stands for this use on the wire.
    pub fn raw(self) -> (raw: u32)
        ensures
            raw == self.code(),
    {
        match self {
            LxssHandleType::LxssHandleConsole => 0,
            LxssHandleType::LxssHandleInput => 1,
            LxssHandleType::LxssHandleOutput => 2,
        }
    }
}

/// One standard stream as the control service is told of it.
#[derive(Clone, Copy, Debug, PartialEq, Eq, Structural)]
pub struct LXSS_HANDLE {
    /// The low 32 bits of the handle.
    pub Handle: u32,
    pub HandleType: LxssHandleType,
}

/// The three standard streams as the control service is told of them.
#[derive(Clone, Copy, Debug, PartialEq, Eq, Structural)]
pub struct LXSS_STD_HANDLES {
    pub StdIn: LXSS_HANDLE,
    pub StdOut: LXSS_HANDLE,
    pub StdErr: LXSS_HANDLE,
}

/// The two ends of a one-way pipe.
#[derive(Clone, Copy, Debug, PartialEq, Eq, Structural)]
pub struct Pipe {
    pub read: isize,
    pub write: isize,
}

/// The pipes made for one launch.
#[derive(Clone, Copy, Debug, PartialEq, Eq, Structural)]
pub struct StdPipes {
    pub stdin: Pipe,
    pub stdout: Pipe,
    pub stderr: Pipe,
}

impl StdPipes {
    /// The ends that go to the guest: where it reads its input and writes
    /// its output and errors.
    pub open spec fn guest_ends(self) -> (isize, isize, isize) {
        (self.stdin.read, self.stdout.write, self.stderr.write)
    }

    /// The ends that stay with the caller: where it writes the guest's input
    /// and reads its output and errors.
    pub open spec fn caller_ends(self) -> (isize, isize, isize) {
        (self.stdin.write, self.stdout.read, self.stderr.read)
    }

    /// All six ends, pipe by pipe, the read end first.
    pub open spec fn ends(self) -> Seq<isize> {
        seq![
            self.stdin.read,
            self.stdin.write,
            self.stdout.read,
            self.stdout.write,
            self.stderr.read,
            self.stderr.write,
        ]
    }

    /// All six ends: what is to be closed when the launch fails and none of
    /// them has found an owner.
    pub fn all_ends(&self) -> (ends: Vec<isize>)
        ensures
            ends@ == self.ends(),
    {
        let mut ends: Vec<isize> = Vec::new();
        ends.push(self.stdin.read);
        ends.push(self.stdin.write);
        ends.push(self.stdout.read);
        ends.push(self.stdout.write);
        ends.push(self.stderr.read);
        ends.push(self.stderr.write);
        assert(ends@ =~= self.ends());
        ends
    }

    /// How the control service is told of the guest's ends.
    pub open spec fn described(self) -> LXSS_STD_HANDLES {
        LXSS_STD_HANDLES {
            StdIn: LXSS_HANDLE {
                Handle: self.stdin.read as u32,
                HandleType: LxssHandleType::LxssHandleInput,
            },
            StdOut: LXSS_HANDLE {
                Handle: self.stdout.write as u32,
                HandleType: LxssHandleType::LxssHandleOutput,
            },
            StdErr: LXSS_HANDLE {
                Handle: self.stderr.write as u32,
                HandleType: LxssHandleType::LxssHandleOutput,
            },
        }
    }

    /// Describes the guest's ends of the pipes for the launch call: the
    /// read end of input as an input, the write ends of output and error
    /// as outputs, each by the low 32 bits of its handle.
    pub fn std_handles(&self) -> (handles: LXSS_STD_HANDLES)
        ensures
            handles == self.described(),
    {
        LXSS_STD_HANDLES {
            StdIn: LXSS_HANDLE {
                Handle: #[verifier::truncate]
                (self.stdin.read as u32),
                HandleType: LxssHandleType::LxssHandleInput,
            },
            StdOut: LXSS_HANDLE {
                Handle: #[verifier::truncate]
                (self.stdout.write as u32),
                HandleType: LxssHandleType::LxssHandleOutput,
            },
            StdErr: LXSS_HANDLE {
                Handle: #[verifier::truncate]
                (self.stderr.write as u32),
                HandleType: LxssHandleType::LxssHandleOutput,
            },
        }
    }
}

/// The columns of the console that a launched process is told it has.
pub const CONSOLE_COLUMNS: i16 = 80;

/// The rows of the console that a launched process is told it has.
pub const CONSOLE_ROWS: i16 = 25;

/// `text` in UTF-16, cut before its first NUL.
pub uninterp spec fn utf16_truncated(text: Seq<char>) -> Seq<u16>;

/// `U16CString::from_str_truncate` of the widestring crate, followed by
/// `into_vec`: the text encoded as UTF-16 and cut before the first NUL, given
/// without a terminator. What comes back holds no NUL.
#[verifier::external_body]
fn to_wide(text: &str) -> (units: Vec<u16>)
    ensures
        units@ == utf16_truncated(text@),
        no_nul(units@),
{
    U16CString::from_str_truncate(text).into_vec()
}

/// Whether no unit of a wide string is NUL, so that a terminator after it
/// is the first.
pub open spec fn no_nul(units: Seq<u16>) -> bool {
    forall|i: int| 0 <= i < units.len() ==> units[i] != 0
}

/// Whether a text holds no NUL, so that it can be handed over as a string
/// that ends at its first NUL.
pub open spec fn nul_free(text: Seq<char>) -> bool {
    forall|i: int| 0 <= i < text.len() ==> text[i] != '\0'
}

/// Whether the command and every argument of a launch hold no NUL.
pub open spec fn launchable(command: Seq<char>, args: Seq<&str>) -> bool {
    &&& nul_free(command)
    &&& forall|i: int| 0 <= i < args.len() ==> nul_free(#[trigger] args[i]@)
}

/// Whether a text holds no NUL.
pub fn is_nul_free(text: &str) -> (free: bool)
    ensures
        free == nul_free(text@),
{
    for unit in iter: text.chars()
        invariant
            iter.seq() == text@,
            forall|i: int| 0 <= i < iter.index() ==> text@[i] != '\0',
    {
        if unit == '\0' {
            return false;
        }
    }
    true
}

/// Whether a launch can be asked for with this command and these
/// arguments: none of them may hold a NUL. To be tested before anything is
/// made for the launch.
pub fn can_launch(command: &str, args: &[&str]) -> (ok: bool)
    ensures
        ok == launchable(command@, args@),
{
    if !is_nul_free(command) {
        return false;
    }
    let mut index: usize = 0;
    while index < args.len()
        invariant
            index <= args@.len(),
            forall|i: int| 0 <= i < index ==> nul_free(#[trigger] args@[i]@),
        decreases args@.len() - index,
    {
        if !is_nul_free(args[index]) {
            return false;
        }
        index = index + 1;
    }
    true
}

/// What the control service is asked when a process is launched.
#[derive(Debug)]
pub struct LaunchRequest {
    /// The guest environment to launch in.
    pub distro_guid: u128,
    /// The path of the executable inside the guest.
    pub command: String,
    /// The arguments, the first being the process's own name.
    pub args: Vec<String>,
    /// The working directory inside the guest, in UTF-16; none for the
    /// guest's default.
    pub cwd: Option<Vec<u16>>,
    /// The host's current directory, in UTF-16.
    pub nt_path: Vec<u16>,
    /// The guest user to run as, in UTF-16.
    pub username: Vec<u16>,
    pub columns: i16,
    pub rows: i16,
    /// The console handle: none is passed.
    pub console_handle: u32,
    pub std_handles: LXSS_STD_HANDLES,
    /// Instance flags: none is set.
    pub flags: u32,
}

/// The texts of a list of strings.
pub open spec fn texts(strings: Seq<String>) -> Seq<Seq<char>> {
    Seq::new(strings.len(), |i: int| strings[i]@)
}

/// The texts of a list of string slices.
pub open spec fn slice_texts(strings: Seq<&str>) -> Seq<Seq<char>> {
    Seq::new(strings.len(), |i: int| strings[i]@)
}

impl LaunchRequest {
    /// The request to launch `command` with `args` in the guest environment
    /// `distro_guid`, as `username`, in `cwd`, with the guest's ends of
    /// `pipes` as its standard streams. The command and the arguments are
    /// handed over whole and may hold no NUL ([`can_launch`] tests it);
    /// texts that the service takes as wide strings are cut before their
    /// first NUL. The process is told of a console of 80 columns and 25
    /// rows, though none is attached; no instance flag is set.
    pub fn new(
        distro_guid: u128,
        command: &str,
        args: &[&str],
        cwd: Option<&str>,
        nt_path: &str,
        username: &str,
        pipes: &StdPipes,
    ) -> (request: LaunchRequest)
        requires
            launchable(command@, args@),
        ensures
            request.distro_guid == distro_guid,
            request.command@ == command@,
            texts(request.args@) == slice_texts(args@),
            match cwd {
                Some(path) => request.cwd matches Some(wide) && wide@ == utf16_truncated(path@)
                    && no_nul(wide@),
                None => request.cwd is None,
            },
            request.nt_path@ == utf16_truncated(nt_path@),
            no_nul(request.nt_path@),
            request.username@ == utf16_truncated(username@),
            no_nul(request.username@),
            request.columns == CONSOLE_COLUMNS,
            request.rows == CONSOLE_ROWS,
            request.console_handle == 0,
            request.std_handles == pipes.described(),
            request.flags == 0,
    {
        let mut owned_args: Vec<String> = Vec::new();
        let mut index: usize = 0;
        while index < args.len()
            invariant
                index <= args@.len(),
                owned_args@.len() == index,
                forall|i: int| 0 <= i < index ==> owned_args@[i]@ == args@[i]@,
            decreases args@.len() - index,
        {
            owned_args.push(String::from_str(args[index]));
            index = index + 1;
        }
        assert(texts(owned_args@) =~= slice_texts(args@));
        let wide_cwd = match cwd {
            Some(path) => Some(to_wide(path)),
            None => None,
        };
        LaunchRequest {
            distro_guid,
            command: String::from_str(command),
            args: owned_args,
            cwd: wide_cwd,
            nt_path: to_wide(nt_path),
            username: to_wide(username),
            columns: CONSOLE_COLUMNS,
            rows: CONSOLE_ROWS,
            console_handle: 0,
            std_handles: pipes.std_handles(),
            flags: 0,
        }
    }
}

/// What the control service answers to a launch.
#[derive(Clone, Copy, Debug, PartialEq, Eq, Structural)]
pub struct CreateLxProcessResult {
    pub DistributionId: u128,
    pub InstanceId: u128,
    /// The kernel handle of the process; no handle where the process runs
    /// behind a side channel.
    pub ProcessHandle: isize,
    /// The service's own handle, echoed.
    pub ServerHandle: isize,
    pub StandardIn: isize,
    pub StandardOut: isize,
    pub StandardErr: isize,
    pub CommunicationChannel: isize,
    pub InteropSocket: isize,
}

/// Where every handle of a launch has gone.
#[derive(Debug)]
pub struct Launched {
    /// The process, with the handles that it owns and the caller's stream
    /// ends.
    pub process: WslProcess,
    /// The side channel to read exit messages from, where the process runs
    /// behind one.
    pub interop_socket: Option<isize>,
    /// The handles that nobody owns any more: to be closed now.
    pub close_now: Vec<isize>,
}

/// Whether a launch answered with a kernel handle for the process: the one
/// signal that decides how the process's end is learnt.
pub open spec fn is_direct(result: CreateLxProcessResult) -> bool {
    !is_invalid_handle(result.ProcessHandle)
}

/// How the end of the launched process is learnt, with the handle that
/// belongs to it.
pub open spec fn resolver_of(result: CreateLxProcessResult) -> WslProcessInner {
    if is_direct(result) {
        WslProcessInner::WSL1(result.ProcessHandle)
    } else {
        WslProcessInner::WSL2(result.CommunicationChannel)
    }
}

/// The stream ends that the caller gets: its own ends of the pipes where
/// the process has a kernel handle, else the ends that the service made.
pub open spec fn streams_of(pipes: StdPipes, result: CreateLxProcessResult) -> (
    isize,
    isize,
    isize,
) {
    if is_direct(result) {
        pipes.caller_ends()
    } else {
        (result.StandardIn, result.StandardOut, result.StandardErr)
    }
}

/// The side channel; there is one exactly where the process has no kernel
/// handle.
pub open spec fn socket_of(result: CreateLxProcessResult) -> Option<isize> {
    if is_direct(result) {
        None
    } else {
        Some(result.InteropSocket)
    }
}

/// The handles that are left over: the service's echo of its own handle,
/// and, where the service made the streams, the caller's ends of the pipes.
pub open spec fn leftover_of(pipes: StdPipes, result: CreateLxProcessResult) -> Seq<isize> {
    if is_direct(result) {
        seq![result.ServerHandle]
    } else {
        seq![result.ServerHandle, pipes.stdin.write, pipes.stdout.read, pipes.stderr.read]
    }
}

/// The handles that come into a launch: the six pipe ends, the service's
/// echo of its own handle, and what the service made for the process.
pub open spec fn handles_in(pipes: StdPipes, result: CreateLxProcessResult) -> Seq<isize> {
    if is_direct(result) {
        seq![
            pipes.stdin.read,
            pipes.stdin.write,
            pipes.stdout.read,
            pipes.stdout.write,
            pipes.stderr.read,
            pipes.stderr.write,
            result.ServerHandle,
            result.ProcessHandle,
        ]
    } else {
        seq![
            pipes.stdin.read,
            pipes.stdin.write,
            pipes.stdout.read,
            pipes.stdout.write,
            pipes.stderr.read,
            pipes.stderr.write,
            result.ServerHandle,
            result.StandardIn,
            result.StandardOut,
            result.StandardErr,
            result.CommunicationChannel,
            result.InteropSocket,
        ]
    }
}

/// The handles that go out of a launch, owner by owner: the caller's
/// streams, what the process owns, the side channel, the leftovers.
pub open spec fn handles_out(pipes: StdPipes, result: CreateLxProcessResult) -> Seq<isize> {
    let streams = streams_of(pipes, result);
    let guest = pipes.guest_ends();
    let held = seq![
        streams.0,
        streams.1,
        streams.2,
        resolver_of(result).handle(),
        guest.0,
        guest.1,
        guest.2,
    ];
    let channel = match socket_of(result) {
        Some(socket) => seq![socket],
        None => Seq::empty(),
    };
    held + channel + leftover_of(pipes, result)
}

/// Decides, from the service's answer to a launch, what the process is and
/// who owns which handle.
///
/// A valid process handle in the answer means that the process is waited
/// for directly and talks over the pipes as they were made. No process
/// handle means that it runs behind a side channel: its exit is read from
/// the socket in the answer, its streams are those in the answer, and the
/// caller's ends of the pipes are left over. The guest's ends of the pipes
/// go to the process either way, to be closed with it. The service's echo
/// of its own handle is always left over.
pub fn launch(pipes: StdPipes, result: CreateLxProcessResult) -> (launched: Launched)
    ensures
        launched.process.inner() == resolver_of(result),
        launched.process.pipe() == pipes.guest_ends(),
        !launched.process.released(),
        launched.process.owned() == owned_after(pipes, result),
        launched.process.held() == held_after(pipes, result),
        launched.process.stdin() == Some(streams_of(pipes, result).0),
        launched.process.stdout() == Some(streams_of(pipes, result).1),
        launched.process.stderr() == Some(streams_of(pipes, result).2),
        launched.interop_socket == socket_of(result),
        launched.close_now@ == leftover_of(pipes, result),
{
    let guest = (pipes.stdin.read, pipes.stdout.write, pipes.stderr.write);
    let mut close_now: Vec<isize> = Vec::new();
    close_now.push(result.ServerHandle);
    if is_valid(result.ProcessHandle) {
        let process = WslProcess::new(
            pipes.stdin.write,
            pipes.stdout.read,
            pipes.stderr.read,
            guest,
            WslProcessInner::WSL1(result.ProcessHandle),
        );
        assert(close_now@ =~= leftover_of(pipes, result));
        assert(process.held() =~= held_after(pipes, result));
        Launched { process, interop_socket: None, close_now }
    } else {
        let process = WslProcess::new(
            result.StandardIn,
            result.StandardOut,
            result.StandardErr,
            guest,
            WslProcessInner::WSL2(result.CommunicationChannel),
        );
        close_now.push(pipes.stdin.write);
        close_now.push(pipes.stdout.read);
        close_now.push(pipes.stderr.read);
        assert(close_now@ =~= leftover_of(pipes, result));
        assert(process.held() =~= held_after(pipes, result));
        Launched { process, interop_socket: Some(result.InteropSocket), close_now }
    }
}

/// What becomes of a launch that the control service refused with the
/// status `hresult`: there is no process, the caller gets the service's own
/// error, and all six pipe ends, of which none has found an owner, are to
/// be closed now.
pub fn launch_failed(pipes: StdPipes, hresult: i32, info: LXSS_ERROR_INFO) -> (failed: (
    WslError,
    Vec<isize>,
))
    ensures
        failed.0.code() == hresult,
        failed.0.from_service(),
        failed.0.detail() == (match info.Message {
            Some(message) => message@,
            None => Seq::<char>::empty(),
        }),
        failed.1@ == pipes.ends(),
{
    (WslError::from_lxss(hresult, info), pipes.all_ends())
}

/// The way a process's end is learnt is decided by the process handle in
/// the answer alone: a direct wait exactly where it is valid, a side
/// channel exactly where it is not, and a socket exactly with the side
/// channel.
pub proof fn lemma_resolver_follows_handle(result: CreateLxProcessResult)
    ensures
        resolver_of(result) is WSL1 <==> !is_invalid_handle(result.ProcessHandle),
        resolver_of(result) is WSL2 <==> is_invalid_handle(result.ProcessHandle),
        socket_of(result) is Some <==> resolver_of(result) is WSL2,
{
}

/// `handles` with `handle` at its end; as a bag, `handles` with one more
/// `handle`.
proof fn put(handles: Seq<isize>, handle: isize) -> (longer: Seq<isize>)
    ensures
        longer == handles.push(handle),
        longer.to_multiset() == handles.to_multiset().insert(handle),
{
    to_multiset_build(handles, handle);
    handles.push(handle)
}

/// Every handle that comes into a launch goes to one owner: the handles
/// that go out are those that came in, each as often as it came in. So
/// where no two that came in are the same, no handle has two owners.
pub proof fn lemma_single_owner(pipes: StdPipes, result: CreateLxProcessResult)
    ensures
        handles_out(pipes, result).to_multiset() == handles_in(pipes, result).to_multiset(),
        handles_in(pipes, result).no_duplicates() ==> handles_out(pipes, result).no_duplicates(),
{
    let incoming = handles_in(pipes, result);
    let outgoing = handles_out(pipes, result);
    assert(Seq::<isize>::empty().to_multiset() =~= Multiset::<isize>::empty()) by {
        Seq::<isize>::empty().to_multiset_ensures();
    }
    if is_direct(result) {
        let came = Seq::<isize>::empty();
        let came = put(came, pipes.stdin.read);
        let came = put(came, pipes.stdin.write);
        let came = put(came, pipes.stdout.read);
        let came = put(came, pipes.stdout.write);
        let came = put(came, pipes.stderr.read);
        let came = put(came, pipes.stderr.write);
        let came = put(came, result.ServerHandle);
        let came = put(came, result.ProcessHandle);
        let went = Seq::<isize>::empty();
        let went = put(went, pipes.stdin.write);
        let went = put(went, pipes.stdout.read);
        let went = put(went, pipes.stderr.read);
        let went = put(went, result.ProcessHandle);
        let went = put(went, pipes.stdin.read);
        let went = put(went, pipes.stdout.write);
        let went = put(went, pipes.stderr.write);
        let went = put(went, result.ServerHandle);
        assert(incoming =~= came);
        assert(outgoing =~= went);
        assert(went.to_multiset() =~= came.to_multiset());
    } else {
        let came = Seq::<isize>::empty();
        let came = put(came, pipes.stdin.read);
        let came = put(came, pipes.stdin.write);
        let came = put(came, pipes.stdout.read);
        let came = put(came, pipes.stdout.write);
        let came = put(came, pipes.stderr.read);
        let came = put(came, pipes.stderr.write);
        let came = put(came, result.ServerHandle);
        let came = put(came, result.StandardIn);
        let came = put(came, result.StandardOut);
        let came = put(came, result.StandardErr);
        let came = put(came, result.CommunicationChannel);
        let came = put(came, result.InteropSocket);
        let went = Seq::<isize>::empty();
        let went = put(went, result.StandardIn);
        let went = put(went, result.StandardOut);
        let went = put(went, result.StandardErr);
        let went = put(went, result.CommunicationChannel);
        let went = put(went, pipes.stdin.read);
        let went = put(went, pipes.stdout.write);
        let went = put(went, pipes.stderr.write);
        let went = put(went, result.InteropSocket);
        let went = put(went, result.ServerHandle);
        let went = put(went, pipes.stdin.write);
        let went = put(went, pipes.stdout.read);
        let went = put(went, pipes.stderr.read);
        assert(incoming =~= came);
        assert(outgoing =~= went);
        assert(went.to_multiset() =~= came.to_multiset());
    }
    if incoming.no_duplicates() {
        incoming.lemma_multiset_has_no_duplicates();
        outgoing.lemma_multiset_has_no_duplicates_conv();
    }
}

/// What is the launched process's own, in the order in which it is closed.
pub open spec fn owned_after(pipes: StdPipes, result: CreateLxProcessResult) -> Seq<isize> {
    let guest = pipes.guest_ends();
    seq![resolver_of(result).handle(), guest.0, guest.1, guest.2]
}

/// Everything that the launched process holds, and that goes with it
/// unless a stream is taken first: its own handles, then the caller's three
/// stream ends.
pub open spec fn held_after(pipes: StdPipes, result: CreateLxProcessResult) -> Seq<isize> {
    let streams = streams_of(pipes, result);
    owned_after(pipes, result) + seq![streams.0, streams.1, streams.2]
}

/// After a launch with handles that were all different, the process holds
/// seven different handles: its own four and the caller's three stream
/// ends. None of them is the side channel or left over. So closing what
/// goes with the process closes nothing twice and nothing that anyone else
/// holds, whichever streams were taken from it before.
pub proof fn lemma_held_apart(pipes: StdPipes, result: CreateLxProcessResult)
    requires
        handles_in(pipes, result).no_duplicates(),
    ensures
        held_after(pipes, result).no_duplicates(),
        owned_after(pipes, result).no_duplicates(),
        forall|handle: isize| #[trigger]
            held_after(pipes, result).contains(handle) ==> {
                &&& socket_of(result) != Some(handle)
                &&& !leftover_of(pipes, result).contains(handle)
            },
        forall|handle: isize| #[trigger]
            owned_after(pipes, result).contains(handle) ==> {
                &&& handle != streams_of(pipes, result).0
                &&& handle != streams_of(pipes, result).1
                &&& handle != streams_of(pipes, result).2
            },
{
    lemma_single_owner(pipes, result);
    let outgoing = handles_out(pipes, result);
    let owned = owned_after(pipes, result);
    let held = held_after(pipes, result);
    let leftover = leftover_of(pipes, result);
    let first_leftover: int = if is_direct(result) {
        7
    } else {
        8
    };
    // Where a handle that the process holds stands among those that go out.
    let place = |at: int| if at < 4 { at + 3 } else { at - 4 };
    assert(owned =~= outgoing.subrange(3, 7));
    assert(leftover =~= outgoing.subrange(first_leftover, outgoing.len() as int));
    assert(socket_of(result) matches Some(socket) ==> socket == outgoing[7]);
    assert forall|at: int| 0 <= at < held.len() implies #[trigger] held[at] == outgoing[place(
        at,
    )] by {}
    assert forall|i: int, j: int|
        0 <= i < held.len() && 0 <= j < held.len() && i != j implies held[i] != held[j] by {
        assert(held[i] == outgoing[place(i)]);
        assert(held[j] == outgoing[place(j)]);
    }
    assert forall|i: int, j: int|
        0 <= i < owned.len() && 0 <= j < owned.len() && i != j implies owned[i] != owned[j] by {
        assert(owned[i] == outgoing[i + 3]);
        assert(owned[j] == outgoing[j + 3]);
    }
    assert forall|handle: isize| #[trigger] held.contains(handle) implies {
        &&& socket_of(result) != Some(handle)
        &&& !leftover.contains(handle)
    } by {
        let at = choose|at: int| 0 <= at < held.len() && held[at] == handle;
        assert(outgoing[place(at)] == handle);
        if leftover.contains(handle) {
            let other = choose|other: int| 0 <= other < leftover.len() && leftover[other] == handle;
            assert(outgoing[other + first_leftover] == handle);
        }
    }
    assert forall|handle: isize| #[trigger] owned.contains(handle) implies {
        &&& handle != streams_of(pipes, result).0
        &&& handle != streams_of(pipes, result).1
        &&& handle != streams_of(pipes, result).2
    } by {
        let at = choose|at: int| 0 <= at < owned.len() && owned[at] == handle;
        assert(outgoing[at + 3] == handle);
        assert(streams_of(pipes, result).0 == outgoing[0]);
        assert(streams_of(pipes, result).1 == outgoing[1]);
        assert(streams_of(pipes, result).2 == outgoing[2]);
    }
}

} // verus!
