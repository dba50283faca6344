//! A launched guest process: the handles it owns, how its end is learnt,
//! and what is closed when it goes.
use crate::error::WslError;
use crate::messages::{
    LXBUS_IPC_LX_PROCESS_WAIT_FOR_TERMINATION_INPUT,
    LXBUS_IPC_LX_PROCESS_WAIT_FOR_TERMINATION_OUTPUT,
};
use crate::text::{bits32, unsigned32};
use vstd::prelude::*;

verus! {

/// The exit code reported for a process whose side channel closed before
/// it said how the process ended.
pub const UNKNOWN_EXIT_CODE: u32 = 0;

/// The timeout of a wait that never gives up.
pub const WAIT_FOREVER: u32 = 0xffff_ffff;

/// The exit code in a guest wait status: the status as an unsigned number,
/// without its lowest eight bits.
pub open spec fn exit_code_of_status(status: i32) -> u32 {
    (bits32(status) / 0x100) as u32
}

/// Decodes what a wait on the process handle answered.
pub fn wait_for_wsl_process(output: LXBUS_IPC_LX_PROCESS_WAIT_FOR_TERMINATION_OUTPUT) -> (code:
    u32)
    ensures
        code == exit_code_of_status(output.ExitStatus),
{
    let raw = unsigned32(output.ExitStatus);
    assert(raw >> 8 == raw / 0x100) by (bit_vector);
    raw >> 8
}

/// A guest that exits with `code` leaves a wait status with `code` above
/// the lowest eight bits; decoding gives `code` back, whatever the lowest
/// eight bits hold.
pub proof fn lemma_status_decodes(status: i32, code: u32, low: u32)
    requires
        low < 0x100,
        bits32(status) == code * 0x100 + low,
    ensures
        exit_code_of_status(status) == code,
{
}

/// How a process's end is learnt: fixed when the process is launched.
#[derive(Clone, Copy, Debug, PartialEq, Eq, Structural)]
pub enum WslProcessInner {
    /// By a wait on the process's own kernel handle.
    WSL1(isize),
    /// By a message on the side channel; the handle is that of the
    /// communication channel, kept only to be closed.
    WSL2(isize),
}

impl WslProcessInner {
    /// The handle that belongs to this way of learning the process's end.
    pub open spec fn handle(self) -> isize {
        match self {
            WslProcessInner::WSL1(handle) => handle,
            WslProcessInner::WSL2(handle) => handle,
        }
    }

    /// The handle that belongs to this way of learning the process's end.
    pub fn raw_handle(self) -> (handle: isize)
        ensures
            handle == self.handle(),
    {
        match self {
            WslProcessInner::WSL1(handle) => handle,
            WslProcessInner::WSL2(handle) => handle,
        }
    }
}

/// What the caller of [`WslProcess::wait`] has to do to learn the end of
/// the process.
#[derive(Clone, Copy, Debug, PartialEq, Eq, Structural)]
pub enum WaitRequest {
    /// Ask the process handle, with this input, and block until it answers.
    WaitForTermination(isize, LXBUS_IPC_LX_PROCESS_WAIT_FOR_TERMINATION_INPUT),
    /// Block until the side channel's reader reports a code or is gone.
    ReceiveExitCode,
}

/// What came of carrying out a [`WaitRequest`].
#[derive(Debug)]
pub enum Completion {
    /// The process handle answered.
    Terminated(LXBUS_IPC_LX_PROCESS_WAIT_FOR_TERMINATION_OUTPUT),
    /// The wait on the process handle failed.
    WaitFailed(WslError),
    /// The side channel's reader reported a code, or ended without one.
    Received(Option<u32>),
}

/// One launched guest process.
#[derive(Debug)]
pub struct WslProcess {
    stdin: Option<isize>,
    stdout: Option<isize>,
    stderr: Option<isize>,
    pipe: (isize, isize, isize),
    handle: WslProcessInner,
    released: bool,
}

/// What a process gives up when it goes: every handle that it holds, to be
/// closed now, each once.
#[derive(Debug)]
pub struct Released {
    /// The completion handle and the three guest pipe ends.
    pub owned: Vec<isize>,
    /// The caller's stream ends that nobody took, in the order of input,
    /// output and error.
    pub streams: Vec<isize>,
}

/// What a finished wait hands back.
#[derive(Debug)]
pub struct Waited {
    /// The exit code, or why the wait failed.
    pub status: Result<u32, WslError>,
    /// The handles that the process owned: to be closed now, each once.
    pub to_close: Vec<isize>,
    /// The caller's stream ends that nobody took: to be closed now as well.
    pub streams: Vec<isize>,
}

/// A stream end as a list: the end itself while it is there.
pub open spec fn stream_of(end: Option<isize>) -> Seq<isize> {
    match end {
        Some(handle) => seq![handle],
        None => Seq::empty(),
    }
}

impl WslProcess {
    /// The caller's end of the process's standard input, until taken.
    pub closed spec fn stdin(&self) -> Option<isize> {
        self.stdin
    }

    /// The caller's end of the process's standard output, until taken.
    pub closed spec fn stdout(&self) -> Option<isize> {
        self.stdout
    }

    /// The caller's end of the process's standard error, until taken.
    pub closed spec fn stderr(&self) -> Option<isize> {
        self.stderr
    }

    /// How the end of this process is learnt.
    pub closed spec fn inner(&self) -> WslProcessInner {
        self.handle
    }

    /// The three pipe ends that were handed to the guest and are kept to be
    /// closed: standard input, output and error.
    pub closed spec fn pipe(&self) -> (isize, isize, isize) {
        self.pipe
    }

    /// Whether the process has given up its handles.
    pub closed spec fn released(&self) -> bool {
        self.released
    }

    /// The handles that are the process's own, in the order in which they
    /// are closed: the completion handle and the three guest pipe ends. The
    /// caller's stream ends are not among them.
    pub open spec fn owned(&self) -> Seq<isize> {
        if self.released() {
            Seq::empty()
        } else {
            seq![self.inner().handle(), self.pipe().0, self.pipe().1, self.pipe().2]
        }
    }

    /// The caller's stream ends that are still in the process, in the order
    /// of input, output and error. A stream that was taken belongs to
    /// whoever took it and is not among them.
    pub open spec fn held_streams(&self) -> Seq<isize> {
        stream_of(self.stdin()) + stream_of(self.stdout()) + stream_of(self.stderr())
    }

    /// Every handle that the process holds, and so every handle that is
    /// closed when it goes: its own, then the streams that nobody took.
    pub open spec fn held(&self) -> Seq<isize> {
        self.owned() + self.held_streams()
    }

    /// A process that owns `pipe` and the handle in `handle`, with the
    /// caller's stream ends.
    pub fn new(
        stdin: isize,
        stdout: isize,
        stderr: isize,
        pipe: (isize, isize, isize),
        handle: WslProcessInner,
    ) -> (process: WslProcess)
        ensures
            process.stdin() == Some(stdin),
            process.stdout() == Some(stdout),
            process.stderr() == Some(stderr),
            process.pipe() == pipe,
            process.inner() == handle,
            !process.released(),
    {
        WslProcess {
            stdin: Some(stdin),
            stdout: Some(stdout),
            stderr: Some(stderr),
            pipe,
            handle,
            released: false,
        }
    }

    /// Hands the caller's end of standard input to the caller, who owns it
    /// from then on. What the process itself owns is as before.
    pub fn take_stdin(&mut self) -> (stream: Option<isize>)
        ensures
            stream == old(self).stdin(),
            stream matches Some(taken) ==> took(*old(self), *final(self), taken),
            final(self).stdin() is None,
            final(self).owned() == old(self).owned(),
            final(self).stdout() == old(self).stdout(),
            final(self).stderr() == old(self).stderr(),
            final(self).inner() == old(self).inner(),
            final(self).pipe() == old(self).pipe(),
            final(self).released() == old(self).released(),
    {
        self.stdin.take()
    }

    /// Hands the caller's end of standard output to the caller, who owns it
    /// from then on. What the process itself owns is as before.
    pub fn take_stdout(&mut self) -> (stream: Option<isize>)
        ensures
            stream == old(self).stdout(),
            stream matches Some(taken) ==> took(*old(self), *final(self), taken),
            final(self).stdout() is None,
            final(self).owned() == old(self).owned(),
            final(self).stdin() == old(self).stdin(),
            final(self).stderr() == old(self).stderr(),
            final(self).inner() == old(self).inner(),
            final(self).pipe() == old(self).pipe(),
            final(self).released() == old(self).released(),
    {
        self.stdout.take()
    }

    /// Hands the caller's end of standard error to the caller, who owns it
    /// from then on. What the process itself owns is as before.
    pub fn take_stderr(&mut self) -> (stream: Option<isize>)
        ensures
            stream == old(self).stderr(),
            stream matches Some(taken) ==> took(*old(self), *final(self), taken),
            final(self).stderr() is None,
            final(self).owned() == old(self).owned(),
            final(self).stdin() == old(self).stdin(),
            final(self).stdout() == old(self).stdout(),
            final(self).inner() == old(self).inner(),
            final(self).pipe() == old(self).pipe(),
            final(self).released() == old(self).released(),
    {
        self.stderr.take()
    }

    /// Whether the process's end is learnt from its own kernel handle.
    pub fn is_direct(&self) -> (direct: bool)
        ensures
            direct == (self.inner() is WSL1),
    {
        match self.handle {
            WslProcessInner::WSL1(_) => true,
            WslProcessInner::WSL2(_) => false,
        }
    }

    /// What has to be done to learn the end of this process.
    pub open spec fn request(&self) -> WaitRequest {
        match self.inner() {
            WslProcessInner::WSL1(handle) => WaitRequest::WaitForTermination(
                handle,
                LXBUS_IPC_LX_PROCESS_WAIT_FOR_TERMINATION_INPUT { TimeoutMs: WAIT_FOREVER },
            ),
            WslProcessInner::WSL2(_) => WaitRequest::ReceiveExitCode,
        }
    }

    /// What has to be done to learn the end of this process: a wait on the
    /// process handle that never times out, or a receive from the side
    /// channel's reader.
    pub fn wait_request(&self) -> (request: WaitRequest)
        ensures
            request == self.request(),
    {
        match self.handle {
            WslProcessInner::WSL1(handle) => WaitRequest::WaitForTermination(
                handle,
                LXBUS_IPC_LX_PROCESS_WAIT_FOR_TERMINATION_INPUT { TimeoutMs: WAIT_FOREVER },
            ),
            WslProcessInner::WSL2(_) => WaitRequest::ReceiveExitCode,
        }
    }

    /// Whether `completion` is an answer to the request that this process
    /// makes.
    pub open spec fn answers(&self, completion: Completion) -> bool {
        match self.inner() {
            WslProcessInner::WSL1(_) => completion is Terminated || completion is WaitFailed,
            WslProcessInner::WSL2(_) => completion is Received,
        }
    }

    /// Whether `completion` is an answer to the request that this process
    /// makes.
    pub fn accepts(&self, completion: &Completion) -> (fits: bool)
        ensures
            fits == self.answers(*completion),
    {
        match self.handle {
            WslProcessInner::WSL1(_) => match completion {
                Completion::Terminated(_) => true,
                Completion::WaitFailed(_) => true,
                Completion::Received(_) => false,
            },
            WslProcessInner::WSL2(_) => match completion {
                Completion::Received(_) => true,
                _ => false,
            },
        }
    }

    /// Gives up every handle that the process holds, for the caller to
    /// close: its own, and the stream ends that nobody took. A process gives
    /// them up once: after that it holds nothing, and a second call hands
    /// out nothing.
    pub fn release(&mut self) -> (released: Released)
        ensures
            released.owned@ == old(self).owned(),
            released.streams@ == old(self).held_streams(),
            final(self).released(),
            final(self).stdin() is None,
            final(self).stdout() is None,
            final(self).stderr() is None,
            final(self).held() == Seq::<isize>::empty(),
            final(self).inner() == old(self).inner(),
            final(self).pipe() == old(self).pipe(),
    {
        let mut owned: Vec<isize> = Vec::new();
        if !self.released {
            owned.push(self.handle.raw_handle());
            owned.push(self.pipe.0);
            owned.push(self.pipe.1);
            owned.push(self.pipe.2);
            self.released = true;
            assert(owned@ =~= old(self).owned());
        }
        let mut streams: Vec<isize> = Vec::new();
        if let Some(handle) = self.stdin.take() {
            streams.push(handle);
        }
        assert(streams@ =~= stream_of(old(self).stdin()));
        if let Some(handle) = self.stdout.take() {
            streams.push(handle);
        }
        assert(streams@ =~= stream_of(old(self).stdin()) + stream_of(old(self).stdout()));
        if let Some(handle) = self.stderr.take() {
            streams.push(handle);
        }
        assert(streams@ =~= old(self).held_streams());
        assert(self.held() =~= Seq::<isize>::empty());
        Released { owned, streams }
    }

    /// Ends the life of the process handle with what the wait brought.
    ///
    /// A wait on the process handle yields the exit code in the status, or
    /// the wait's own error. A side channel yields the code that its reader
    /// reported; where the channel closed without one, the wait still ends,
    /// with [`UNKNOWN_EXIT_CODE`]. Either way the process gives up every
    /// handle that it holds.
    pub fn wait(self, completion: Completion) -> (waited: Waited)
        requires
            self.answers(completion),
        ensures
            waited.to_close@ == self.owned(),
            waited.streams@ == self.held_streams(),
            match completion {
                Completion::Terminated(output) => waited.status == Ok::<u32, WslError>(
                    exit_code_of_status(output.ExitStatus),
                ),
                Completion::WaitFailed(error) => waited.status == Err::<u32, WslError>(error),
                Completion::Received(Some(code)) => waited.status == Ok::<u32, WslError>(code),
                Completion::Received(None) => waited.status == Ok::<u32, WslError>(
                    UNKNOWN_EXIT_CODE,
                ),
            },
    {
        let mut process = self;
        let released = process.release();
        let status = match completion {
            Completion::Terminated(output) => Ok(wait_for_wsl_process(output)),
            Completion::WaitFailed(error) => Err(error),
            Completion::Received(Some(code)) => Ok(code),
            Completion::Received(None) => Ok(UNKNOWN_EXIT_CODE),
        };
        Waited { status, to_close: released.owned, streams: released.streams }
    }
}

/// What goes with a process, whichever streams were taken first.
///
/// A stream end is closed with the process exactly if nobody took it, and
/// then once; a stream end that was taken is not closed with the process at
/// all. The process's own four handles go with it whatever became of the
/// streams, and a process that has given up its handles holds none.
pub proof fn lemma_held_handles(process: WslProcess)
    ensures
        process.held_streams().len() == (if process.stdin() is Some {
            1nat
        } else {
            0nat
        }) + (if process.stdout() is Some {
            1nat
        } else {
            0nat
        }) + (if process.stderr() is Some {
            1nat
        } else {
            0nat
        }),
        forall|handle: isize|
            #[trigger] process.held_streams().contains(handle) <==> (process.stdin() == Some(handle)
                || process.stdout() == Some(handle) || process.stderr() == Some(handle)),
        !process.released() ==> process.owned().len() == 4,
        process.released() ==> process.owned().len() == 0,
        process.held().len() == process.owned().len() + process.held_streams().len(),
{
    let first = stream_of(process.stdin());
    let second = stream_of(process.stdout());
    let third = stream_of(process.stderr());
    let all = process.held_streams();
    assert forall|handle: isize| #[trigger] all.contains(handle) <==> (process.stdin() == Some(
        handle,
    ) || process.stdout() == Some(handle) || process.stderr() == Some(handle)) by {
        if all.contains(handle) {
            let at = choose|at: int| 0 <= at < all.len() && all[at] == handle;
            if at < first.len() {
                assert(first[at] == handle);
            } else if at < first.len() + second.len() {
                assert(second[at - first.len() as int] == handle);
            } else {
                assert(third[at - first.len() as int - second.len() as int] == handle);
            }
        }
        if process.stdin() == Some(handle) {
            assert(all[0] == handle);
        }
        if process.stdout() == Some(handle) {
            assert(all[first.len() as int] == handle);
        }
        if process.stderr() == Some(handle) {
            assert(all[(first.len() + second.len()) as int] == handle);
        }
    }
}

/// Whether `after` is `before` with one stream end, `taken`, handed to the
/// caller and nothing else changed.
pub open spec fn took(before: WslProcess, after: WslProcess, taken: isize) -> bool {
    &&& after.inner() == before.inner()
    &&& after.pipe() == before.pipe()
    &&& after.released() == before.released()
    &&& {
        ||| before.stdin() == Some(taken) && after.stdin() is None && after.stdout()
            == before.stdout() && after.stderr() == before.stderr()
        ||| before.stdout() == Some(taken) && after.stdout() is None && after.stdin()
            == before.stdin() && after.stderr() == before.stderr()
        ||| before.stderr() == Some(taken) && after.stderr() is None && after.stdin()
            == before.stdin() && after.stdout() == before.stdout()
    }
}

/// A stream end that the caller took is the caller's: where the process
/// held no handle twice, it holds the taken end no more, it holds every
/// other handle as before, and it still holds none twice. So what goes with
/// the process later is closed once, and the taken end is not closed with
/// it at all.
pub proof fn lemma_taken_stream_is_the_callers(before: WslProcess, after: WslProcess, taken: isize)
    requires
        before.held().no_duplicates(),
        took(before, after, taken),
    ensures
        after.held().no_duplicates(),
        !after.held().contains(taken),
        after.held().len() == before.held().len() - 1,
        forall|handle: isize|
            handle != taken ==> (#[trigger] after.held().contains(handle)
                <==> before.held().contains(handle)),
{
    let own = before.owned();
    let first = stream_of(before.stdin());
    let second = stream_of(before.stdout());
    let third = stream_of(before.stderr());
    let all = before.held();
    let left = after.held();
    assert(after.owned() == own);
    if before.stdin() == Some(taken) && after.stdin() is None && after.stdout()
        == before.stdout() && after.stderr() == before.stderr() {
        let at = own.len() as int;
        assert(all[at] == taken);
        assert(left =~= all.remove(at));
        lemma_remove_one(all, at);
    } else if before.stdout() == Some(taken) && after.stdout() is None && after.stdin()
        == before.stdin() && after.stderr() == before.stderr() {
        let at = (own.len() + first.len()) as int;
        assert(all[at] == taken);
        assert(left =~= all.remove(at));
        lemma_remove_one(all, at);
    } else {
        let at = (own.len() + first.len() + second.len()) as int;
        assert(all[at] == taken);
        assert(left =~= all.remove(at));
        lemma_remove_one(all, at);
    }
}

/// A list without repeats, with one entry taken out: still without
/// repeats, without the entry, and with every other entry as before.
proof fn lemma_remove_one(all: Seq<isize>, at: int)
    requires
        all.no_duplicates(),
        0 <= at < all.len(),
    ensures
        all.remove(at).no_duplicates(),
        !all.remove(at).contains(all[at]),
        all.remove(at).len() == all.len() - 1,
        forall|handle: isize|
            handle != all[at] ==> (#[trigger] all.remove(at).contains(handle) <==> all.contains(
                handle,
            )),
{
    let left = all.remove(at);
    let taken = all[at];
    assert forall|i: int, j: int|
        0 <= i < left.len() && 0 <= j < left.len() && i != j implies left[i] != left[j] by {
        let stood_i = if i < at {
            i
        } else {
            i + 1
        };
        let stood_j = if j < at {
            j
        } else {
            j + 1
        };
        assert(left[i] == all[stood_i]);
        assert(left[j] == all[stood_j]);
    }
    if left.contains(taken) {
        let i = choose|i: int| 0 <= i < left.len() && left[i] == taken;
        let stood = if i < at {
            i
        } else {
            i + 1
        };
        assert(left[i] == all[stood]);
    }
    assert forall|handle: isize| handle != taken implies (#[trigger] left.contains(handle)
        <==> all.contains(handle)) by {
        if left.contains(handle) {
            let i = choose|i: int| 0 <= i < left.len() && left[i] == handle;
            let stood = if i < at {
                i
            } else {
                i + 1
            };
            assert(all[stood] == handle);
        }
        if all.contains(handle) {
            let j = choose|j: int| 0 <= j < all.len() && all[j] == handle;
            let i = if j < at {
                j
            } else {
                j - 1
            };
            assert(left[i] == handle);
        }
    }
}

} // verus!
