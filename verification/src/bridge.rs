//! The bridge to the control service: the life of the one thread that may
//! enter the service, step by step.
//!
//! The thread itself, and what it calls, are the embedding program's. Here
//! is what it decides: [`BridgeState::step`] takes what the last call
//! brought and says what to do next, [`Operation::route`] says which
//! operations have to go through the thread, and
//! [`impersonation_capabilities`] says with whose identity the session
//! calls. The queue that leads to the thread is [`crate::queue::WorkQueue`].
use crate::error::{StatusCodes, WslError};
use crate::known::KnownError;
use crate::text::{bits32, hex_digits, push_hex, unsigned32};
use vstd::prelude::*;
use vstd::string::*;
use windows::Win32::System::Com::{
    COINIT_APARTMENTTHREADED, EOAC_DYNAMIC_CLOAKING, EOAC_STATIC_CLOAKING,
};

verus! {

/// The socket library version that the bridge thread asks for.
pub const WINSOCK_VERSION: u16 = 0x0202;

/// The threading model that the bridge thread asks the component runtime
/// for: a single-threaded apartment, in which the thread that set it up is
/// the only one that runs what enters it.
pub const APARTMENT_THREADED: i32 = 0x2;

/// The capability flag for an identity fixed when a proxy is first used.
pub const STATIC_CLOAKING: i32 = 0x20;

/// The capability flag for the identity of whoever makes each call.
pub const DYNAMIC_CLOAKING: i32 = 0x40;

/// `COINIT_APARTMENTTHREADED` of the windows crate: the constant holds 2.
#[verifier::external_body]
fn coinit_apartmentthreaded() -> (model: i32)
    ensures
        model == APARTMENT_THREADED,
{
    COINIT_APARTMENTTHREADED.0
}

/// `EOAC_STATIC_CLOAKING` of the windows crate: the constant holds 0x20.
#[verifier::external_body]
fn eoac_static_cloaking() -> (flag: i32)
    ensures
        flag == STATIC_CLOAKING,
{
    EOAC_STATIC_CLOAKING.0
}

/// `EOAC_DYNAMIC_CLOAKING` of the windows crate: the constant holds 0x40.
#[verifier::external_body]
fn eoac_dynamic_cloaking() -> (flag: i32)
    ensures
        flag == DYNAMIC_CLOAKING,
{
    EOAC_DYNAMIC_CLOAKING.0
}

/// `HRESULT::is_ok` of the windows crate, on the code `hresult`: true
/// exactly where the code is not negative.
#[verifier::external_body]
fn hresult_is_ok(hresult: i32) -> (ok: bool)
    ensures
        ok == (hresult >= 0),
{
    windows::core::HRESULT(hresult).is_ok()
}

/// The capabilities to set on the session's proxy so that calls are made
/// with the identity of the calling user: those it has, with static
/// cloaking taken out and dynamic cloaking put in.
pub fn impersonation_capabilities(capabilities: i32) -> (adjusted: i32)
    ensures
        adjusted == (capabilities & !STATIC_CLOAKING) | DYNAMIC_CLOAKING,
{
    (capabilities & !eoac_static_cloaking()) | eoac_dynamic_cloaking()
}

/// Adjusting capabilities sets dynamic cloaking, clears static cloaking and
/// leaves every other flag as it was; adjusting twice changes nothing
/// more.
pub proof fn lemma_impersonation_capabilities(capabilities: i32)
    ensures
        ({
            let adjusted = (capabilities & !STATIC_CLOAKING) | DYNAMIC_CLOAKING;
            &&& adjusted & DYNAMIC_CLOAKING == DYNAMIC_CLOAKING
            &&& adjusted & STATIC_CLOAKING == 0
            &&& adjusted & !(STATIC_CLOAKING | DYNAMIC_CLOAKING) == capabilities & !(STATIC_CLOAKING
                | DYNAMIC_CLOAKING)
            &&& (adjusted & !STATIC_CLOAKING) | DYNAMIC_CLOAKING == adjusted
        }),
{
    let adjusted = (capabilities & !0x20i32) | 0x40i32;
    assert(adjusted & 0x40i32 == 0x40i32) by (bit_vector)
        requires
            adjusted == (capabilities & !0x20i32) | 0x40i32,
    ;
    assert(adjusted & 0x20i32 == 0) by (bit_vector)
        requires
            adjusted == (capabilities & !0x20i32) | 0x40i32,
    ;
    assert(adjusted & !(0x20i32 | 0x40i32) == capabilities & !(0x20i32 | 0x40i32))
        by (bit_vector)
        requires
            adjusted == (capabilities & !0x20i32) | 0x40i32,
    ;
    assert((adjusted & !0x20i32) | 0x40i32 == adjusted) by (bit_vector)
        requires
            adjusted == (capabilities & !0x20i32) | 0x40i32,
    ;
}

/// What the control service can be asked to do.
#[derive(Clone, Copy, Debug, PartialEq, Eq, Hash, Structural)]
pub enum Operation {
    Shutdown,
    GetDefaultDistribution,
    EnumerateDistributions,
    ExportDistribution,
    RegisterDistribution,
    SetVersion,
    CreateProcess,
}

/// The thread on which an operation enters the control service.
#[derive(Clone, Copy, Debug, PartialEq, Eq, Hash, Structural)]
pub enum Route {
    /// Through the queue, on the bridge thread, in the order of submission.
    BridgeThread,
    /// At once, on the thread that asks, beside whatever else is running.
    CallingThread,
}

impl Operation {
    /// Whether the operation has to keep its place among the others: a
    /// shutdown and a launch do, the rest only read or are safe beside each
    /// other.
    pub open spec fn ordered(self) -> bool {
        self == Operation::Shutdown || self == Operation::CreateProcess
    }

    /// The thread on which the operation enters the control service: the
    /// bridge thread exactly for the operations that have to keep their
    /// place.
    pub fn route(self) -> (route: Route)
        ensures
            route == (if self.ordered() {
                Route::BridgeThread
            } else {
                Route::CallingThread
            }),
    {
        match self {
            Operation::Shutdown => Route::BridgeThread,
            Operation::CreateProcess => Route::BridgeThread,
            Operation::GetDefaultDistribution => Route::CallingThread,
            Operation::EnumerateDistributions => Route::CallingThread,
            Operation::ExportDistribution => Route::CallingThread,
            Operation::RegisterDistribution => Route::CallingThread,
            Operation::SetVersion => Route::CallingThread,
        }
    }
}

/// Where the bridge thread is in its life.
#[derive(Clone, Copy, Debug, PartialEq, Eq, Hash, Structural)]
pub enum BridgeState {
    /// The thread has not begun.
    Created,
    /// It waits for the socket library to start.
    StartingWinsock,
    /// It waits for the component runtime to take the thread.
    InitializingCom,
    /// It waits for the process-wide security settings.
    InitializingSecurity,
    /// It waits for the control service's session object.
    ActivatingSession,
    /// It waits for the session's proxy to take the caller's identity.
    SettingBlanket,
    /// It runs work as it comes.
    Serving,
    /// It has ended.
    Stopped,
}

/// Why the bridge could not be set up.
#[derive(Debug)]
pub enum InitFailure {
    /// The socket library did not start; its result code.
    Winsock(i32),
    /// The component runtime refused the thread; its status code.
    Com(i32),
    /// The security settings were refused.
    Security(WslError),
    /// The session object could not be activated.
    Session(WslError),
    /// The session's proxy did not take the caller's identity.
    Blanket(WslError),
}

/// What the last call of the bridge thread brought. `T` is a piece of
/// work.
#[derive(Debug)]
pub enum BridgeEvent<T> {
    /// The thread has begun.
    Started,
    /// The socket library answered with this result code.
    WinsockStarted(i32),
    /// The component runtime answered with this status code.
    ComInitialized(i32),
    SecurityInitialized(Result<(), WslError>),
    SessionActivated(Result<(), WslError>),
    BlanketSet(Result<(), WslError>),
    /// The queue handed out this piece of work.
    WorkReceived(T),
    /// The queue is closed and empty.
    QueueClosed,
}

/// What the bridge thread is to do. `T` is a piece of work.
#[derive(Debug)]
pub enum BridgeCommand<T> {
    /// Start the socket library, asking for this version.
    StartWinsock(u16),
    /// Have the component runtime take the thread, asking for this
    /// threading model.
    InitializeCom(i32),
    InitializeSecurity,
    ActivateSession,
    SetBlanket,
    /// Tell the constructor that the session is ready.
    ReportReady,
    /// Tell the constructor why there is no session.
    ReportFailure(InitFailure),
    /// Give the thread back to the component runtime.
    Uninitialize,
    /// Run this piece of work against the session.
    Run(T),
    /// Wait for the next piece of work.
    ServeNext,
}

/// The state and the commands that follow from an event. An event that
/// does not answer what the state waits for changes nothing and asks for
/// nothing.
pub open spec fn step_model<T>(state: BridgeState, event: BridgeEvent<T>) -> (
    BridgeState,
    Seq<BridgeCommand<T>>,
) {
    match (state, event) {
        (BridgeState::Created, BridgeEvent::Started) => (
            BridgeState::StartingWinsock,
            seq![BridgeCommand::StartWinsock(WINSOCK_VERSION)],
        ),
        (BridgeState::StartingWinsock, BridgeEvent::WinsockStarted(result)) => if result == 0 {
            (
                BridgeState::InitializingCom,
                seq![BridgeCommand::InitializeCom(APARTMENT_THREADED)],
            )
        } else {
            (
                BridgeState::Stopped,
                seq![BridgeCommand::ReportFailure(InitFailure::Winsock(result))],
            )
        },
        (BridgeState::InitializingCom, BridgeEvent::ComInitialized(hresult)) => if hresult >= 0 {
            (BridgeState::InitializingSecurity, seq![BridgeCommand::InitializeSecurity])
        } else {
            (BridgeState::Stopped, seq![BridgeCommand::ReportFailure(InitFailure::Com(hresult))])
        },
        (BridgeState::InitializingSecurity, BridgeEvent::SecurityInitialized(outcome)) => {
            match outcome {
                Ok(_) => (BridgeState::ActivatingSession, seq![BridgeCommand::ActivateSession]),
                Err(error) => (
                    BridgeState::Stopped,
                    seq![
                        BridgeCommand::Uninitialize,
                        BridgeCommand::ReportFailure(InitFailure::Security(error)),
                    ],
                ),
            }
        },
        (BridgeState::ActivatingSession, BridgeEvent::SessionActivated(outcome)) => {
            match outcome {
                Ok(_) => (BridgeState::SettingBlanket, seq![BridgeCommand::SetBlanket]),
                Err(error) => (
                    BridgeState::Stopped,
                    seq![
                        BridgeCommand::Uninitialize,
                        BridgeCommand::ReportFailure(InitFailure::Session(error)),
                    ],
                ),
            }
        },
        (BridgeState::SettingBlanket, BridgeEvent::BlanketSet(outcome)) => {
            match outcome {
                Ok(_) => (
                    BridgeState::Serving,
                    seq![BridgeCommand::ReportReady, BridgeCommand::ServeNext],
                ),
                Err(error) => (
                    BridgeState::Stopped,
                    seq![
                        BridgeCommand::Uninitialize,
                        BridgeCommand::ReportFailure(InitFailure::Blanket(error)),
                    ],
                ),
            }
        },
        (BridgeState::Serving, BridgeEvent::WorkReceived(work)) => (
            BridgeState::Serving,
            seq![BridgeCommand::Run(work), BridgeCommand::ServeNext],
        ),
        (BridgeState::Serving, BridgeEvent::QueueClosed) => (
            BridgeState::Stopped,
            seq![BridgeCommand::Uninitialize],
        ),
        _ => (state, Seq::empty()),
    }
}

impl BridgeState {
    /// Takes what the last call brought and says what the bridge thread
    /// does next.
    ///
    /// Setting up goes through the socket library, the component runtime,
    /// which is asked for a single-threaded apartment, the security
    /// settings, the session object and the proxy's identity, in that order.
    /// The first that fails ends the thread: the failure is reported to
    /// the constructor, after the thread has been given back to
    /// the component runtime if the runtime had taken it. Once all have
    /// succeeded the thread reports that the session is ready and runs each
    /// piece of work as it is received, one at a time, until the queue is
    /// closed and empty; then it gives the thread back and ends.
    pub fn step<T>(self, event: BridgeEvent<T>) -> (next: (BridgeState, Vec<BridgeCommand<T>>))
        ensures
            (next.0, next.1@) == step_model(self, event),
    {
        let mut commands: Vec<BridgeCommand<T>> = Vec::new();
        let state = match (self, event) {
            (BridgeState::Created, BridgeEvent::Started) => {
                commands.push(BridgeCommand::StartWinsock(WINSOCK_VERSION));
                BridgeState::StartingWinsock
            },
            (BridgeState::StartingWinsock, BridgeEvent::WinsockStarted(result)) => {
                if result == 0 {
                    commands.push(BridgeCommand::InitializeCom(coinit_apartmentthreaded()));
                    BridgeState::InitializingCom
                } else {
                    commands.push(BridgeCommand::ReportFailure(InitFailure::Winsock(result)));
                    BridgeState::Stopped
                }
            },
            (BridgeState::InitializingCom, BridgeEvent::ComInitialized(hresult)) => {
                if hresult_is_ok(hresult) {
                    commands.push(BridgeCommand::InitializeSecurity);
                    BridgeState::InitializingSecurity
                } else {
                    commands.push(BridgeCommand::ReportFailure(InitFailure::Com(hresult)));
                    BridgeState::Stopped
                }
            },
            (BridgeState::InitializingSecurity, BridgeEvent::SecurityInitialized(outcome)) => {
                match outcome {
                    Ok(_) => {
                        commands.push(BridgeCommand::ActivateSession);
                        BridgeState::ActivatingSession
                    },
                    Err(error) => {
                        commands.push(BridgeCommand::Uninitialize);
                        commands.push(BridgeCommand::ReportFailure(InitFailure::Security(error)));
                        BridgeState::Stopped
                    },
                }
            },
            (BridgeState::ActivatingSession, BridgeEvent::SessionActivated(outcome)) => {
                match outcome {
                    Ok(_) => {
                        commands.push(BridgeCommand::SetBlanket);
                        BridgeState::SettingBlanket
                    },
                    Err(error) => {
                        commands.push(BridgeCommand::Uninitialize);
                        commands.push(BridgeCommand::ReportFailure(InitFailure::Session(error)));
                        BridgeState::Stopped
                    },
                }
            },
            (BridgeState::SettingBlanket, BridgeEvent::BlanketSet(outcome)) => {
                match outcome {
                    Ok(_) => {
                        commands.push(BridgeCommand::ReportReady);
                        commands.push(BridgeCommand::ServeNext);
                        BridgeState::Serving
                    },
                    Err(error) => {
                        commands.push(BridgeCommand::Uninitialize);
                        commands.push(BridgeCommand::ReportFailure(InitFailure::Blanket(error)));
                        BridgeState::Stopped
                    },
                }
            },
            (BridgeState::Serving, BridgeEvent::WorkReceived(work)) => {
                commands.push(BridgeCommand::Run(work));
                commands.push(BridgeCommand::ServeNext);
                BridgeState::Serving
            },
            (BridgeState::Serving, BridgeEvent::QueueClosed) => {
                commands.push(BridgeCommand::Uninitialize);
                BridgeState::Stopped
            },
            (state, _) => state,
        };
        assert(commands@ =~= step_model(self, event).1);
        (state, commands)
    }
}

/// The wording of a failure to start the socket library.
pub open spec fn winsock_failure_text(result: i32) -> Seq<char> {
    "WSAStartup failed: 0x"@ + hex_digits(bits32(result))
}

impl InitFailure {
    /// The error that the constructor's caller gets for this failure.
    ///
    /// A failure of the socket library becomes an invalid-usage error that
    /// names the result code; a refusal by the component runtime becomes an
    /// error with the runtime's status code; the others are handed on as
    /// they came.
    pub fn into_error(self, codes: &StatusCodes) -> (error: WslError)
        ensures
            match self {
                InitFailure::Winsock(result) => {
                    &&& error.code() == codes.code_of(KnownError::InvalidUsage)
                    &&& !error.from_service()
                    &&& error.detail() == winsock_failure_text(result)
                },
                InitFailure::Com(hresult) => {
                    &&& error.code() == hresult
                    &&& !error.from_service()
                    &&& error.detail() == Seq::<char>::empty()
                },
                InitFailure::Security(cause) => error == cause,
                InitFailure::Session(cause) => error == cause,
                InitFailure::Blanket(cause) => error == cause,
            },
    {
        match self {
            InitFailure::Winsock(result) => {
                let mut text = String::from_str("WSAStartup failed: 0x");
                push_hex(&mut text, unsigned32(result) as u64);
                WslError::from_windows(codes.code(KnownError::InvalidUsage), text)
            },
            InitFailure::Com(hresult) => WslError::from_windows(hresult, String::new()),
            InitFailure::Security(cause) => cause,
            InitFailure::Session(cause) => cause,
            InitFailure::Blanket(cause) => cause,
        }
    }
}

/// The kinds of command, without what a command carries.
#[derive(Clone, Copy, Debug, PartialEq, Eq, Hash, Structural)]
pub enum CommandKind {
    StartWinsock,
    InitializeCom,
    InitializeSecurity,
    ActivateSession,
    SetBlanket,
    ReportReady,
    ReportFailure,
    Uninitialize,
    Run,
    ServeNext,
}

impl<T> BridgeCommand<T> {
    /// The kind of this command.
    pub open spec fn kind(self) -> CommandKind {
        match self {
            BridgeCommand::StartWinsock(_) => CommandKind::StartWinsock,
            BridgeCommand::InitializeCom(_) => CommandKind::InitializeCom,
            BridgeCommand::InitializeSecurity => CommandKind::InitializeSecurity,
            BridgeCommand::ActivateSession => CommandKind::ActivateSession,
            BridgeCommand::SetBlanket => CommandKind::SetBlanket,
            BridgeCommand::ReportReady => CommandKind::ReportReady,
            BridgeCommand::ReportFailure(_) => CommandKind::ReportFailure,
            BridgeCommand::Uninitialize => CommandKind::Uninitialize,
            BridgeCommand::Run(_) => CommandKind::Run,
            BridgeCommand::ServeNext => CommandKind::ServeNext,
        }
    }
}

/// The state that a bridge thread is in, and all that it was told to do,
/// after the events `events` in that order.
pub open spec fn run_model<T>(events: Seq<BridgeEvent<T>>) -> (
    BridgeState,
    Seq<BridgeCommand<T>>,
)
    decreases events.len(),
{
    if events.len() == 0 {
        (BridgeState::Created, Seq::empty())
    } else {
        let before = run_model(events.drop_last());
        let now = step_model(before.0, events.last());
        (now.0, before.1 + now.1)
    }
}

/// How many of `commands` are of the kind `kind`.
pub open spec fn count<T>(commands: Seq<BridgeCommand<T>>, kind: CommandKind) -> nat
    decreases commands.len(),
{
    if commands.len() == 0 {
        0
    } else {
        count(commands.drop_last(), kind) + (if commands.last().kind() == kind {
            1nat
        } else {
            0nat
        })
    }
}

/// The pieces of work that `commands` say to run, in that order.
pub open spec fn ran<T>(commands: Seq<BridgeCommand<T>>) -> Seq<T>
    decreases commands.len(),
{
    if commands.len() == 0 {
        Seq::empty()
    } else {
        match commands.last() {
            BridgeCommand::Run(work) => ran(commands.drop_last()).push(work),
            _ => ran(commands.drop_last()),
        }
    }
}

/// The pieces of work that the thread received while it served, in that
/// order.
pub open spec fn received<T>(events: Seq<BridgeEvent<T>>) -> Seq<T>
    decreases events.len(),
{
    if events.len() == 0 {
        Seq::empty()
    } else {
        match events.last() {
            BridgeEvent::WorkReceived(work) => if run_model(events.drop_last()).0 is Serving {
                received(events.drop_last()).push(work)
            } else {
                received(events.drop_last())
            },
            _ => received(events.drop_last()),
        }
    }
}

proof fn lemma_count_push<T>(
    commands: Seq<BridgeCommand<T>>,
    command: BridgeCommand<T>,
    kind: CommandKind,
)
    ensures
        count(commands.push(command), kind) == count(commands, kind) + (if command.kind()
            == kind {
            1nat
        } else {
            0nat
        }),
{
    assert(commands.push(command).drop_last() =~= commands);
}

proof fn lemma_count_add<T>(
    first: Seq<BridgeCommand<T>>,
    second: Seq<BridgeCommand<T>>,
    kind: CommandKind,
)
    ensures
        count(first + second, kind) == count(first, kind) + count(second, kind),
    decreases second.len(),
{
    if second.len() == 0 {
        assert(first + second =~= first);
    } else {
        lemma_count_add(first, second.drop_last(), kind);
        assert((first + second).drop_last() =~= first + second.drop_last());
    }
}

proof fn lemma_ran_add<T>(first: Seq<BridgeCommand<T>>, second: Seq<BridgeCommand<T>>)
    ensures
        ran(first + second) == ran(first) + ran(second),
    decreases second.len(),
{
    if second.len() == 0 {
        assert(first + second =~= first);
        assert(ran(first) + ran(second) =~= ran(first));
    } else {
        lemma_ran_add(first, second.drop_last());
        assert((first + second).drop_last() =~= first + second.drop_last());
        assert(ran(first + second) =~= ran(first) + ran(second));
    }
}

proof fn lemma_count_step<T>(state: BridgeState, event: BridgeEvent<T>, kind: CommandKind)
    ensures
        ({
            let issued = step_model(state, event).1;
            count(issued, kind) == (if issued.len() >= 1 && issued[0].kind() == kind {
                1nat
            } else {
                0nat
            }) + (if issued.len() >= 2 && issued[1].kind() == kind {
                1nat
            } else {
                0nat
            })
        }),
        step_model(state, event).1.len() <= 2,
{
    let issued = step_model(state, event).1;
    let nothing = Seq::<BridgeCommand<T>>::empty();
    if issued.len() == 1 {
        assert(issued =~= nothing.push(issued[0]));
        lemma_count_push(nothing, issued[0], kind);
    } else if issued.len() == 2 {
        assert(issued =~= nothing.push(issued[0]).push(issued[1]));
        lemma_count_push(nothing, issued[0], kind);
        lemma_count_push(nothing.push(issued[0]), issued[1], kind);
    }
}

proof fn lemma_ran_step<T>(state: BridgeState, event: BridgeEvent<T>)
    ensures
        ran(step_model(state, event).1) == (match event {
            BridgeEvent::WorkReceived(work) => if state is Serving {
                seq![work]
            } else {
                Seq::<T>::empty()
            },
            _ => Seq::<T>::empty(),
        }),
{
    let issued = step_model(state, event).1;
    let nothing = Seq::<BridgeCommand<T>>::empty();
    assert(ran(nothing) =~= Seq::<T>::empty());
    if issued.len() == 1 {
        assert(issued =~= nothing.push(issued[0]));
        assert(issued.drop_last() =~= nothing);
    } else if issued.len() == 2 {
        let one = nothing.push(issued[0]);
        assert(issued =~= one.push(issued[1]));
        assert(issued.drop_last() =~= one);
        assert(one.drop_last() =~= nothing);
        assert(ran(one) =~= (match issued[0] {
            BridgeCommand::Run(work) => seq![work],
            _ => Seq::<T>::empty(),
        }));
    }
}

/// How far the setting up has come in each state, told by what was
/// commanded so far.
pub open spec fn lifecycle<T>(state: BridgeState, commands: Seq<BridgeCommand<T>>) -> bool {
    let com = count(commands, CommandKind::InitializeCom);
    let security = count(commands, CommandKind::InitializeSecurity);
    let ready = count(commands, CommandKind::ReportReady);
    let failed = count(commands, CommandKind::ReportFailure);
    let given_back = count(commands, CommandKind::Uninitialize);
    let runs = count(commands, CommandKind::Run);
    let waits = count(commands, CommandKind::ServeNext);
    &&& waits == runs + ready
    &&& match state {
        BridgeState::Created | BridgeState::StartingWinsock => com == 0 && security == 0 && ready
            == 0 && failed == 0 && given_back == 0 && runs == 0,
        BridgeState::InitializingCom => com == 1 && security == 0 && ready == 0 && failed == 0
            && given_back == 0 && runs == 0,
        BridgeState::InitializingSecurity
        | BridgeState::ActivatingSession
        | BridgeState::SettingBlanket => com == 1 && security == 1 && ready == 0 && failed == 0
            && given_back == 0 && runs == 0,
        BridgeState::Serving => com == 1 && security == 1 && ready == 1 && failed == 0
            && given_back == 0,
        BridgeState::Stopped => com <= 1 && security <= com && ready + failed == 1 && given_back
            == security && (runs > 0 ==> ready == 1),
    }
}

/// One step of the bridge thread keeps the account of its life in order,
/// and adds to the work that has run exactly the work that it received
/// while serving.
pub proof fn lemma_bridge_step<T>(
    state: BridgeState,
    commands: Seq<BridgeCommand<T>>,
    event: BridgeEvent<T>,
)
    requires
        lifecycle(state, commands),
    ensures
        lifecycle(step_model(state, event).0, commands + step_model(state, event).1),
        ran(commands + step_model(state, event).1) == ran(commands) + (match event {
            BridgeEvent::WorkReceived(work) => if state is Serving {
                seq![work]
            } else {
                Seq::<T>::empty()
            },
            _ => Seq::<T>::empty(),
        }),
        count(commands + step_model(state, event).1, CommandKind::ReportReady) >= count(
            commands,
            CommandKind::ReportReady,
        ),
        step_model(state, event).0 is Stopped ==> state is Stopped || !(state is Serving)
            || event is QueueClosed,
{
    let issued = step_model(state, event).1;
    lemma_count_add(commands, issued, CommandKind::InitializeCom);
    lemma_count_add(commands, issued, CommandKind::InitializeSecurity);
    lemma_count_add(commands, issued, CommandKind::ReportReady);
    lemma_count_add(commands, issued, CommandKind::ReportFailure);
    lemma_count_add(commands, issued, CommandKind::Uninitialize);
    lemma_count_add(commands, issued, CommandKind::Run);
    lemma_count_add(commands, issued, CommandKind::ServeNext);
    lemma_count_step(state, event, CommandKind::InitializeCom);
    lemma_count_step(state, event, CommandKind::InitializeSecurity);
    lemma_count_step(state, event, CommandKind::ReportReady);
    lemma_count_step(state, event, CommandKind::ReportFailure);
    lemma_count_step(state, event, CommandKind::Uninitialize);
    lemma_count_step(state, event, CommandKind::Run);
    lemma_count_step(state, event, CommandKind::ServeNext);
    lemma_ran_add(commands, issued);
    lemma_ran_step(state, event);
}

/// What holds of a bridge thread after any events whatever.
///
/// The constructor hears from the thread exactly once, and no earlier than
/// the thread serves or has ended: that the session is ready, if the thread
/// serves or has served, else why there is none. The thread is given back
/// to the component runtime only when it ends, then once, and only if the
/// runtime had taken it. Work runs only after the session was reported
/// ready.
pub proof fn lemma_bridge_life<T>(events: Seq<BridgeEvent<T>>)
    ensures
        ({
            let (state, commands) = run_model(events);
            let ended = state is Stopped;
            let reported = state is Serving || ended;
            let taken = count(commands, CommandKind::InitializeSecurity);
            &&& count(commands, CommandKind::ReportReady) + count(
                commands,
                CommandKind::ReportFailure,
            ) == (if reported {
                1nat
            } else {
                0nat
            })
            &&& state is Serving ==> count(commands, CommandKind::ReportReady) == 1
            &&& taken <= 1
            &&& count(commands, CommandKind::InitializeCom) <= 1
            &&& count(commands, CommandKind::Uninitialize) == (if ended {
                taken
            } else {
                0nat
            })
            &&& count(commands, CommandKind::Run) > 0 ==> count(commands, CommandKind::ReportReady)
                == 1
        }),
        lifecycle(run_model(events).0, run_model(events).1),
    decreases events.len(),
{
    if events.len() > 0 {
        let before = run_model(events.drop_last());
        lemma_bridge_life(events.drop_last());
        lemma_bridge_step(before.0, before.1, events.last());
    }
}

/// Whenever the component runtime is asked to take the bridge thread, it is
/// asked for the single-threaded apartment, and by the account of the
/// thread's life it is asked at most once.
pub proof fn lemma_apartment_model<T>(events: Seq<BridgeEvent<T>>)
    ensures
        forall|i: int|
            0 <= i < run_model(events).1.len() ==> (#[trigger] run_model(events).1[i]
                matches BridgeCommand::InitializeCom(model) ==> model == APARTMENT_THREADED),
        count(run_model(events).1, CommandKind::InitializeCom) <= 1,
    decreases events.len(),
{
    lemma_bridge_life(events);
    if events.len() > 0 {
        let before = run_model(events.drop_last());
        let issued = step_model(before.0, events.last()).1;
        let all = run_model(events).1;
        lemma_apartment_model(events.drop_last());
        assert forall|i: int| 0 <= i < all.len() implies (#[trigger] all[i]
            matches BridgeCommand::InitializeCom(model) ==> model == APARTMENT_THREADED) by {
            if i < before.1.len() {
                assert(all[i] == before.1[i]);
            } else {
                assert(all[i] == issued[i - before.1.len()]);
            }
        }
    }
}

/// The bridge thread runs the work that it receives while it serves: every
/// piece, once, in the order in which it was received. And it runs one
/// piece at a time: after each it waits for the next before it runs
/// another.
pub proof fn lemma_work_runs_in_order<T>(events: Seq<BridgeEvent<T>>)
    ensures
        ran(run_model(events).1) == received(events),
        forall|i: int|
            #![trigger run_model(events).1[i]]
            0 <= i < run_model(events).1.len() && run_model(events).1[i] is Run ==> i + 1
                < run_model(events).1.len() && run_model(events).1[i + 1] is ServeNext,
    decreases events.len(),
{
    if events.len() == 0 {
        assert(ran(run_model(events).1) =~= received(events));
    } else {
        let before = run_model(events.drop_last());
        let issued = step_model(before.0, events.last()).1;
        let all = run_model(events).1;
        lemma_work_runs_in_order(events.drop_last());
        lemma_ran_add(before.1, issued);
        lemma_ran_step(before.0, events.last());
        assert(ran(all) =~= received(events));
        assert forall|i: int| 0 <= i < all.len() && (#[trigger] all[i]) is Run implies i + 1
            < all.len() && all[i + 1] is ServeNext by {
            if i < before.1.len() {
                assert(before.1[i] is Run);
            } else {
                assert(issued[i - before.1.len()] is Run);
            }
        }
    }
}

} // verus!
