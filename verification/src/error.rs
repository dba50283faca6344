//! Errors of the bridge: what the control service or the host reported, and
//! how it is shown.
use crate::known::{KnownError, KNOWN_ERROR_COUNT};
use crate::text::{bits32, hex_digits_fixed, push_hex_fixed, unsigned32};
use vstd::prelude::*;
use vstd::string::*;
use windows::Win32::Foundation::REGDB_E_CLASSNOTREG;

verus! {

/// What the control service adds to a failed call.
#[derive(Debug)]
pub struct LXSS_ERROR_INFO {
    pub Flags: u32,
    pub Context: u64,
    /// The service's own wording, where it gave one.
    pub Message: Option<String>,
    /// Warnings that came with the failure, where there were any.
    pub Warnings: Option<String>,
    pub WarningsPipe: u32,
}

/// The classes of failure that a caller can act on without reading a code.
#[derive(Debug, PartialEq, Eq, Hash, Clone, Copy, Structural)]
pub enum WslErrorKind {
    UnsupportedOperatingSystem,
    UnsupportedWslVersion,
}

/// The kind of machine the library runs on.
#[derive(Debug, PartialEq, Eq, Hash, Clone, Copy, Structural)]
pub enum Host {
    /// A host that has the control service's platform.
    Windows,
    /// Any other host: nothing of the control service exists there.
    Other,
}

/// Where an error came from.
#[derive(Debug)]
pub enum UnderlyingError {
    /// The control service failed a call and said why.
    Lxss(i32, LXSS_ERROR_INFO),
    /// The host failed a call, or the library refused one before making it.
    Windows(i32, String),
}

/// A failed call, with the status code that describes it.
#[derive(Debug)]
pub struct WslError {
    underlying: UnderlyingError,
}

/// The status code by which the host says that the control service's class
/// is not registered.
pub open spec fn class_not_registered() -> i32 {
    -2147221164i32
}

/// `REGDB_E_CLASSNOTREG` of the windows crate: the constant holds the code
/// 0x80040154, which as a signed number is -2147221164.
#[verifier::external_body]
fn regdb_e_classnotreg() -> (code: i32)
    ensures
        code == class_not_registered(),
{
    REGDB_E_CLASSNOTREG.0
}

/// The position of the first entry of `codes` at or after `from` that
/// equals `hresult`.
pub open spec fn first_match_from(codes: Seq<i32>, hresult: i32, from: nat) -> Option<nat>
    decreases codes.len() - from,
{
    if from >= codes.len() {
        None
    } else if codes[from as int] == hresult {
        Some(from)
    } else {
        first_match_from(codes, hresult, from + 1)
    }
}

/// The status codes that the control service assigns to its named
/// conditions, in the order of [`KnownError`]. The numbers belong to the
/// service's interface; whoever binds to it supplies them.
#[derive(Clone, Copy, Debug)]
pub struct StatusCodes {
    codes: [i32; KNOWN_ERROR_COUNT],
}

impl StatusCodes {
    /// The code of each condition, by ordinal.
    pub closed spec fn view(&self) -> Seq<i32> {
        self.codes@
    }

    /// The status code of a named condition.
    pub open spec fn code_of(&self, known: KnownError) -> i32 {
        self@[known.ordinal() as int]
    }

    /// The condition that `hresult` names: the first in the list whose code
    /// it is.
    pub open spec fn lookup(&self, hresult: i32) -> Option<KnownError> {
        match first_match_from(self@, hresult, 0) {
            Some(ordinal) => Some(KnownError::at(ordinal)),
            None => None,
        }
    }

    /// A table from the code of each condition, in the order of
    /// [`KnownError`].
    pub fn new(codes: [i32; KNOWN_ERROR_COUNT]) -> (table: StatusCodes)
        ensures
            table@ == codes@,
    {
        StatusCodes { codes }
    }

    /// The table always has one code for each condition.
    pub proof fn lemma_len(&self)
        ensures
            self@.len() == KNOWN_ERROR_COUNT,
    {
        broadcast use vstd::array::array_len_matches_n;

    }

    /// The status code of a named condition.
    pub fn code(&self, known: KnownError) -> (code: i32)
        ensures
            code == self.code_of(known),
    {
        self.codes[known.index()]
    }

    /// The named condition that a status code stands for, if any.
    pub fn known(&self, hresult: i32) -> (known: Option<KnownError>)
        ensures
            known == self.lookup(hresult),
    {
        proof {
            self.lemma_len();
        }
        let mut index: usize = 0;
        while index < KNOWN_ERROR_COUNT
            invariant
                index <= KNOWN_ERROR_COUNT,
                self@.len() == KNOWN_ERROR_COUNT,
                first_match_from(self@, hresult, 0) == first_match_from(
                    self@,
                    hresult,
                    index as nat,
                ),
            decreases KNOWN_ERROR_COUNT - index,
        {
            if self.codes[index] == hresult {
                return KnownError::from_index(index);
            }
            index = index + 1;
        }
        None
    }

    /// Looking up the code of a condition finds that condition, unless an
    /// earlier condition of the list has the same code.
    pub proof fn lemma_code_is_known(&self, known: KnownError)
        requires
            forall|earlier: int|
                0 <= earlier < known.ordinal() ==> #[trigger] self@[earlier] != self.code_of(
                    known,
                ),
        ensures
            self.lookup(self.code_of(known)) == Some(known),
    {
        self.lemma_len();
        known.lemma_ordinal_round_trip();
        lemma_first_match(self@, self.code_of(known), 0, known.ordinal());
    }

    /// A code that no condition has is not known.
    pub proof fn lemma_absent_is_unknown(&self, hresult: i32)
        requires
            forall|i: int| 0 <= i < self@.len() ==> #[trigger] self@[i] != hresult,
        ensures
            self.lookup(hresult) is None,
    {
        lemma_no_match(self@, hresult, 0);
    }
}

proof fn lemma_first_match(codes: Seq<i32>, hresult: i32, from: nat, at: nat)
    requires
        from <= at < codes.len(),
        codes[at as int] == hresult,
        forall|earlier: int| from <= earlier < at ==> #[trigger] codes[earlier] != hresult,
    ensures
        first_match_from(codes, hresult, from) == Some(at),
    decreases at - from,
{
    if from < at {
        lemma_first_match(codes, hresult, from + 1, at);
    }
}

proof fn lemma_no_match(codes: Seq<i32>, hresult: i32, from: nat)
    requires
        forall|i: int| from <= i < codes.len() ==> #[trigger] codes[i] != hresult,
    ensures
        first_match_from(codes, hresult, from) is None,
    decreases codes.len() - from,
{
    if from < codes.len() {
        lemma_no_match(codes, hresult, from + 1);
    }
}

/// The text of the named condition that `hresult` stands for; empty where
/// it stands for none.
pub open spec fn known_error_text(codes: &StatusCodes, hresult: i32) -> Seq<char> {
    match codes.lookup(hresult) {
        Some(known) => known.text(),
        None => Seq::empty(),
    }
}

/// The text of the named condition that `hresult` stands for; empty where
/// it stands for none.
pub fn known_error(codes: &StatusCodes, hresult: i32) -> (text: &'static str)
    ensures
        text@ == known_error_text(codes, hresult),
{
    match codes.known(hresult) {
        Some(known) => known.description(),
        None => {
            proof {
                reveal_strlit("");
            }
            assert(""@ =~= Seq::<char>::empty());
            ""
        },
    }
}

/// What is shown for a status code: the named condition where the code has
/// one, else the code in eight hexadecimal digits with the host's
/// description of it.
pub open spec fn error_text(codes: &StatusCodes, hresult: i32, system_message: Seq<char>) -> Seq<
    char,
> {
    match codes.lookup(hresult) {
        Some(known) => "WSL error: "@ + known.text(),
        None => "Unknown WSL error 0x"@ + hex_digits_fixed(bits32(hresult), 8) + ": "@
            + system_message,
    }
}

impl WslError {
    /// The status code of the failure.
    pub closed spec fn code(&self) -> i32 {
        match self.underlying {
            UnderlyingError::Lxss(code, _) => code,
            UnderlyingError::Windows(code, _) => code,
        }
    }

    /// Whether the control service itself reported the failure.
    pub closed spec fn from_service(&self) -> bool {
        self.underlying is Lxss
    }

    /// The wording that came with the failure; empty where none did.
    pub closed spec fn detail(&self) -> Seq<char> {
        match self.underlying {
            UnderlyingError::Lxss(_, info) => match info.Message {
                Some(message) => message@,
                None => Seq::empty(),
            },
            UnderlyingError::Windows(_, message) => message@,
        }
    }

    /// An error that the control service reported.
    pub fn from_lxss(hresult: i32, info: LXSS_ERROR_INFO) -> (error: WslError)
        ensures
            error.code() == hresult,
            error.from_service(),
            error.detail() == (match info.Message {
                Some(message) => message@,
                None => Seq::<char>::empty(),
            }),
    {
        WslError { underlying: UnderlyingError::Lxss(hresult, info) }
    }

    /// An error that the host reported, or that the library raised itself,
    /// with its wording.
    pub fn from_windows(hresult: i32, message: String) -> (error: WslError)
        ensures
            error.code() == hresult,
            !error.from_service(),
            error.detail() == message@,
    {
        WslError { underlying: UnderlyingError::Windows(hresult, message) }
    }

    /// The status code of the failure.
    pub fn hresult(&self) -> (code: i32)
        ensures
            code == self.code(),
    {
        match &self.underlying {
            UnderlyingError::Lxss(code, _) => *code,
            UnderlyingError::Windows(code, _) => *code,
        }
    }

    /// The wording that came with the failure; empty where none did.
    pub fn message(&self) -> (text: &str)
        ensures
            text@ == self.detail(),
    {
        match &self.underlying {
            UnderlyingError::Lxss(_, info) => match &info.Message {
                Some(message) => message.as_str(),
                None => {
                    proof {
                        reveal_strlit("");
                    }
                    assert(""@ =~= Seq::<char>::empty());
                    ""
                },
            },
            UnderlyingError::Windows(_, message) => message.as_str(),
        }
    }

    /// Whether another error lies beneath this one: a host error does, a
    /// service error is its own cause.
    pub fn has_source(&self) -> (nested: bool)
        ensures
            nested == !self.from_service(),
    {
        match &self.underlying {
            UnderlyingError::Lxss(_, _) => false,
            UnderlyingError::Windows(_, _) => true,
        }
    }

    /// The class of the failure as seen from `host`.
    pub open spec fn kind_on(&self, host: Host) -> Option<WslErrorKind> {
        match host {
            Host::Other => Some(WslErrorKind::UnsupportedOperatingSystem),
            Host::Windows => if self.code() == class_not_registered() {
                Some(WslErrorKind::UnsupportedWslVersion)
            } else {
                None
            },
        }
    }

    /// Classifies the failure. Off the service's platform every failure
    /// means that the platform is missing; on it, a service class that is
    /// not registered means a service too old to use, and nothing else is
    /// classified.
    pub fn kind(&self, host: Host) -> (kind: Option<WslErrorKind>)
        ensures
            kind == self.kind_on(host),
    {
        match host {
            Host::Other => Some(WslErrorKind::UnsupportedOperatingSystem),
            Host::Windows => {
                if self.hresult() == regdb_e_classnotreg() {
                    Some(WslErrorKind::UnsupportedWslVersion)
                } else {
                    None
                }
            },
        }
    }

    /// The line shown for this error. `system_message` is the host's
    /// description of the status code, used where the code names no known
    /// condition.
    pub fn to_text(&self, codes: &StatusCodes, system_message: &str) -> (text: String)
        ensures
            text@ == error_text(codes, self.code(), system_message@),
    {
        let code = self.hresult();
        match codes.known(code) {
            Some(known) => {
                let mut text = String::from_str("WSL error: ");
                text.append(known.description());
                text
            },
            None => {
                let mut text = String::from_str("Unknown WSL error 0x");
                push_hex_fixed(&mut text, unsigned32(code) as u64, 8);
                text.append(": ");
                text.append(system_message);
                text
            },
        }
    }
}

} // verus!
