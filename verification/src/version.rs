//! Execution generations of a guest environment and their wire encoding.
use vstd::prelude::*;

verus! {

/// The execution generation of a guest environment.
#[derive(Clone, Copy, Debug, PartialEq, Eq, PartialOrd, Ord, Hash, Structural)]
pub enum Version {
    Legacy,
    WSL1,
    WSL2,
    Unknown(u32),
}

impl Version {
    /// The number that the control service uses for this generation.
    pub open spec fn raw(self) -> u32 {
        match self {
            Version::Legacy => 0,
            Version::WSL1 => 1,
            Version::WSL2 => 2,
            Version::Unknown(v) => v,
        }
    }

    /// The generation that the control service means by `raw` when it lists
    /// its environments: one and two are named, every other number is kept
    /// as it came.
    pub open spec fn of_raw(raw: u32) -> Version {
        if raw == 1 {
            Version::WSL1
        } else if raw == 2 {
            Version::WSL2
        } else {
            Version::Unknown(raw)
        }
    }

    /// Reads a generation out of a listing entry.
    pub fn from_raw(raw: u32) -> (version: Version)
        ensures
            version == Version::of_raw(raw),
    {
        if raw == 1 {
            Version::WSL1
        } else if raw == 2 {
            Version::WSL2
        } else {
            Version::Unknown(raw)
        }
    }

    /// Encodes a generation for a request.
    pub fn to_raw(self) -> (raw: u32)
        ensures
            raw == self.raw(),
    {
        match self {
            Version::Legacy => 0,
            Version::WSL1 => 1,
            Version::WSL2 => 2,
            Version::Unknown(v) => v,
        }
    }

    /// Decoding a number and encoding the result gives the number back.
    pub proof fn lemma_encode_decode(raw: u32)
        ensures
            Version::of_raw(raw).raw() == raw,
    {
    }

    /// Encoding loses nothing but the spelling: two generations with one
    /// number decode to the same generation.
    pub proof fn lemma_decode_encode(version: Version)
        ensures
            Version::of_raw(version.raw()).raw() == version.raw(),
            (version == Version::of_raw(version.raw())) <==> !(version is Legacy || version
                == Version::Unknown(1) || version == Version::Unknown(2)),
    {
    }
}

impl From<Version> for u32 {
    fn from(version: Version) -> (raw: u32) {
        version.to_raw()
    }
}

impl vstd::std_specs::convert::FromSpecImpl<Version> for u32 {
    open spec fn obeys_from_spec() -> bool {
        true
    }

    open spec fn from_spec(version: Version) -> u32 {
        version.raw()
    }
}

} // verus!
