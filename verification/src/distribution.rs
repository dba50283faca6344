//! A guest environment as the control service lists it.
use crate::version::Version;
use vstd::prelude::*;

verus! {

/// One entry of the control service's list of guest environments.
#[derive(Debug)]
pub struct LXSS_ENUMERATE_INFO {
    /// The 128-bit identifier of the environment.
    pub DistroGuid: u128,
    pub State: u32,
    /// The number of the environment's generation.
    pub Version: u32,
    pub Flags: u32,
    pub DistroName: String,
}

/// One registered guest environment.
#[derive(Debug)]
pub struct Distribution {
    pub name: String,
    /// The 128-bit identifier of the environment: compared, never
    /// interpreted.
    pub uuid: u128,
    pub version: Version,
}

impl Distribution {
    /// The environment that a listing entry describes: its name and
    /// identifier as they are, its generation read from the number.
    pub fn from(info: &LXSS_ENUMERATE_INFO) -> (distribution: Distribution)
        ensures
            distribution.name@ == info.DistroName@,
            distribution.uuid == info.DistroGuid,
            distribution.version == Version::of_raw(info.Version),
    {
        Distribution {
            name: info.DistroName.clone(),
            uuid: info.DistroGuid,
            version: Version::from_raw(info.Version),
        }
    }
}

} // verus!
