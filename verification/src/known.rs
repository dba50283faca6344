//! The conditions that the control service reports by name, their texts,
//! and the table that ties them to status codes.
use vstd::prelude::*;

verus! {

/// How many conditions the control service reports by name.
pub const KNOWN_ERROR_COUNT: usize = 45;

/// A condition that the control service reports by name.
#[derive(Clone, Copy, Debug, PartialEq, Eq, Hash, Structural)]
pub enum KnownError {
    DefaultDistroNotFound,
    DistroNotFound,
    Wsl1NotSupported,
    VmModeNotSupported,
    TooManyDisksAttached,
    Console,
    CustomKernelNotFound,
    UserNotFound,
    InvalidUsage,
    ExportFailed,
    ImportFailed,
    DistroNotStopped,
    TtyLimit,
    CustomSystemDistroError,
    LowerIntegrity,
    HigherIntegrity,
    FsUpgradeNeeded,
    UserVhdAlreadyAttached,
    VmModeInvalidState,
    VmModeMountNameAlreadyExists,
    ElevationNeededToMountDisk,
    DiskAlreadyAttached,
    DiskAlreadyMounted,
    DiskMountFailed,
    DiskUnmountFailed,
    Wsl2Needed,
    VmModeInvalidMountName,
    GuiApplicationsDisabled,
    DistroOnlyAvailableFromStore,
    WslMountNotSupported,
    WslOptionalComponentRequired,
    VmswitchNotFound,
    VmswitchNotSet,
    NotALinuxDistro,
    OsNotSupported,
    InstallProcessFailed,
    InstallComponentFailed,
    DiskMountDisabled,
    Wsl1Disabled,
    VirtualMachinePlatformRequired,
    LocalSystemNotSupported,
    DiskCorrupted,
    DistributionNameNeeded,
    InvalidJson,
    VmCrashed,
}

impl KnownError {
    /// The place of this condition in the service's list, counted from zero.
    pub open spec fn ordinal(self) -> nat {
        match self {
            KnownError::DefaultDistroNotFound => 0,
            KnownError::DistroNotFound => 1,
            KnownError::Wsl1NotSupported => 2,
            KnownError::VmModeNotSupported => 3,
            KnownError::TooManyDisksAttached => 4,
            KnownError::Console => 5,
            KnownError::CustomKernelNotFound => 6,
            KnownError::UserNotFound => 7,
            KnownError::InvalidUsage => 8,
            KnownError::ExportFailed => 9,
            KnownError::ImportFailed => 10,
            KnownError::DistroNotStopped => 11,
            KnownError::TtyLimit => 12,
            KnownError::CustomSystemDistroError => 13,
            KnownError::LowerIntegrity => 14,
            KnownError::HigherIntegrity => 15,
            KnownError::FsUpgradeNeeded => 16,
            KnownError::UserVhdAlreadyAttached => 17,
            KnownError::VmModeInvalidState => 18,
            KnownError::VmModeMountNameAlreadyExists => 19,
            KnownError::ElevationNeededToMountDisk => 20,
            KnownError::DiskAlreadyAttached => 21,
            KnownError::DiskAlreadyMounted => 22,
            KnownError::DiskMountFailed => 23,
            KnownError::DiskUnmountFailed => 24,
            KnownError::Wsl2Needed => 25,
            KnownError::VmModeInvalidMountName => 26,
            KnownError::GuiApplicationsDisabled => 27,
            KnownError::DistroOnlyAvailableFromStore => 28,
            KnownError::WslMountNotSupported => 29,
            KnownError::WslOptionalComponentRequired => 30,
            KnownError::VmswitchNotFound => 31,
            KnownError::VmswitchNotSet => 32,
            KnownError::NotALinuxDistro => 33,
            KnownError::OsNotSupported => 34,
            KnownError::InstallProcessFailed => 35,
            KnownError::InstallComponentFailed => 36,
            KnownError::DiskMountDisabled => 37,
            KnownError::Wsl1Disabled => 38,
            KnownError::VirtualMachinePlatformRequired => 39,
            KnownError::LocalSystemNotSupported => 40,
            KnownError::DiskCorrupted => 41,
            KnownError::DistributionNameNeeded => 42,
            KnownError::InvalidJson => 43,
            KnownError::VmCrashed => 44,
        }
    }

    /// The condition at place `ordinal` of the service's list.
    pub open spec fn at(ordinal: nat) -> KnownError
        recommends
            ordinal < KNOWN_ERROR_COUNT,
    {
        if ordinal == 0 {
            KnownError::DefaultDistroNotFound
        } else if ordinal == 1 {
            KnownError::DistroNotFound
        } else if ordinal == 2 {
            KnownError::Wsl1NotSupported
        } else if ordinal == 3 {
            KnownError::VmModeNotSupported
        } else if ordinal == 4 {
            KnownError::TooManyDisksAttached
        } else if ordinal == 5 {
            KnownError::Console
        } else if ordinal == 6 {
            KnownError::CustomKernelNotFound
        } else if ordinal == 7 {
            KnownError::UserNotFound
        } else if ordinal == 8 {
            KnownError::InvalidUsage
        } else if ordinal == 9 {
            KnownError::ExportFailed
        } else if ordinal == 10 {
            KnownError::ImportFailed
        } else if ordinal == 11 {
            KnownError::DistroNotStopped
        } else if ordinal == 12 {
            KnownError::TtyLimit
        } else if ordinal == 13 {
            KnownError::CustomSystemDistroError
        } else if ordinal == 14 {
            KnownError::LowerIntegrity
        } else if ordinal == 15 {
            KnownError::HigherIntegrity
        } else if ordinal == 16 {
            KnownError::FsUpgradeNeeded
        } else if ordinal == 17 {
            KnownError::UserVhdAlreadyAttached
        } else if ordinal == 18 {
            KnownError::VmModeInvalidState
        } else if ordinal == 19 {
            KnownError::VmModeMountNameAlreadyExists
        } else if ordinal == 20 {
            KnownError::ElevationNeededToMountDisk
        } else if ordinal == 21 {
            KnownError::DiskAlreadyAttached
        } else if ordinal == 22 {
            KnownError::DiskAlreadyMounted
        } else if ordinal == 23 {
            KnownError::DiskMountFailed
        } else if ordinal == 24 {
            KnownError::DiskUnmountFailed
        } else if ordinal == 25 {
            KnownError::Wsl2Needed
        } else if ordinal == 26 {
            KnownError::VmModeInvalidMountName
        } else if ordinal == 27 {
            KnownError::GuiApplicationsDisabled
        } else if ordinal == 28 {
            KnownError::DistroOnlyAvailableFromStore
        } else if ordinal == 29 {
            KnownError::WslMountNotSupported
        } else if ordinal == 30 {
            KnownError::WslOptionalComponentRequired
        } else if ordinal == 31 {
            KnownError::VmswitchNotFound
        } else if ordinal == 32 {
            KnownError::VmswitchNotSet
        } else if ordinal == 33 {
            KnownError::NotALinuxDistro
        } else if ordinal == 34 {
            KnownError::OsNotSupported
        } else if ordinal == 35 {
            KnownError::InstallProcessFailed
        } else if ordinal == 36 {
            KnownError::InstallComponentFailed
        } else if ordinal == 37 {
            KnownError::DiskMountDisabled
        } else if ordinal == 38 {
            KnownError::Wsl1Disabled
        } else if ordinal == 39 {
            KnownError::VirtualMachinePlatformRequired
        } else if ordinal == 40 {
            KnownError::LocalSystemNotSupported
        } else if ordinal == 41 {
            KnownError::DiskCorrupted
        } else if ordinal == 42 {
            KnownError::DistributionNameNeeded
        } else if ordinal == 43 {
            KnownError::InvalidJson
        } else {
            KnownError::VmCrashed
        }
    }

    /// The text shown for this condition.
    pub open spec fn text(self) -> Seq<char> {
        match self {
            KnownError::DefaultDistroNotFound => "Default distribution not found"@,
            KnownError::DistroNotFound => "Distribution not found"@,
            KnownError::Wsl1NotSupported => "WSL 1 not supported"@,
            KnownError::VmModeNotSupported => "VM mode not supported"@,
            KnownError::TooManyDisksAttached => "Too many disks attached"@,
            KnownError::Console => "Console"@,
            KnownError::CustomKernelNotFound => "Custom kernel not found"@,
            KnownError::UserNotFound => "User not found"@,
            KnownError::InvalidUsage => "Invalid usage"@,
            KnownError::ExportFailed => "Export failed"@,
            KnownError::ImportFailed => "Import failed"@,
            KnownError::DistroNotStopped => "Distribution not stopped"@,
            KnownError::TtyLimit => "TTY limit"@,
            KnownError::CustomSystemDistroError => "Custom system distro error"@,
            KnownError::LowerIntegrity => "Lower integrity"@,
            KnownError::HigherIntegrity => "Higher integrity"@,
            KnownError::FsUpgradeNeeded => "FS upgrade needed"@,
            KnownError::UserVhdAlreadyAttached => "User VHD already attached"@,
            KnownError::VmModeInvalidState => "VM mode invalid state"@,
            KnownError::VmModeMountNameAlreadyExists => "VM mode mount name already exists"@,
            KnownError::ElevationNeededToMountDisk => "Elevation needed to mount disk"@,
            KnownError::DiskAlreadyAttached => "Disk already attached"@,
            KnownError::DiskAlreadyMounted => "Disk already mounted"@,
            KnownError::DiskMountFailed => "Disk mount failed"@,
            KnownError::DiskUnmountFailed => "Disk unmount failed"@,
            KnownError::Wsl2Needed => "WSL 2 needed"@,
            KnownError::VmModeInvalidMountName => "VM mode invalid mount name"@,
            KnownError::GuiApplicationsDisabled => "GUI applications disabled"@,
            KnownError::DistroOnlyAvailableFromStore => "Distribution only available from store"@,
            KnownError::WslMountNotSupported => "WSL mount not supported"@,
            KnownError::WslOptionalComponentRequired => "WSL optional component required"@,
            KnownError::VmswitchNotFound => "VMSwitch not found"@,
            KnownError::VmswitchNotSet => "VMSwitch not set"@,
            KnownError::NotALinuxDistro => "Not a Linux distro"@,
            KnownError::OsNotSupported => "OS not supported"@,
            KnownError::InstallProcessFailed => "Install process failed"@,
            KnownError::InstallComponentFailed => "Install component failed"@,
            KnownError::DiskMountDisabled => "Disk mount disabled"@,
            KnownError::Wsl1Disabled => "WSL 1 disabled"@,
            KnownError::VirtualMachinePlatformRequired => "Virtual machine platform required"@,
            KnownError::LocalSystemNotSupported => "Local system not supported"@,
            KnownError::DiskCorrupted => "Disk corrupted"@,
            KnownError::DistributionNameNeeded => "Distribution name needed"@,
            KnownError::InvalidJson => "Invalid JSON"@,
            KnownError::VmCrashed => "VM crashed"@,
        }
    }

    /// The place of this condition in the service's list.
    pub fn index(self) -> (index: usize)
        ensures
            index == self.ordinal(),
            index < KNOWN_ERROR_COUNT,
    {
        match self {
            KnownError::DefaultDistroNotFound => 0,
            KnownError::DistroNotFound => 1,
            KnownError::Wsl1NotSupported => 2,
            KnownError::VmModeNotSupported => 3,
            KnownError::TooManyDisksAttached => 4,
            KnownError::Console => 5,
            KnownError::CustomKernelNotFound => 6,
            KnownError::UserNotFound => 7,
            KnownError::InvalidUsage => 8,
            KnownError::ExportFailed => 9,
            KnownError::ImportFailed => 10,
            KnownError::DistroNotStopped => 11,
            KnownError::TtyLimit => 12,
            KnownError::CustomSystemDistroError => 13,
            KnownError::LowerIntegrity => 14,
            KnownError::HigherIntegrity => 15,
            KnownError::FsUpgradeNeeded => 16,
            KnownError::UserVhdAlreadyAttached => 17,
            KnownError::VmModeInvalidState => 18,
            KnownError::VmModeMountNameAlreadyExists => 19,
            KnownError::ElevationNeededToMountDisk => 20,
            KnownError::DiskAlreadyAttached => 21,
            KnownError::DiskAlreadyMounted => 22,
            KnownError::DiskMountFailed => 23,
            KnownError::DiskUnmountFailed => 24,
            KnownError::Wsl2Needed => 25,
            KnownError::VmModeInvalidMountName => 26,
            KnownError::GuiApplicationsDisabled => 27,
            KnownError::DistroOnlyAvailableFromStore => 28,
            KnownError::WslMountNotSupported => 29,
            KnownError::WslOptionalComponentRequired => 30,
            KnownError::VmswitchNotFound => 31,
            KnownError::VmswitchNotSet => 32,
            KnownError::NotALinuxDistro => 33,
            KnownError::OsNotSupported => 34,
            KnownError::InstallProcessFailed => 35,
            KnownError::InstallComponentFailed => 36,
            KnownError::DiskMountDisabled => 37,
            KnownError::Wsl1Disabled => 38,
            KnownError::VirtualMachinePlatformRequired => 39,
            KnownError::LocalSystemNotSupported => 40,
            KnownError::DiskCorrupted => 41,
            KnownError::DistributionNameNeeded => 42,
            KnownError::InvalidJson => 43,
            KnownError::VmCrashed => 44,
        }
    }

    /// The condition at a place of the service's list, if the list is that
    /// long.
    pub fn from_index(index: usize) -> (known: Option<KnownError>)
        ensures
            known == (if index < KNOWN_ERROR_COUNT {
                Some(KnownError::at(index as nat))
            } else {
                None::<KnownError>
            }),
    {
        match index {
            0 => Some(KnownError::DefaultDistroNotFound),
            1 => Some(KnownError::DistroNotFound),
            2 => Some(KnownError::Wsl1NotSupported),
            3 => Some(KnownError::VmModeNotSupported),
            4 => Some(KnownError::TooManyDisksAttached),
            5 => Some(KnownError::Console),
            6 => Some(KnownError::CustomKernelNotFound),
            7 => Some(KnownError::UserNotFound),
            8 => Some(KnownError::InvalidUsage),
            9 => Some(KnownError::ExportFailed),
            10 => Some(KnownError::ImportFailed),
            11 => Some(KnownError::DistroNotStopped),
            12 => Some(KnownError::TtyLimit),
            13 => Some(KnownError::CustomSystemDistroError),
            14 => Some(KnownError::LowerIntegrity),
            15 => Some(KnownError::HigherIntegrity),
            16 => Some(KnownError::FsUpgradeNeeded),
            17 => Some(KnownError::UserVhdAlreadyAttached),
            18 => Some(KnownError::VmModeInvalidState),
            19 => Some(KnownError::VmModeMountNameAlreadyExists),
            20 => Some(KnownError::ElevationNeededToMountDisk),
            21 => Some(KnownError::DiskAlreadyAttached),
            22 => Some(KnownError::DiskAlreadyMounted),
            23 => Some(KnownError::DiskMountFailed),
            24 => Some(KnownError::DiskUnmountFailed),
            25 => Some(KnownError::Wsl2Needed),
            26 => Some(KnownError::VmModeInvalidMountName),
            27 => Some(KnownError::GuiApplicationsDisabled),
            28 => Some(KnownError::DistroOnlyAvailableFromStore),
            29 => Some(KnownError::WslMountNotSupported),
            30 => Some(KnownError::WslOptionalComponentRequired),
            31 => Some(KnownError::VmswitchNotFound),
            32 => Some(KnownError::VmswitchNotSet),
            33 => Some(KnownError::NotALinuxDistro),
            34 => Some(KnownError::OsNotSupported),
            35 => Some(KnownError::InstallProcessFailed),
            36 => Some(KnownError::InstallComponentFailed),
            37 => Some(KnownError::DiskMountDisabled),
            38 => Some(KnownError::Wsl1Disabled),
            39 => Some(KnownError::VirtualMachinePlatformRequired),
            40 => Some(KnownError::LocalSystemNotSupported),
            41 => Some(KnownError::DiskCorrupted),
            42 => Some(KnownError::DistributionNameNeeded),
            43 => Some(KnownError::InvalidJson),
            44 => Some(KnownError::VmCrashed),
            _ => None,
        }
    }

    /// The text shown for this condition.
    pub fn description(self) -> (text: &'static str)
        ensures
            text@ == self.text(),
    {
        match self {
            KnownError::DefaultDistroNotFound => "Default distribution not found",
            KnownError::DistroNotFound => "Distribution not found",
            KnownError::Wsl1NotSupported => "WSL 1 not supported",
            KnownError::VmModeNotSupported => "VM mode not supported",
            KnownError::TooManyDisksAttached => "Too many disks attached",
            KnownError::Console => "Console",
            KnownError::CustomKernelNotFound => "Custom kernel not found",
            KnownError::UserNotFound => "User not found",
            KnownError::InvalidUsage => "Invalid usage",
            KnownError::ExportFailed => "Export failed",
            KnownError::ImportFailed => "Import failed",
            KnownError::DistroNotStopped => "Distribution not stopped",
            KnownError::TtyLimit => "TTY limit",
            KnownError::CustomSystemDistroError => "Custom system distro error",
            KnownError::LowerIntegrity => "Lower integrity",
            KnownError::HigherIntegrity => "Higher integrity",
            KnownError::FsUpgradeNeeded => "FS upgrade needed",
            KnownError::UserVhdAlreadyAttached => "User VHD already attached",
            KnownError::VmModeInvalidState => "VM mode invalid state",
            KnownError::VmModeMountNameAlreadyExists => "VM mode mount name already exists",
            KnownError::ElevationNeededToMountDisk => "Elevation needed to mount disk",
            KnownError::DiskAlreadyAttached => "Disk already attached",
            KnownError::DiskAlreadyMounted => "Disk already mounted",
            KnownError::DiskMountFailed => "Disk mount failed",
            KnownError::DiskUnmountFailed => "Disk unmount failed",
            KnownError::Wsl2Needed => "WSL 2 needed",
            KnownError::VmModeInvalidMountName => "VM mode invalid mount name",
            KnownError::GuiApplicationsDisabled => "GUI applications disabled",
            KnownError::DistroOnlyAvailableFromStore => "Distribution only available from store",
            KnownError::WslMountNotSupported => "WSL mount not supported",
            KnownError::WslOptionalComponentRequired => "WSL optional component required",
            KnownError::VmswitchNotFound => "VMSwitch not found",
            KnownError::VmswitchNotSet => "VMSwitch not set",
            KnownError::NotALinuxDistro => "Not a Linux distro",
            KnownError::OsNotSupported => "OS not supported",
            KnownError::InstallProcessFailed => "Install process failed",
            KnownError::InstallComponentFailed => "Install component failed",
            KnownError::DiskMountDisabled => "Disk mount disabled",
            KnownError::Wsl1Disabled => "WSL 1 disabled",
            KnownError::VirtualMachinePlatformRequired => "Virtual machine platform required",
            KnownError::LocalSystemNotSupported => "Local system not supported",
            KnownError::DiskCorrupted => "Disk corrupted",
            KnownError::DistributionNameNeeded => "Distribution name needed",
            KnownError::InvalidJson => "Invalid JSON",
            KnownError::VmCrashed => "VM crashed",
        }
    }

    /// Places and conditions correspond one to one.
    pub proof fn lemma_ordinal_round_trip(self)
        ensures
            self.ordinal() < KNOWN_ERROR_COUNT,
            KnownError::at(self.ordinal()) == self,
    {
    }

    /// Every place below the count holds the condition with that ordinal.
    pub proof fn lemma_at_round_trip(ordinal: nat)
        requires
            ordinal < KNOWN_ERROR_COUNT,
        ensures
            KnownError::at(ordinal).ordinal() == ordinal,
    {
    }
}

} // verus!
