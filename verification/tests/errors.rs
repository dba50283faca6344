use wsl_api::error::{
    known_error, Host, StatusCodes, WslError, WslErrorKind, LXSS_ERROR_INFO,
};
use wsl_api::known::{KnownError, KNOWN_ERROR_COUNT};

fn table() -> [i32; 45] {
    let mut table = [0i32; 45];
    let mut i = 0;
    while i < 45 {
        table[i] = -1000 - (i as i32);
        i += 1;
    }
    table
}

fn codes() -> StatusCodes {
    StatusCodes::new(table())
}

fn info(message: Option<&str>) -> LXSS_ERROR_INFO {
    LXSS_ERROR_INFO {
        Flags: 0,
        Context: 0,
        Message: message.map(String::from),
        Warnings: None,
        WarningsPipe: 0,
    }
}

#[test]
fn every_known_error_has_its_text() {
    let expected = [
        "Default distribution not found",
        "Distribution not found",
        "WSL 1 not supported",
        "VM mode not supported",
        "Too many disks attached",
        "Console",
        "Custom kernel not found",
        "User not found",
        "Invalid usage",
        "Export failed",
        "Import failed",
        "Distribution not stopped",
        "TTY limit",
        "Custom system distro error",
        "Lower integrity",
        "Higher integrity",
        "FS upgrade needed",
        "User VHD already attached",
        "VM mode invalid state",
        "VM mode mount name already exists",
        "Elevation needed to mount disk",
        "Disk already attached",
        "Disk already mounted",
        "Disk mount failed",
        "Disk unmount failed",
        "WSL 2 needed",
        "VM mode invalid mount name",
        "GUI applications disabled",
        "Distribution only available from store",
        "WSL mount not supported",
        "WSL optional component required",
        "VMSwitch not found",
        "VMSwitch not set",
        "Not a Linux distro",
        "OS not supported",
        "Install process failed",
        "Install component failed",
        "Disk mount disabled",
        "WSL 1 disabled",
        "Virtual machine platform required",
        "Local system not supported",
        "Disk corrupted",
        "Distribution name needed",
        "Invalid JSON",
        "VM crashed",
    ];
    assert_eq!(expected.len(), KNOWN_ERROR_COUNT);
    for (index, text) in expected.iter().enumerate() {
        let known = KnownError::from_index(index).unwrap();
        assert_eq!(known.index(), index);
        assert_eq!(known.description(), *text);
        assert_eq!(known_error(&codes(), -1000 - index as i32), *text);
    }
    assert_eq!(KnownError::from_index(45), None);
    assert_eq!(KnownError::from_index(usize::MAX), None);
}

#[test]
fn unknown_code_has_no_text() {
    assert_eq!(known_error(&codes(), 0), "");
    assert_eq!(known_error(&codes(), -999), "");
    assert_eq!(known_error(&codes(), -1045), "");
    assert_eq!(codes().known(5), None);
}

#[test]
fn code_and_condition_correspond() {
    let codes = codes();
    assert_eq!(codes.code(KnownError::DistroNotFound), -1001);
    assert_eq!(codes.known(-1001), Some(KnownError::DistroNotFound));
    assert_eq!(codes.known(-1044), Some(KnownError::VmCrashed));
    assert_eq!(codes.known(-1000), Some(KnownError::DefaultDistroNotFound));
}

#[test]
fn first_condition_wins_where_codes_repeat() {
    let mut table = table();
    table[7] = table[2];
    let codes = StatusCodes::new(table);
    assert_eq!(codes.known(-1002), Some(KnownError::Wsl1NotSupported));
    assert_eq!(codes.known(-1007), None);
}

#[test]
fn known_error_is_shown_by_name() {
    let error = WslError::from_lxss(-1001, info(None));
    assert_eq!(
        error.to_text(&codes(), "ignored"),
        "WSL error: Distribution not found"
    );
}

#[test]
fn unknown_error_is_shown_with_code_and_system_text() {
    let error = WslError::from_windows(-2147024891, String::new());
    assert_eq!(
        error.to_text(&codes(), "Access is denied."),
        "Unknown WSL error 0x80070005: Access is denied."
    );
    let small = WslError::from_windows(0x2a, String::new());
    assert_eq!(
        small.to_text(&codes(), ""),
        "Unknown WSL error 0x0000002a: "
    );
}

#[test]
fn hresult_is_the_code_of_either_source() {
    assert_eq!(WslError::from_lxss(-3, info(None)).hresult(), -3);
    assert_eq!(
        WslError::from_windows(-4, String::from("x")).hresult(),
        -4
    );
}

#[test]
fn message_is_what_came_with_the_error() {
    assert_eq!(
        WslError::from_lxss(-3, info(Some("no such user"))).message(),
        "no such user"
    );
    assert_eq!(WslError::from_lxss(-3, info(None)).message(), "");
    assert_eq!(
        WslError::from_windows(-4, String::from("bad handle")).message(),
        "bad handle"
    );
}

#[test]
fn only_host_errors_have_a_source() {
    assert!(!WslError::from_lxss(-3, info(None)).has_source());
    assert!(WslError::from_windows(-4, String::new()).has_source());
}

#[test]
fn unregistered_class_means_unsupported_service() {
    let error = WslError::from_windows(0x80040154u32 as i32, String::new());
    assert_eq!(
        error.kind(Host::Windows),
        Some(WslErrorKind::UnsupportedWslVersion)
    );
    let other = WslError::from_windows(0x80040155u32 as i32, String::new());
    assert_eq!(other.kind(Host::Windows), None);
    let service = WslError::from_lxss(0x80040154u32 as i32, info(None));
    assert_eq!(
        service.kind(Host::Windows),
        Some(WslErrorKind::UnsupportedWslVersion)
    );
}

#[test]
fn every_error_off_the_platform_means_unsupported_system() {
    for code in [0, -1, 0x80040154u32 as i32] {
        let error = WslError::from_windows(code, String::new());
        assert_eq!(
            error.kind(Host::Other),
            Some(WslErrorKind::UnsupportedOperatingSystem)
        );
    }
}
