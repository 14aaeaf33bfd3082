use dmc_mod_loader::shim::{real_library_path, BindCell, FirstUse};
use dmc_mod_loader::status::{Status, StatusCell, StatusError};
use dmc_mod_loader::verify::Integrity;
use dmc_mod_loader::status::build_status;
use dmc_mod_loader::policy::Subject;

#[test]
fn binding_happens_exactly_once() {
    let mut cell = BindCell::new();
    // The first caller is told to resolve; from then on nobody else is.
    assert_eq!(cell.first_use(), FirstUse::StartResolve);
    assert_eq!(cell.first_use(), FirstUse::AwaitResolution);
    assert_eq!(cell.first_use(), FirstUse::AwaitResolution);
    cell.resolve_succeeded(0x1234);
    // Every later caller observes the one bound handle.
    assert_eq!(cell.first_use(), FirstUse::Use(0x1234));
    assert_eq!(cell.first_use(), FirstUse::Use(0x1234));
    assert_eq!(cell.bound_handle(), Some(0x1234));
}

#[test]
fn failed_binding_is_terminal() {
    let mut cell = BindCell::new();
    assert_eq!(cell.first_use(), FirstUse::StartResolve);
    cell.resolve_failed();
    assert_eq!(cell.first_use(), FirstUse::Fatal);
    assert_eq!(cell.first_use(), FirstUse::Fatal);
    assert_eq!(cell.bound_handle(), None);
}

#[test]
fn unbound_cell_has_no_handle() {
    let cell = BindCell::new();
    assert_eq!(cell.bound_handle(), None);
}

#[test]
fn real_library_path_honours_the_system_root() {
    assert_eq!(
        real_library_path(Some("D:\\Win")),
        "D:\\Win\\System32\\dinput8.dll"
    );
    assert_eq!(
        real_library_path(None),
        "C:\\Windows\\System32\\dinput8.dll"
    );
}

#[test]
fn status_publication_is_write_once() {
    let mut cell = StatusCell::new();
    assert_eq!(cell.read(), Err(StatusError::ReadBeforePublish));
    let first = Status {
        crimson_hash_error: false,
        dmc3_hash_error: true,
        dmc1_hash_error: false,
        ddmk_hash_error: false,
    };
    assert_eq!(cell.publish(first), Ok(()));
    assert_eq!(cell.read(), Ok(first));
    // A second publication is rejected and changes nothing.
    let second = Status {
        crimson_hash_error: true,
        dmc3_hash_error: false,
        dmc1_hash_error: true,
        ddmk_hash_error: true,
    };
    assert_eq!(cell.publish(second), Err(StatusError::DoublePublish));
    assert_eq!(cell.read(), Ok(first));
    assert_eq!(cell.read(), Ok(first));
}

#[test]
fn status_flags_are_independent_per_subject() {
    let status = build_status(
        &Subject::Dmc1,
        &Some(Integrity::Mismatched),
        &Some(Integrity::NotFound),
        &None,
    );
    assert!(status.dmc1_hash_error);
    assert!(!status.dmc3_hash_error);
    assert!(!status.ddmk_hash_error);
    assert!(!status.crimson_hash_error);
    let status = build_status(
        &Subject::Dmc3,
        &Some(Integrity::Mismatched),
        &None,
        &Some(Integrity::Mismatched),
    );
    assert!(!status.dmc1_hash_error);
    assert!(status.dmc3_hash_error);
    assert!(!status.ddmk_hash_error);
    assert!(status.crimson_hash_error);
}

#[test]
fn skipped_checks_raise_no_flags() {
    let status = build_status(&Subject::Dmc3, &None, &None, &None);
    assert!(!status.crimson_hash_error);
    assert!(!status.dmc3_hash_error);
    assert!(!status.dmc1_hash_error);
    assert!(!status.ddmk_hash_error);
    // A missing or unreadable file is not a corruption signal.
    let status = build_status(
        &Subject::Dmc3,
        &Some(Integrity::NotFound),
        &Some(Integrity::IOError),
        &Some(Integrity::NotFound),
    );
    assert!(!status.crimson_hash_error);
    assert!(!status.dmc3_hash_error);
    assert!(!status.ddmk_hash_error);
}
