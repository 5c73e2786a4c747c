use selinux::error::handle_error;
use selinux::error::handle_file_error;
use selinux::utils::interpret_enabled_status;
use selinux::Error;

#[test]
fn no_space_maps_to_no_space() {
    assert_eq!(handle_file_error(-1, libc::ENOSPC), Err(Error::NoSpace));
}

#[test]
fn quota_maps_to_quota_exceeded() {
    assert_eq!(handle_file_error(-1, libc::EDQUOT), Err(Error::QuotaExceeded));
}

#[test]
fn not_supported_maps_to_not_supported() {
    assert_eq!(handle_file_error(-1, libc::ENOTSUP), Err(Error::NotSupported));
}

#[test]
fn other_codes_keep_their_raw_value() {
    assert_eq!(handle_file_error(-1, libc::ENOENT), Err(Error::SysErrno(libc::ENOENT)));
    assert_eq!(handle_file_error(-1, libc::EACCES), Err(Error::SysErrno(libc::EACCES)));
}

#[test]
fn file_success_ignores_the_code() {
    assert_eq!(handle_file_error(0, libc::ENOSPC), Ok(()));
}

#[test]
fn plain_status_maps_to_generic_failure() {
    assert_eq!(handle_error(0), Ok(()));
    assert_eq!(handle_error(-1), Err(Error::GenericFailure));
    assert_eq!(handle_error(1), Err(Error::GenericFailure));
}

#[test]
fn enabled_status_interpretation() {
    assert_eq!(interpret_enabled_status(0), Some(false));
    assert_eq!(interpret_enabled_status(1), Some(true));
    assert_eq!(interpret_enabled_status(-1), None);
    assert_eq!(interpret_enabled_status(2), None);
}
