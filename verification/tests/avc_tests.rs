use selinux::Avc;
use selinux::Error;

#[test]
fn reset_while_uninitialized_is_a_defined_failure() {
    let avc = Avc::new();
    assert_eq!(avc.reset(), Err(Error::GenericFailure));
    assert_eq!(avc.reset(), Err(Error::GenericFailure));
}

#[test]
fn open_lifecycle() {
    let mut avc = Avc::new();
    assert!(!avc.is_open());

    assert_eq!(avc.open(true), Ok(true));
    assert_eq!(avc.open_done(0), Ok(()));
    assert!(avc.is_open());

    assert_eq!(avc.reset(), Ok(()));
    assert!(avc.is_open());

    assert!(avc.destroy());
    assert!(!avc.is_open());
    assert_eq!(avc.reset(), Err(Error::GenericFailure));
}

#[test]
fn second_open_without_destroy_is_refused() {
    let mut avc = Avc::new();
    assert_eq!(avc.open(false), Ok(false));
    assert_eq!(avc.open_done(0), Ok(()));

    assert_eq!(avc.open(true), Err(Error::GenericFailure));
    assert_eq!(avc.open_done(0), Err(Error::GenericFailure));
    assert!(avc.is_open());
}

#[test]
fn failed_open_leaves_the_cache_uninitialized() {
    let mut avc = Avc::new();
    assert_eq!(avc.open(true), Ok(true));
    assert_eq!(avc.open_done(-1), Err(Error::GenericFailure));
    assert!(!avc.is_open());

    assert_eq!(avc.open(true), Ok(true));
}

#[test]
fn cleanup_is_a_no_op_outside_open() {
    let mut avc = Avc::new();
    assert!(!avc.cleanup());

    assert_eq!(avc.open(false), Ok(false));
    assert_eq!(avc.open_done(0), Ok(()));
    assert!(avc.cleanup());
}

#[test]
fn destroy_while_uninitialized_is_a_no_op() {
    let mut avc = Avc::new();
    assert!(!avc.destroy());
    assert!(!avc.is_open());
}
