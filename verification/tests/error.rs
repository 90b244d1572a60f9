use jemalloc_ctl::error::{cvt, Error, ENOENT};

#[test]
fn cvt_of_zero_is_success() {
    assert_eq!(cvt(0), Ok(()));
}

#[test]
fn cvt_hands_on_the_error_number() {
    assert_eq!(cvt(22), Err(22));
    assert_eq!(cvt(2), Err(2));
    assert_eq!(cvt(-1), Err(-1));
    assert_eq!(cvt(i32::MAX), Err(i32::MAX));
    assert_eq!(cvt(i32::MIN), Err(i32::MIN));
}

#[test]
fn the_number_of_an_unknown_key() {
    assert_eq!(ENOENT, 2);
}

#[test]
fn an_error_carries_its_number() {
    assert_eq!(Error::Resolution(2).code(), Some(2));
    assert_eq!(Error::Access(22).code(), Some(22));
    assert_eq!(Error::Encoding.code(), None);
}

#[test]
fn the_kinds_of_error_differ() {
    assert_ne!(Error::Resolution(22), Error::Access(22));
    assert_ne!(Error::Access(22), Error::Encoding);
    assert_ne!(Error::Access(22), Error::Access(1));
}
