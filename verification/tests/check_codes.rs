use wolferr::error::WolfError;

#[test]
fn success_code_is_ok() {
    let r = WolfError::check(1, String::from("unused"));
    assert!(r.is_ok());
}

#[test]
fn error_none_code_is_ok() {
    let r = WolfError::check(0, String::from("unused"));
    assert!(r.is_ok());
}

#[test]
fn want_read_code() {
    let r = WolfError::check(2, String::from("unused"));
    assert!(matches!(r, Err(WolfError::WantRead)));
}

#[test]
fn want_write_code() {
    let r = WolfError::check(3, String::from("unused"));
    assert!(matches!(r, Err(WolfError::WantWrite)));
}

#[test]
fn unknown_positive_code() {
    let r = WolfError::check(5, String::from("syscall error"));
    match r {
        Err(WolfError::Unknown { what, code }) => {
            assert_eq!(what, "syscall error");
            assert_eq!(code, 5);
        }
        other => panic!("expected an unknown error, got {:?}", other),
    }
}

#[test]
fn unknown_negative_code_wraps() {
    let r = WolfError::check(-313, String::from("record layer version error"));
    match r {
        Err(WolfError::Unknown { what, code }) => {
            assert_eq!(what, "record layer version error");
            assert_eq!(code, -313i32 as usize);
            assert_eq!(code, usize::MAX - 312);
        }
        other => panic!("expected an unknown error, got {:?}", other),
    }
}

#[test]
fn non_fatal_errors() {
    assert!(WolfError::WantRead.is_non_fatal());
    assert!(WolfError::WantWrite.is_non_fatal());
    assert!(!WolfError::Unknown {
        what: String::from("x"),
        code: 7,
    }
    .is_non_fatal());
}

#[test]
fn wolf_error_messages() {
    assert_eq!(
        WolfError::WantRead.message(),
        "WolfSSL needs to read more data to progress"
    );
    assert_eq!(
        WolfError::WantWrite.message(),
        "WolfSSL needs to send more data to progress"
    );
    let e = WolfError::Unknown {
        what: String::from("oops"),
        code: 42,
    };
    assert_eq!(e.message(), "unknown: oops, code: 42");
}
