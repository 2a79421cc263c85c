use wolferr::error::LoadRootCertificateError;

#[test]
fn known_load_root_codes() {
    assert!(matches!(
        LoadRootCertificateError::from(-462),
        LoadRootCertificateError::BadFiletype
    ));
    assert!(matches!(
        LoadRootCertificateError::from(-463),
        LoadRootCertificateError::BadFile
    ));
    assert!(matches!(
        LoadRootCertificateError::from(-125),
        LoadRootCertificateError::Memory
    ));
    assert!(matches!(
        LoadRootCertificateError::from(-154),
        LoadRootCertificateError::AsnInput
    ));
    assert!(matches!(
        LoadRootCertificateError::from(-132),
        LoadRootCertificateError::Buffer
    ));
    assert!(matches!(
        LoadRootCertificateError::from(0),
        LoadRootCertificateError::Failure
    ));
    assert!(matches!(
        LoadRootCertificateError::from(-151),
        LoadRootCertificateError::AsnAfterDate
    ));
    assert!(matches!(
        LoadRootCertificateError::from(-150),
        LoadRootCertificateError::AsnBeforeDate
    ));
    assert!(matches!(
        LoadRootCertificateError::from(-244),
        LoadRootCertificateError::Path
    ));
}

#[test]
fn unknown_load_root_code() {
    match LoadRootCertificateError::from(-999) {
        LoadRootCertificateError::Other(code) => assert_eq!(code, -999),
        other => panic!("expected the catch-all variant, got {:?}", other),
    }
}

#[test]
fn load_root_messages() {
    assert_eq!(LoadRootCertificateError::Failure.message(), "SSL_FAILURE");
    assert_eq!(
        LoadRootCertificateError::BadFiletype.message(),
        "SSL_BAD_FILETYPE"
    );
    assert_eq!(LoadRootCertificateError::BadFile.message(), "SSL_BAD_FILE");
    assert_eq!(LoadRootCertificateError::Memory.message(), "MEMORY_E");
    assert_eq!(LoadRootCertificateError::AsnInput.message(), "ASN_INPUT_E");
    assert_eq!(
        LoadRootCertificateError::AsnBeforeDate.message(),
        "ASN_BEFORE_DATE_E"
    );
    assert_eq!(
        LoadRootCertificateError::AsnAfterDate.message(),
        "ASN_AFTER_DATE_E"
    );
    assert_eq!(LoadRootCertificateError::Buffer.message(), "BUFFER_E");
    assert_eq!(LoadRootCertificateError::Path.message(), "BAD_PATH_ERROR");
    assert_eq!(
        LoadRootCertificateError::Other(-999).message(),
        "Unknown: -999"
    );
}

#[test]
fn init_and_cleanup_messages() {
    assert_eq!(wolferr::error::WolfInitError::Mutex.message(), "BAD_MUTEX_E");
    assert_eq!(wolferr::error::WolfInitError::WolfCrypt.message(), "WC_INIT_E");
    assert_eq!(
        wolferr::error::WolfCleanupError::Mutex.message(),
        "BAD_MUTEX_E"
    );
}
