//! Typed errors for the integer codes reported by the wolfSSL library, and
//! human-readable messages for them.

use vstd::prelude::*;
use vstd::slice::slice_subrange;
use crate::decimal::{dec_digits, dec_digits_signed, u64_to_decimal};

verus! {

/// The characters that a byte string denotes under UTF-8 decoding with
/// replacement of invalid sequences, as `String::from_utf8_lossy` computes
/// them.
pub uninterp spec fn lossy_utf8(bytes: Seq<u8>) -> Seq<char>;

/// Relies on `alloc::string::String::from_utf8_lossy`: the decoding is a
/// function of the bytes alone; valid UTF-8 passes through unchanged, so
/// bytes below 128 decode to the characters of the same value, and an
/// empty input gives an empty string.
#[verifier::external_body]
fn utf8_lossy(bytes: &[u8]) -> (r: String)
    ensures
        r@ == lossy_utf8(bytes@),
        bytes@.len() == 0 ==> r@.len() == 0,
        (forall|i: int| 0 <= i < bytes@.len() ==> bytes@[i] < 128) ==> r@ == bytes@.map_values(
            |b: u8| b as char,
        ),
{
    String::from_utf8_lossy(bytes).into_owned()
}

/// The length of `bytes` once trailing NUL padding is dropped.
pub open spec fn trimmed_len(bytes: Seq<u8>) -> nat
    decreases bytes.len(),
{
    if bytes.len() == 0 {
        0
    } else if bytes[bytes.len() - 1] == 0 {
        trimmed_len(bytes.drop_last())
    } else {
        bytes.len()
    }
}

/// Decodes the message that the native library left in `buffer`: the bytes
/// before the trailing NUL padding, read as UTF-8 with replacement of
/// invalid sequences.
pub fn wolf_error_message(buffer: &[u8]) -> (s: String)
    ensures
        s@ == lossy_utf8(buffer@.subrange(0, trimmed_len(buffer@) as int)),
{
    let mut end: usize = buffer.len();
    proof {
        assert(buffer@.subrange(0, end as int) =~= buffer@);
    }
    while end > 0 && buffer[end - 1] == 0
        invariant
            end <= buffer@.len(),
            trimmed_len(buffer@.subrange(0, end as int)) == trimmed_len(buffer@),
        decreases end,
    {
        proof {
            assert(buffer@.subrange(0, end as int).drop_last() =~= buffer@.subrange(
                0,
                end - 1,
            ));
            assert(buffer@.subrange(0, end as int).last() == buffer@[end - 1]);
        }
        end = end - 1;
    }
    proof {
        if end > 0 {
            assert(buffer@.subrange(0, end as int).last() == buffer@[end - 1]);
        }
        assert(trimmed_len(buffer@.subrange(0, end as int)) == end);
    }
    let content = slice_subrange(buffer, 0, end);
    utf8_lossy(content)
}

/// Code reported for success; equals `wolfssl_sys::WOLFSSL_SUCCESS`.
pub const WOLFSSL_SUCCESS: i32 = 1;

/// Code reported when no error is pending; equals
/// `wolfssl_sys::WOLFSSL_ERROR_NONE`.
pub const WOLFSSL_ERROR_NONE: i32 = 0;

/// Code asking the caller to supply more input; equals
/// `wolfssl_sys::WOLFSSL_ERROR_WANT_READ`.
pub const WOLFSSL_ERROR_WANT_READ: i32 = 2;

/// Code asking the caller to drain pending output; equals
/// `wolfssl_sys::WOLFSSL_ERROR_WANT_WRITE`.
pub const WOLFSSL_ERROR_WANT_WRITE: i32 = 3;

/// Code reported for a generic failure; equals
/// `wolfssl_sys::WOLFSSL_FAILURE`.
pub const WOLFSSL_FAILURE: i32 = 0;

/// Code for a certificate in an unsupported data format; equals
/// `wolfssl_sys::WOLFSSL_BAD_FILETYPE`.
pub const WOLFSSL_BAD_FILETYPE: i32 = -462;

/// Code for an input or output error on a certificate file; equals
/// `wolfssl_sys::WOLFSSL_BAD_FILE`.
pub const WOLFSSL_BAD_FILE: i32 = -463;

/// Code for an out-of-memory condition; equals `wolfssl_sys::MEMORY_E`.
pub const MEMORY_E: i32 = -125;

/// Code for truncated ASN.1 input; equals `wolfssl_sys::ASN_INPUT_E`.
pub const ASN_INPUT_E: i32 = -154;

/// Code for a certificate not yet valid; equals
/// `wolfssl_sys::ASN_BEFORE_DATE_E`.
pub const ASN_BEFORE_DATE_E: i32 = -150;

/// Code for an expired certificate; equals
/// `wolfssl_sys::ASN_AFTER_DATE_E`.
pub const ASN_AFTER_DATE_E: i32 = -151;

/// Code for an output buffer too small or input too large; equals
/// `wolfssl_sys::BUFFER_E`.
pub const BUFFER_E: i32 = -132;

/// Code for a bad directory path; equals `wolfssl_sys::BAD_PATH_ERROR`.
pub const BAD_PATH_ERROR: i32 = -244;

/// An error reported by a wolfSSL call.
#[derive(Debug)]
pub enum WolfError {
    /// The library needs to read more data to progress.
    WantRead,
    /// The library needs to send more data to progress.
    WantWrite,
    /// Any other code, together with the library's description of it.
    Unknown { what: String, code: usize },
}

/// The value a negative code takes when it is stored as a `usize`:
/// its two's-complement bit pattern, read as unsigned.
pub open spec fn code_as_usize(code: int) -> int {
    if code >= 0 {
        code
    } else {
        code + usize::MAX + 1
    }
}

impl WolfError {
    /// Whether this error only asks the caller to retry once more data can
    /// move, rather than reporting a failure.
    pub open spec fn spec_non_fatal(&self) -> bool {
        !(self matches WolfError::Unknown { .. })
    }

    /// Classifies a wolfSSL return code. The success codes give `Ok`; the
    /// want-read and want-write codes give their own variants; every other
    /// code is recorded verbatim, together with `what`, the library's
    /// description of it.
    pub fn check(code: i32, what: String) -> (r: Result<(), WolfError>)
        ensures
            r is Ok <==> (code == WOLFSSL_SUCCESS || code == WOLFSSL_ERROR_NONE),
            code == WOLFSSL_ERROR_WANT_READ ==> r == Result::<(), WolfError>::Err(
                WolfError::WantRead,
            ),
            code == WOLFSSL_ERROR_WANT_WRITE ==> r == Result::<(), WolfError>::Err(
                WolfError::WantWrite,
            ),
            (code != WOLFSSL_SUCCESS && code != WOLFSSL_ERROR_NONE && code
                != WOLFSSL_ERROR_WANT_READ && code != WOLFSSL_ERROR_WANT_WRITE) ==> (r matches Err(
                WolfError::Unknown { what: w, code: c },
            ) && w == what && c == code_as_usize(code as int)),
    {
        if code == WOLFSSL_SUCCESS || code == WOLFSSL_ERROR_NONE {
            Ok(())
        } else if code == WOLFSSL_ERROR_WANT_READ {
            Err(WolfError::WantRead)
        } else if code == WOLFSSL_ERROR_WANT_WRITE {
            Err(WolfError::WantWrite)
        } else {
            let stored: usize = if code >= 0 {
                code as usize
            } else {
                let wide: i64 = code as i64;
                let magnitude: usize = (-wide) as usize;
                usize::MAX - (magnitude - 1)
            };
            Err(WolfError::Unknown { what, code: stored })
        }
    }

    /// Whether this error only asks the caller to retry.
    pub fn is_non_fatal(&self) -> (r: bool)
        ensures
            r == self.spec_non_fatal(),
    {
        match self {
            WolfError::WantRead | WolfError::WantWrite => true,
            WolfError::Unknown { .. } => false,
        }
    }

    /// The message that describes this error.
    pub open spec fn spec_message(&self) -> Seq<char> {
        match self {
            WolfError::WantRead => "WolfSSL needs to read more data to progress"@,
            WolfError::WantWrite => "WolfSSL needs to send more data to progress"@,
            WolfError::Unknown { what, code } => "unknown: "@ + what@ + ", code: "@ + dec_digits(
                *code as nat,
            ),
        }
    }

    /// Renders the message that describes this error.
    pub fn message(&self) -> (s: String)
        ensures
            s@ == self.spec_message(),
    {
        match self {
            WolfError::WantRead => String::from_str("WolfSSL needs to read more data to progress"),
            WolfError::WantWrite => String::from_str(
                "WolfSSL needs to send more data to progress",
            ),
            WolfError::Unknown { what, code } => {
                let mut s = String::from_str("unknown: ");
                s.append(what.as_str());
                s.append(", code: ");
                let digits = u64_to_decimal(*code as u64);
                s.append(digits.as_str());
                proof {
                    assert(s@ =~= self.spec_message());
                }
                s
            },
        }
    }
}

/// Errors that library-wide initialisation can report.
#[derive(Debug)]
pub enum WolfInitError {
    /// The native mutex could not be set up.
    Mutex,
    /// The cryptography core could not be initialised.
    WolfCrypt,
}

impl WolfInitError {
    /// The message that describes this error: the name of the native
    /// error code it stands for.
    pub open spec fn spec_message(&self) -> Seq<char> {
        match self {
            WolfInitError::Mutex => "BAD_MUTEX_E"@,
            WolfInitError::WolfCrypt => "WC_INIT_E"@,
        }
    }

    /// Renders the message that describes this error.
    pub fn message(&self) -> (s: String)
        ensures
            s@ == self.spec_message(),
    {
        match self {
            WolfInitError::Mutex => String::from_str("BAD_MUTEX_E"),
            WolfInitError::WolfCrypt => String::from_str("WC_INIT_E"),
        }
    }
}

/// Errors that library-wide cleanup can report.
#[derive(Debug)]
pub enum WolfCleanupError {
    /// The native mutex could not be torn down.
    Mutex,
}

impl WolfCleanupError {
    /// The message that describes this error: the name of the native
    /// error code it stands for.
    pub open spec fn spec_message(&self) -> Seq<char> {
        match self {
            WolfCleanupError::Mutex => "BAD_MUTEX_E"@,
        }
    }

    /// Renders the message that describes this error.
    pub fn message(&self) -> (s: String)
        ensures
            s@ == self.spec_message(),
    {
        match self {
            WolfCleanupError::Mutex => String::from_str("BAD_MUTEX_E"),
        }
    }
}

/// Errors that loading a root certificate can report.
#[derive(Debug)]
pub enum LoadRootCertificateError {
    /// The generic failure code.
    Failure,
    /// The certificate's data format is not supported.
    BadFiletype,
    /// The certificate file could not be read.
    BadFile,
    /// The library ran out of memory.
    Memory,
    /// The ASN.1 input was truncated.
    AsnInput,
    /// The certificate is not yet valid.
    AsnBeforeDate,
    /// The certificate has expired.
    AsnAfterDate,
    /// A buffer was too small, or the input too large.
    Buffer,
    /// The certificate directory path was bad.
    Path,
    /// Any other code, recorded verbatim.
    Other(i64),
}

/// The error that a return code of the native load-verify calls stands for.
pub open spec fn load_root_error_of(value: i32) -> LoadRootCertificateError {
    if value == WOLFSSL_BAD_FILETYPE {
        LoadRootCertificateError::BadFiletype
    } else if value == WOLFSSL_BAD_FILE {
        LoadRootCertificateError::BadFile
    } else if value == MEMORY_E {
        LoadRootCertificateError::Memory
    } else if value == ASN_INPUT_E {
        LoadRootCertificateError::AsnInput
    } else if value == BUFFER_E {
        LoadRootCertificateError::Buffer
    } else if value == WOLFSSL_FAILURE {
        LoadRootCertificateError::Failure
    } else if value == ASN_AFTER_DATE_E {
        LoadRootCertificateError::AsnAfterDate
    } else if value == ASN_BEFORE_DATE_E {
        LoadRootCertificateError::AsnBeforeDate
    } else if value == BAD_PATH_ERROR {
        LoadRootCertificateError::Path
    } else {
        LoadRootCertificateError::Other(value as i64)
    }
}

impl core::convert::From<i32> for LoadRootCertificateError {
    /// Translates a return code of the native load-verify calls.
    fn from(value: i32) -> (r: Self) {
        if value == WOLFSSL_BAD_FILETYPE {
            LoadRootCertificateError::BadFiletype
        } else if value == WOLFSSL_BAD_FILE {
            LoadRootCertificateError::BadFile
        } else if value == MEMORY_E {
            LoadRootCertificateError::Memory
        } else if value == ASN_INPUT_E {
            LoadRootCertificateError::AsnInput
        } else if value == BUFFER_E {
            LoadRootCertificateError::Buffer
        } else if value == WOLFSSL_FAILURE {
            LoadRootCertificateError::Failure
        } else if value == ASN_AFTER_DATE_E {
            LoadRootCertificateError::AsnAfterDate
        } else if value == ASN_BEFORE_DATE_E {
            LoadRootCertificateError::AsnBeforeDate
        } else if value == BAD_PATH_ERROR {
            LoadRootCertificateError::Path
        } else {
            LoadRootCertificateError::Other(value as i64)
        }
    }
}

impl vstd::std_specs::convert::FromSpecImpl<i32> for LoadRootCertificateError {
    open spec fn obeys_from_spec() -> bool {
        true
    }

    open spec fn from_spec(value: i32) -> Self {
        load_root_error_of(value)
    }
}

impl LoadRootCertificateError {
    /// The message that describes this error: the name of the native
    /// error code it stands for, or the raw code when it is unknown.
    pub open spec fn spec_message(&self) -> Seq<char> {
        match self {
            LoadRootCertificateError::Failure => "SSL_FAILURE"@,
            LoadRootCertificateError::BadFiletype => "SSL_BAD_FILETYPE"@,
            LoadRootCertificateError::BadFile => "SSL_BAD_FILE"@,
            LoadRootCertificateError::Memory => "MEMORY_E"@,
            LoadRootCertificateError::AsnInput => "ASN_INPUT_E"@,
            LoadRootCertificateError::AsnBeforeDate => "ASN_BEFORE_DATE_E"@,
            LoadRootCertificateError::AsnAfterDate => "ASN_AFTER_DATE_E"@,
            LoadRootCertificateError::Buffer => "BUFFER_E"@,
            LoadRootCertificateError::Path => "BAD_PATH_ERROR"@,
            LoadRootCertificateError::Other(code) => "Unknown: "@ + dec_digits_signed(
                *code as int,
            ),
        }
    }

    /// Renders the message that describes this error.
    pub fn message(&self) -> (s: String)
        ensures
            s@ == self.spec_message(),
    {
        match self {
            LoadRootCertificateError::Failure => String::from_str("SSL_FAILURE"),
            LoadRootCertificateError::BadFiletype => String::from_str("SSL_BAD_FILETYPE"),
            LoadRootCertificateError::BadFile => String::from_str("SSL_BAD_FILE"),
            LoadRootCertificateError::Memory => String::from_str("MEMORY_E"),
            LoadRootCertificateError::AsnInput => String::from_str("ASN_INPUT_E"),
            LoadRootCertificateError::AsnBeforeDate => String::from_str("ASN_BEFORE_DATE_E"),
            LoadRootCertificateError::AsnAfterDate => String::from_str("ASN_AFTER_DATE_E"),
            LoadRootCertificateError::Buffer => String::from_str("BUFFER_E"),
            LoadRootCertificateError::Path => String::from_str("BAD_PATH_ERROR"),
            LoadRootCertificateError::Other(code) => {
                let s = String::from_str("Unknown: ");
                let digits = crate::decimal::i64_to_decimal(*code);
                s.concat(digits.as_str())
            },
        }
    }
}

} // verus!
