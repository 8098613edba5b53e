//! Errors raised by `librtlsdr` calls, and how their return codes map to them.

use vstd::prelude::*;

use crate::sys::{
    LIBUSB_ERROR_ACCESS, LIBUSB_ERROR_BUSY, LIBUSB_ERROR_INTERRUPTED, LIBUSB_ERROR_INVALID_PARAM,
    LIBUSB_ERROR_IO, LIBUSB_ERROR_NOT_FOUND, LIBUSB_ERROR_NOT_SUPPORTED, LIBUSB_ERROR_NO_DEVICE,
    LIBUSB_ERROR_NO_MEM, LIBUSB_ERROR_OTHER, LIBUSB_ERROR_OVERFLOW, LIBUSB_ERROR_PIPE,
    LIBUSB_ERROR_TIMEOUT, LIBUSB_SUCCESS,
};

verus! {

/// The result of a `librtlsdr` call made through this crate.
pub type Result<T, E = RtlSdrError> = core::result::Result<T, E>;

/// An error that can be raised from `librtlsdr` functions
///
/// Note: Because `librtlsdr` uses `libusb-1.0`'s error codes exactly, these all match directly
/// to `libusb-1.0`'s error codes.
#[derive(Copy, Clone, Debug, PartialEq, Eq)]
pub struct RtlSdrError {
    /// A string describing what failed.
    ///
    /// This is typically the `librtlsdr` C function name that generated this error.
    pub what: &'static str,
    /// The `libusb-1.0` error code returned by some `librtlsdr` function call.
    pub code: ErrorCode,
}

/// A `libusb-1.0` error code (every code but `LIBUSB_SUCCESS`).
#[derive(Copy, Clone, Debug, PartialEq, Eq, Structural)]
pub enum ErrorCode {
    /// `LIBUSB_ERROR_IO`
    Io,
    /// `LIBUSB_ERROR_INVALID_PARAM`
    InvalidParam,
    /// `LIBUSB_ERROR_ACCESS`
    Access,
    /// `LIBUSB_ERROR_NO_DEVICE`
    NoDevice,
    /// `LIBUSB_ERROR_NOT_FOUND`
    NotFound,
    /// `LIBUSB_ERROR_BUSY`
    Busy,
    /// `LIBUSB_ERROR_TIMEOUT`
    Timeout,
    /// `LIBUSB_ERROR_OVERFLOW`
    Overflow,
    /// `LIBUSB_ERROR_PIPE`
    Pipe,
    /// `LIBUSB_ERROR_INTERRUPTED`
    Interrupted,
    /// `LIBUSB_ERROR_NO_MEM`
    NoMem,
    /// `LIBUSB_ERROR_NOT_SUPPORTED`
    NotSupported,
    /// `LIBUSB_ERROR_OTHER`
    Other,
}

impl ErrorCode {
    /// The `libusb-1.0` number of this code.
    pub open spec fn raw_spec(self) -> i32 {
        match self {
            ErrorCode::Io => LIBUSB_ERROR_IO,
            ErrorCode::InvalidParam => LIBUSB_ERROR_INVALID_PARAM,
            ErrorCode::Access => LIBUSB_ERROR_ACCESS,
            ErrorCode::NoDevice => LIBUSB_ERROR_NO_DEVICE,
            ErrorCode::NotFound => LIBUSB_ERROR_NOT_FOUND,
            ErrorCode::Busy => LIBUSB_ERROR_BUSY,
            ErrorCode::Timeout => LIBUSB_ERROR_TIMEOUT,
            ErrorCode::Overflow => LIBUSB_ERROR_OVERFLOW,
            ErrorCode::Pipe => LIBUSB_ERROR_PIPE,
            ErrorCode::Interrupted => LIBUSB_ERROR_INTERRUPTED,
            ErrorCode::NoMem => LIBUSB_ERROR_NO_MEM,
            ErrorCode::NotSupported => LIBUSB_ERROR_NOT_SUPPORTED,
            ErrorCode::Other => LIBUSB_ERROR_OTHER,
        }
    }

    /// The ASCII name that `libusb_error_name` gives this code.
    pub open spec fn name_spec(self) -> Seq<char> {
        match self {
            ErrorCode::Io => "LIBUSB_ERROR_IO"@,
            ErrorCode::InvalidParam => "LIBUSB_ERROR_INVALID_PARAM"@,
            ErrorCode::Access => "LIBUSB_ERROR_ACCESS"@,
            ErrorCode::NoDevice => "LIBUSB_ERROR_NO_DEVICE"@,
            ErrorCode::NotFound => "LIBUSB_ERROR_NOT_FOUND"@,
            ErrorCode::Busy => "LIBUSB_ERROR_BUSY"@,
            ErrorCode::Timeout => "LIBUSB_ERROR_TIMEOUT"@,
            ErrorCode::Overflow => "LIBUSB_ERROR_OVERFLOW"@,
            ErrorCode::Pipe => "LIBUSB_ERROR_PIPE"@,
            ErrorCode::Interrupted => "LIBUSB_ERROR_INTERRUPTED"@,
            ErrorCode::NoMem => "LIBUSB_ERROR_NO_MEM"@,
            ErrorCode::NotSupported => "LIBUSB_ERROR_NOT_SUPPORTED"@,
            ErrorCode::Other => "LIBUSB_ERROR_OTHER"@,
        }
    }
}

impl ErrorCode {
    /// The name of this code's variant, as its `Debug` form prints it.
    pub open spec fn variant_name_spec(self) -> Seq<char> {
        match self {
            ErrorCode::Io => "Io"@,
            ErrorCode::InvalidParam => "InvalidParam"@,
            ErrorCode::Access => "Access"@,
            ErrorCode::NoDevice => "NoDevice"@,
            ErrorCode::NotFound => "NotFound"@,
            ErrorCode::Busy => "Busy"@,
            ErrorCode::Timeout => "Timeout"@,
            ErrorCode::Overflow => "Overflow"@,
            ErrorCode::Pipe => "Pipe"@,
            ErrorCode::Interrupted => "Interrupted"@,
            ErrorCode::NoMem => "NoMem"@,
            ErrorCode::NotSupported => "NotSupported"@,
            ErrorCode::Other => "Other"@,
        }
    }

    /// The name of this code's variant, as its `Debug` form prints it.
    pub fn variant_name(self) -> (s: String)
        ensures
            s@ == self.variant_name_spec(),
    {
        match self {
            ErrorCode::Io => String::from_str("Io"),
            ErrorCode::InvalidParam => String::from_str("InvalidParam"),
            ErrorCode::Access => String::from_str("Access"),
            ErrorCode::NoDevice => String::from_str("NoDevice"),
            ErrorCode::NotFound => String::from_str("NotFound"),
            ErrorCode::Busy => String::from_str("Busy"),
            ErrorCode::Timeout => String::from_str("Timeout"),
            ErrorCode::Overflow => String::from_str("Overflow"),
            ErrorCode::Pipe => String::from_str("Pipe"),
            ErrorCode::Interrupted => String::from_str("Interrupted"),
            ErrorCode::NoMem => String::from_str("NoMem"),
            ErrorCode::NotSupported => String::from_str("NotSupported"),
            ErrorCode::Other => String::from_str("Other"),
        }
    }
}

/// Whether `raw` is one of the `libusb-1.0` error codes.
pub open spec fn is_known_code_spec(raw: i32) -> bool {
    exists|c: ErrorCode| c.raw_spec() == raw
}

/// The error code that a raw `libusb-1.0` return value stands for; values that are no
/// `libusb-1.0` error code map to `LIBUSB_ERROR_OTHER`.
pub open spec fn code_of(raw: i32) -> ErrorCode {
    if is_known_code_spec(raw) {
        choose|c: ErrorCode| c.raw_spec() == raw
    } else {
        ErrorCode::Other
    }
}

impl ErrorCode {
    /// The `libusb-1.0` number of this code.
    pub fn to_raw(self) -> (raw: i32)
        ensures
            raw == self.raw_spec(),
    {
        match self {
            ErrorCode::Io => LIBUSB_ERROR_IO,
            ErrorCode::InvalidParam => LIBUSB_ERROR_INVALID_PARAM,
            ErrorCode::Access => LIBUSB_ERROR_ACCESS,
            ErrorCode::NoDevice => LIBUSB_ERROR_NO_DEVICE,
            ErrorCode::NotFound => LIBUSB_ERROR_NOT_FOUND,
            ErrorCode::Busy => LIBUSB_ERROR_BUSY,
            ErrorCode::Timeout => LIBUSB_ERROR_TIMEOUT,
            ErrorCode::Overflow => LIBUSB_ERROR_OVERFLOW,
            ErrorCode::Pipe => LIBUSB_ERROR_PIPE,
            ErrorCode::Interrupted => LIBUSB_ERROR_INTERRUPTED,
            ErrorCode::NoMem => LIBUSB_ERROR_NO_MEM,
            ErrorCode::NotSupported => LIBUSB_ERROR_NOT_SUPPORTED,
            ErrorCode::Other => LIBUSB_ERROR_OTHER,
        }
    }

    /// The error code for a raw `libusb-1.0` return value.
    ///
    /// `LIBUSB_SUCCESS` is no error and is not accepted. A value that is no `libusb-1.0`
    /// error code maps to [`ErrorCode::Other`]; [`ErrorCode::is_known`] tells the two apart.
    pub fn from_raw(raw: i32) -> (code: Self)
        requires
            raw != LIBUSB_SUCCESS,
        ensures
            code == code_of(raw),
            is_known_code_spec(raw) ==> code.raw_spec() == raw,
            !is_known_code_spec(raw) ==> code == ErrorCode::Other,
    {
        let code = if raw == LIBUSB_ERROR_IO {
            ErrorCode::Io
        } else if raw == LIBUSB_ERROR_INVALID_PARAM {
            ErrorCode::InvalidParam
        } else if raw == LIBUSB_ERROR_ACCESS {
            ErrorCode::Access
        } else if raw == LIBUSB_ERROR_NO_DEVICE {
            ErrorCode::NoDevice
        } else if raw == LIBUSB_ERROR_NOT_FOUND {
            ErrorCode::NotFound
        } else if raw == LIBUSB_ERROR_BUSY {
            ErrorCode::Busy
        } else if raw == LIBUSB_ERROR_TIMEOUT {
            ErrorCode::Timeout
        } else if raw == LIBUSB_ERROR_OVERFLOW {
            ErrorCode::Overflow
        } else if raw == LIBUSB_ERROR_PIPE {
            ErrorCode::Pipe
        } else if raw == LIBUSB_ERROR_INTERRUPTED {
            ErrorCode::Interrupted
        } else if raw == LIBUSB_ERROR_NO_MEM {
            ErrorCode::NoMem
        } else if raw == LIBUSB_ERROR_NOT_SUPPORTED {
            ErrorCode::NotSupported
        } else {
            ErrorCode::Other
        };
        proof {
            lemma_known_values(raw);
            lemma_code_of_inverts_known(raw);
            if is_known_code_spec(raw) {
                assert(code.raw_spec() == raw);
            }
        }
        code
    }

    /// Whether `raw` is one of the `libusb-1.0` error codes.
    pub fn is_known(raw: i32) -> (b: bool)
        ensures
            b == is_known_code_spec(raw),
    {
        proof {
            lemma_known_values(raw);
        }
        let b = raw == LIBUSB_ERROR_IO || raw == LIBUSB_ERROR_INVALID_PARAM || raw
            == LIBUSB_ERROR_ACCESS || raw == LIBUSB_ERROR_NO_DEVICE || raw
            == LIBUSB_ERROR_NOT_FOUND || raw == LIBUSB_ERROR_BUSY || raw == LIBUSB_ERROR_TIMEOUT
            || raw == LIBUSB_ERROR_OVERFLOW || raw == LIBUSB_ERROR_PIPE || raw
            == LIBUSB_ERROR_INTERRUPTED || raw == LIBUSB_ERROR_NO_MEM || raw
            == LIBUSB_ERROR_NOT_SUPPORTED || raw == LIBUSB_ERROR_OTHER;
        b
    }

    /// The ASCII name of an error, as `libusb_error_name()` gives it.
    pub fn name(self) -> (s: String)
        ensures
            s@ == self.name_spec(),
            vstd::utf8::is_ascii_chars(s@),
    {
        proof {
            lemma_error_names_are_ascii(self);
        }
        match self {
            ErrorCode::Io => String::from_str("LIBUSB_ERROR_IO"),
            ErrorCode::InvalidParam => String::from_str("LIBUSB_ERROR_INVALID_PARAM"),
            ErrorCode::Access => String::from_str("LIBUSB_ERROR_ACCESS"),
            ErrorCode::NoDevice => String::from_str("LIBUSB_ERROR_NO_DEVICE"),
            ErrorCode::NotFound => String::from_str("LIBUSB_ERROR_NOT_FOUND"),
            ErrorCode::Busy => String::from_str("LIBUSB_ERROR_BUSY"),
            ErrorCode::Timeout => String::from_str("LIBUSB_ERROR_TIMEOUT"),
            ErrorCode::Overflow => String::from_str("LIBUSB_ERROR_OVERFLOW"),
            ErrorCode::Pipe => String::from_str("LIBUSB_ERROR_PIPE"),
            ErrorCode::Interrupted => String::from_str("LIBUSB_ERROR_INTERRUPTED"),
            ErrorCode::NoMem => String::from_str("LIBUSB_ERROR_NO_MEM"),
            ErrorCode::NotSupported => String::from_str("LIBUSB_ERROR_NOT_SUPPORTED"),
            ErrorCode::Other => String::from_str("LIBUSB_ERROR_OTHER"),
        }
    }
}

/// The raw values that are error codes are exactly the thirteen `libusb-1.0` error numbers.
proof fn lemma_known_values(raw: i32)
    ensures
        is_known_code_spec(raw) == (raw == LIBUSB_ERROR_IO || raw == LIBUSB_ERROR_INVALID_PARAM || raw == LIBUSB_ERROR_ACCESS || raw == LIBUSB_ERROR_NO_DEVICE || raw == LIBUSB_ERROR_NOT_FOUND || raw == LIBUSB_ERROR_BUSY || raw == LIBUSB_ERROR_TIMEOUT || raw == LIBUSB_ERROR_OVERFLOW || raw == LIBUSB_ERROR_PIPE || raw == LIBUSB_ERROR_INTERRUPTED || raw == LIBUSB_ERROR_NO_MEM || raw == LIBUSB_ERROR_NOT_SUPPORTED || raw == LIBUSB_ERROR_OTHER),
{
    if is_known_code_spec(raw) {
        let c = choose|c: ErrorCode| c.raw_spec() == raw;
        match c {
            ErrorCode::Io => {},
            ErrorCode::InvalidParam => {},
            ErrorCode::Access => {},
            ErrorCode::NoDevice => {},
            ErrorCode::NotFound => {},
            ErrorCode::Busy => {},
            ErrorCode::Timeout => {},
            ErrorCode::Overflow => {},
            ErrorCode::Pipe => {},
            ErrorCode::Interrupted => {},
            ErrorCode::NoMem => {},
            ErrorCode::NotSupported => {},
            ErrorCode::Other => {},
        }
    }
    if raw == LIBUSB_ERROR_IO {
        assert(ErrorCode::Io.raw_spec() == raw);
    }
    if raw == LIBUSB_ERROR_INVALID_PARAM {
        assert(ErrorCode::InvalidParam.raw_spec() == raw);
    }
    if raw == LIBUSB_ERROR_ACCESS {
        assert(ErrorCode::Access.raw_spec() == raw);
    }
    if raw == LIBUSB_ERROR_NO_DEVICE {
        assert(ErrorCode::NoDevice.raw_spec() == raw);
    }
    if raw == LIBUSB_ERROR_NOT_FOUND {
        assert(ErrorCode::NotFound.raw_spec() == raw);
    }
    if raw == LIBUSB_ERROR_BUSY {
        assert(ErrorCode::Busy.raw_spec() == raw);
    }
    if raw == LIBUSB_ERROR_TIMEOUT {
        assert(ErrorCode::Timeout.raw_spec() == raw);
    }
    if raw == LIBUSB_ERROR_OVERFLOW {
        assert(ErrorCode::Overflow.raw_spec() == raw);
    }
    if raw == LIBUSB_ERROR_PIPE {
        assert(ErrorCode::Pipe.raw_spec() == raw);
    }
    if raw == LIBUSB_ERROR_INTERRUPTED {
        assert(ErrorCode::Interrupted.raw_spec() == raw);
    }
    if raw == LIBUSB_ERROR_NO_MEM {
        assert(ErrorCode::NoMem.raw_spec() == raw);
    }
    if raw == LIBUSB_ERROR_NOT_SUPPORTED {
        assert(ErrorCode::NotSupported.raw_spec() == raw);
    }
    if raw == LIBUSB_ERROR_OTHER {
        assert(ErrorCode::Other.raw_spec() == raw);
    }
}

/// No two error codes share a number.
proof fn lemma_raw_unique(a: ErrorCode, b: ErrorCode)
    ensures
        a.raw_spec() == b.raw_spec() ==> a == b,
{
    match a {
        ErrorCode::Io => {},
        ErrorCode::InvalidParam => {},
        ErrorCode::Access => {},
        ErrorCode::NoDevice => {},
        ErrorCode::NotFound => {},
        ErrorCode::Busy => {},
        ErrorCode::Timeout => {},
        ErrorCode::Overflow => {},
        ErrorCode::Pipe => {},
        ErrorCode::Interrupted => {},
        ErrorCode::NoMem => {},
        ErrorCode::NotSupported => {},
        ErrorCode::Other => {},
    }
}

/// `code_of` gives back the code of every known raw value, and `Other` for the rest.
proof fn lemma_code_of_inverts_known(raw: i32)
    ensures
        is_known_code_spec(raw) ==> code_of(raw).raw_spec() == raw,
        !is_known_code_spec(raw) ==> code_of(raw) == ErrorCode::Other,
        forall|c: ErrorCode| c.raw_spec() == raw ==> code_of(raw) == c,
{
    assert forall|c: ErrorCode| c.raw_spec() == raw implies code_of(raw) == c by {
        lemma_raw_unique(c, code_of(raw));
    }
}

/// The numbers are `libusb-1.0`'s: `-1` through `-12` in declaration order, and `-99` for
/// `Other`.
pub proof fn lemma_libusb_error_numbers()
    ensures
        ErrorCode::Io.raw_spec() == -1,
        ErrorCode::InvalidParam.raw_spec() == -2,
        ErrorCode::Access.raw_spec() == -3,
        ErrorCode::NoDevice.raw_spec() == -4,
        ErrorCode::NotFound.raw_spec() == -5,
        ErrorCode::Busy.raw_spec() == -6,
        ErrorCode::Timeout.raw_spec() == -7,
        ErrorCode::Overflow.raw_spec() == -8,
        ErrorCode::Pipe.raw_spec() == -9,
        ErrorCode::Interrupted.raw_spec() == -10,
        ErrorCode::NoMem.raw_spec() == -11,
        ErrorCode::NotSupported.raw_spec() == -12,
        ErrorCode::Other.raw_spec() == -99,
{
}

/// Turning an error code into its raw number and back gives the same code.
pub proof fn lemma_error_code_round_trip(c: ErrorCode)
    ensures
        code_of(c.raw_spec()) == c,
        is_known_code_spec(c.raw_spec()),
{
    lemma_code_of_inverts_known(c.raw_spec());
}

/// Every error code is a negative number, and no two error codes share one.
pub proof fn lemma_error_codes_negative_and_distinct(a: ErrorCode, b: ErrorCode)
    ensures
        a.raw_spec() < 0,
        a.raw_spec() == b.raw_spec() ==> a == b,
{
    lemma_raw_unique(a, b);
    match a {
        ErrorCode::Io => {},
        ErrorCode::InvalidParam => {},
        ErrorCode::Access => {},
        ErrorCode::NoDevice => {},
        ErrorCode::NotFound => {},
        ErrorCode::Busy => {},
        ErrorCode::Timeout => {},
        ErrorCode::Overflow => {},
        ErrorCode::Pipe => {},
        ErrorCode::Interrupted => {},
        ErrorCode::NoMem => {},
        ErrorCode::NotSupported => {},
        ErrorCode::Other => {},
    }
}

/// A `librtlsdr` call that fails with the number of an error code is reported with exactly
/// that code.
pub proof fn lemma_failed_call_keeps_code(what: &'static str, c: ErrorCode)
    ensures
        c.raw_spec() < 0,
        RtlSdrError::from_status(what, c.raw_spec()) == (RtlSdrError { what, code: c }),
{
    lemma_error_code_round_trip(c);
}

/// The name of every error code is ASCII text.
pub proof fn lemma_error_names_are_ascii(c: ErrorCode)
    ensures
        vstd::utf8::is_ascii_chars(c.name_spec()),
{
    match c {
        ErrorCode::Io => {
            reveal_strlit("LIBUSB_ERROR_IO");
        },
        ErrorCode::InvalidParam => {
            reveal_strlit("LIBUSB_ERROR_INVALID_PARAM");
        },
        ErrorCode::Access => {
            reveal_strlit("LIBUSB_ERROR_ACCESS");
        },
        ErrorCode::NoDevice => {
            reveal_strlit("LIBUSB_ERROR_NO_DEVICE");
        },
        ErrorCode::NotFound => {
            reveal_strlit("LIBUSB_ERROR_NOT_FOUND");
        },
        ErrorCode::Busy => {
            reveal_strlit("LIBUSB_ERROR_BUSY");
        },
        ErrorCode::Timeout => {
            reveal_strlit("LIBUSB_ERROR_TIMEOUT");
        },
        ErrorCode::Overflow => {
            reveal_strlit("LIBUSB_ERROR_OVERFLOW");
        },
        ErrorCode::Pipe => {
            reveal_strlit("LIBUSB_ERROR_PIPE");
        },
        ErrorCode::Interrupted => {
            reveal_strlit("LIBUSB_ERROR_INTERRUPTED");
        },
        ErrorCode::NoMem => {
            reveal_strlit("LIBUSB_ERROR_NO_MEM");
        },
        ErrorCode::NotSupported => {
            reveal_strlit("LIBUSB_ERROR_NOT_SUPPORTED");
        },
        ErrorCode::Other => {
            reveal_strlit("LIBUSB_ERROR_OTHER");
        },
    }
}

impl RtlSdrError {
    /// The error that the `librtlsdr` call `what` raised with the raw return value `raw`.
    pub open spec fn from_status(what: &'static str, raw: i32) -> RtlSdrError {
        RtlSdrError { what, code: code_of(raw) }
    }

    /// A short description of the error: what failed, then the description of the code.
    ///
    /// `code_desc` is the text that `libusb_strerror()` gives for `self.code`, which depends
    /// on the locale that `libusb` was set to.
    pub fn desc(self, code_desc: &str) -> (s: String)
        ensures
            s@ == self.what@ + ": "@ + code_desc@,
    {
        let mut s = String::from_str(self.what);
        s.append(": ");
        s.append(code_desc);
        s
    }

    /// The text this error displays as: what failed, its description, and the code's
    /// variant in parentheses, as in `rtlsdr_open: rtlsdr_open: Access denied (Access)`.
    ///
    /// `code_desc` is the text that `libusb_strerror()` gives for `self.code`.
    pub fn display_text(self, code_desc: &str) -> (s: String)
        ensures
            s@ == self.what@ + ": "@ + (self.what@ + ": "@ + code_desc@) + " ("@
                + self.code.variant_name_spec() + ")"@,
    {
        let desc = self.desc(code_desc);
        let code = self.code.variant_name();
        let mut s = String::from_str(self.what);
        s.append(": ");
        s.append(desc.as_str());
        s.append(" (");
        s.append(code.as_str());
        s.append(")");
        s
    }
}

/// Shorthand to quickly build a Result from an rtlsdr error return code: negative values are
/// errors, everything else is success.
pub fn make_result(what: &'static str, raw: i32) -> (r: Result<()>)
    ensures
        raw < 0 ==> r == Err::<(), RtlSdrError>(RtlSdrError::from_status(what, raw)),
        raw >= 0 ==> r == Ok::<(), RtlSdrError>(()),
{
    if raw < 0 {
        Err(RtlSdrError { what, code: ErrorCode::from_raw(raw) })
    } else {
        Ok(())
    }
}

/// The result of a `librtlsdr` getter that signals failure by returning `0`
/// (`rtlsdr_get_sample_rate`, `rtlsdr_get_center_freq`).
pub fn nonzero_result(what: &'static str, value: u32) -> (r: Result<u32>)
    ensures
        value != 0 ==> r == Ok::<u32, RtlSdrError>(value),
        value == 0 ==> r == Err::<u32, RtlSdrError>(RtlSdrError { what, code: ErrorCode::Other }),
{
    if value != 0 {
        Ok(value)
    } else {
        Err(RtlSdrError { what, code: ErrorCode::Other })
    }
}

} // verus!
