use dsp_rtlsdr_rs::error::{make_result, nonzero_result, ErrorCode, RtlSdrError};
use dsp_rtlsdr_rs::sys::{
    LIBUSB_ERROR_ACCESS, LIBUSB_ERROR_BUSY, LIBUSB_ERROR_INTERRUPTED, LIBUSB_ERROR_INVALID_PARAM,
    LIBUSB_ERROR_IO, LIBUSB_ERROR_NOT_FOUND, LIBUSB_ERROR_NOT_SUPPORTED, LIBUSB_ERROR_NO_DEVICE,
    LIBUSB_ERROR_NO_MEM, LIBUSB_ERROR_OTHER, LIBUSB_ERROR_OVERFLOW, LIBUSB_ERROR_PIPE,
    LIBUSB_ERROR_TIMEOUT, EINVAL,
};

const ALL: [ErrorCode; 13] = [
    ErrorCode::Io,
    ErrorCode::InvalidParam,
    ErrorCode::Access,
    ErrorCode::NoDevice,
    ErrorCode::NotFound,
    ErrorCode::Busy,
    ErrorCode::Timeout,
    ErrorCode::Overflow,
    ErrorCode::Pipe,
    ErrorCode::Interrupted,
    ErrorCode::NoMem,
    ErrorCode::NotSupported,
    ErrorCode::Other,
];

#[test]
fn to_raw_matches_libusb_numbers() {
    let expected = [-1, -2, -3, -4, -5, -6, -7, -8, -9, -10, -11, -12, -99];
    for (code, raw) in ALL.iter().zip(expected.iter()) {
        assert_eq!(code.to_raw(), *raw);
    }
    assert_eq!(ErrorCode::Io.to_raw(), LIBUSB_ERROR_IO);
    assert_eq!(ErrorCode::Other.to_raw(), LIBUSB_ERROR_OTHER);
}

#[test]
fn from_raw_inverts_to_raw() {
    for code in ALL {
        assert_eq!(ErrorCode::from_raw(code.to_raw()), code);
    }
    assert_eq!(ErrorCode::from_raw(LIBUSB_ERROR_TIMEOUT), ErrorCode::Timeout);
    assert_eq!(ErrorCode::from_raw(LIBUSB_ERROR_NO_DEVICE), ErrorCode::NoDevice);
    assert_eq!(ErrorCode::from_raw(LIBUSB_ERROR_ACCESS), ErrorCode::Access);
    assert_eq!(ErrorCode::from_raw(LIBUSB_ERROR_BUSY), ErrorCode::Busy);
    assert_eq!(ErrorCode::from_raw(LIBUSB_ERROR_PIPE), ErrorCode::Pipe);
    assert_eq!(ErrorCode::from_raw(LIBUSB_ERROR_INTERRUPTED), ErrorCode::Interrupted);
    assert_eq!(ErrorCode::from_raw(LIBUSB_ERROR_NO_MEM), ErrorCode::NoMem);
    assert_eq!(ErrorCode::from_raw(LIBUSB_ERROR_NOT_SUPPORTED), ErrorCode::NotSupported);
    assert_eq!(ErrorCode::from_raw(LIBUSB_ERROR_OVERFLOW), ErrorCode::Overflow);
    assert_eq!(ErrorCode::from_raw(LIBUSB_ERROR_INVALID_PARAM), ErrorCode::InvalidParam);
    assert_eq!(ErrorCode::from_raw(LIBUSB_ERROR_NOT_FOUND), ErrorCode::NotFound);
}

#[test]
fn unknown_codes_map_to_other() {
    assert_eq!(ErrorCode::from_raw(-EINVAL), ErrorCode::Other);
    assert_eq!(ErrorCode::from_raw(-13), ErrorCode::Other);
    assert_eq!(ErrorCode::from_raw(7), ErrorCode::Other);
    assert_eq!(ErrorCode::from_raw(i32::MIN), ErrorCode::Other);
    assert!(!ErrorCode::is_known(-EINVAL));
    assert!(!ErrorCode::is_known(0));
    assert!(ErrorCode::is_known(-99));
    assert!(ErrorCode::is_known(-12));
    assert!(!ErrorCode::is_known(-98));
}

#[test]
fn names_are_libusb_constant_names() {
    assert_eq!(ErrorCode::Io.name(), "LIBUSB_ERROR_IO");
    assert_eq!(ErrorCode::NoDevice.name(), "LIBUSB_ERROR_NO_DEVICE");
    assert_eq!(ErrorCode::NotSupported.name(), "LIBUSB_ERROR_NOT_SUPPORTED");
    assert_eq!(ErrorCode::Other.name(), "LIBUSB_ERROR_OTHER");
}

#[test]
fn desc_prefixes_what_failed() {
    let err = RtlSdrError { what: "rtlsdr_open", code: ErrorCode::Access };
    assert_eq!(err.desc("Access denied"), "rtlsdr_open: Access denied");
    assert_eq!(err.desc(""), "rtlsdr_open: ");
}

#[test]
fn make_result_splits_on_sign() {
    assert_eq!(make_result("rtlsdr_close", 0), Ok(()));
    assert_eq!(make_result("rtlsdr_close", 5), Ok(()));
    assert_eq!(
        make_result("rtlsdr_close", -4),
        Err(RtlSdrError { what: "rtlsdr_close", code: ErrorCode::NoDevice })
    );
    assert_eq!(
        make_result("rtlsdr_set_sample_rate", -EINVAL),
        Err(RtlSdrError { what: "rtlsdr_set_sample_rate", code: ErrorCode::Other })
    );
}

#[test]
fn nonzero_result_treats_zero_as_failure() {
    assert_eq!(nonzero_result("rtlsdr_get_sample_rate", 900_001), Ok(900_001));
    assert_eq!(
        nonzero_result("rtlsdr_get_center_freq", 0),
        Err(RtlSdrError { what: "rtlsdr_get_center_freq", code: ErrorCode::Other })
    );
}

#[test]
fn names_are_ascii() {
    for code in ALL {
        assert!(code.name().is_ascii());
        assert!(code.name().starts_with("LIBUSB_ERROR_"));
    }
}

#[test]
fn variant_names_match_debug() {
    for code in ALL {
        assert_eq!(code.variant_name(), format!("{code:?}"));
    }
}

#[test]
fn display_text_repeats_what_then_code() {
    let err = RtlSdrError { what: "rtlsdr_open", code: ErrorCode::Access };
    assert_eq!(
        err.display_text("Access denied"),
        "rtlsdr_open: rtlsdr_open: Access denied (Access)"
    );
    let what = err.what;
    let desc = err.desc("Access denied");
    let code = err.code;
    assert_eq!(err.display_text("Access denied"), format!("{what}: {desc} ({code:?})"));
}
