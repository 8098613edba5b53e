//! Raw-level definitions shared with `librtlsdr`: the device handle and the
//! `libusb-1.0` error codes that `librtlsdr` returns.

use vstd::prelude::*;

verus! {

/// `LIBUSB_SUCCESS`
pub const LIBUSB_SUCCESS: i32 = 0;
/// `LIBUSB_ERROR_IO`
pub const LIBUSB_ERROR_IO: i32 = -1;
/// `LIBUSB_ERROR_INVALID_PARAM`
pub const LIBUSB_ERROR_INVALID_PARAM: i32 = -2;
/// `LIBUSB_ERROR_ACCESS`
pub const LIBUSB_ERROR_ACCESS: i32 = -3;
/// `LIBUSB_ERROR_NO_DEVICE`
pub const LIBUSB_ERROR_NO_DEVICE: i32 = -4;
/// `LIBUSB_ERROR_NOT_FOUND`
pub const LIBUSB_ERROR_NOT_FOUND: i32 = -5;
/// `LIBUSB_ERROR_BUSY`
pub const LIBUSB_ERROR_BUSY: i32 = -6;
/// `LIBUSB_ERROR_TIMEOUT`
pub const LIBUSB_ERROR_TIMEOUT: i32 = -7;
/// `LIBUSB_ERROR_OVERFLOW`
pub const LIBUSB_ERROR_OVERFLOW: i32 = -8;
/// `LIBUSB_ERROR_PIPE`
pub const LIBUSB_ERROR_PIPE: i32 = -9;
/// `LIBUSB_ERROR_INTERRUPTED`
pub const LIBUSB_ERROR_INTERRUPTED: i32 = -10;
/// `LIBUSB_ERROR_NO_MEM`
pub const LIBUSB_ERROR_NO_MEM: i32 = -11;
/// `LIBUSB_ERROR_NOT_SUPPORTED`
pub const LIBUSB_ERROR_NOT_SUPPORTED: i32 = -12;
/// `LIBUSB_ERROR_OTHER`
pub const LIBUSB_ERROR_OTHER: i32 = -99;

/// `EINVAL`, negated by `rtlsdr_set_sample_rate` on an invalid rate.
pub const EINVAL: i32 = 22;

/// The opaque device handle that `rtlsdr_open` hands out and every other
/// `librtlsdr` call takes.
///
/// The handle is held as the address of the C-side device; `0` is the null
/// handle. The program layer turns it back into the pointer that the C API
/// expects.
#[allow(non_camel_case_types)]
#[derive(Copy, Clone, Debug, PartialEq, Eq)]
pub struct rtlsdr_dev_t {
    addr: usize,
}

impl rtlsdr_dev_t {
    /// The address that this handle stands for.
    pub closed spec fn addr_spec(self) -> usize {
        self.addr
    }

    /// The null handle, which `rtlsdr_open` fills in.
    pub fn null() -> (h: Self)
        ensures
            h.addr_spec() == 0,
    {
        rtlsdr_dev_t { addr: 0 }
    }

    /// A handle for the C-side device at `addr`.
    pub fn from_addr(addr: usize) -> (h: Self)
        ensures
            h.addr_spec() == addr,
    {
        rtlsdr_dev_t { addr }
    }

    /// Gets the inner pointer-handle that the rtlsdr C API expects, as an address.
    pub fn raw(self) -> (addr: usize)
        ensures
            addr == self.addr_spec(),
    {
        self.addr
    }

    /// Whether this is the null handle.
    pub fn is_null(self) -> (b: bool)
        ensures
            b == (self.addr_spec() == 0),
    {
        self.addr == 0
    }
}

} // verus!
