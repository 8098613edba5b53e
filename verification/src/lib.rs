//! A verified core for driving RTL-SDR dongles through `librtlsdr`.
//!
//! The C library itself is reached by the program layer; this crate holds
//! what is decided around each call: how `librtlsdr`/`libusb-1.0` return
//! codes become errors, the device handle, the sampler thread's state
//! machine, the byte-to-sample and spectrum-to-pixel plumbing, and the
//! viewer's event handling.

pub mod capture;
pub mod device;
pub mod error;
pub mod sampler;
pub mod sys;
pub mod viewer;

pub use device::{all_rtlsdr_devices, GainMode, RtlSdrDevice};
pub use error::{make_result, nonzero_result, ErrorCode, Result, RtlSdrError};
