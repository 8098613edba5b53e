//! The device as this crate sees it: its handle and index, and the decisions
//! taken around the `librtlsdr` calls that open and configure it.

use vstd::prelude::*;

use crate::error::{make_result, Result, RtlSdrError};
use crate::sys::rtlsdr_dev_t;

verus! {

/// Tuner gain mode, as `rtlsdr_set_tuner_gain_mode` takes it.
#[derive(Copy, Clone, Debug, PartialEq, Eq, Structural)]
pub enum GainMode {
    /// Automatic gain control.
    Auto,
    /// Manual gain, set with `rtlsdr_set_tuner_gain`.
    Manual,
}

impl GainMode {
    /// The `manual` flag that `rtlsdr_set_tuner_gain_mode` takes: `0` for automatic, `1` for manual.
    pub fn to_raw(self) -> (raw: i32)
        ensures
            self == GainMode::Auto ==> raw == 0,
            self == GainMode::Manual ==> raw == 1,
    {
        match self {
            GainMode::Auto => 0,
            GainMode::Manual => 1,
        }
    }
}

/// Whether `librtlsdr` documents `sample_rate` as a rate it can be set to:
/// `225_001..=300_000` Hz or `900_001..=3_200_000` Hz.
pub open spec fn supported_sample_rate(sample_rate: u32) -> bool {
    ||| 225_001 <= sample_rate <= 300_000
    ||| 900_001 <= sample_rate <= 3_200_000
}

/// A rate is supported exactly when it lies in `225_001..=300_000` Hz or in
/// `900_001..=3_200_000` Hz; in particular every rate of the upper range is.
pub proof fn lemma_supported_sample_rate_ranges(sample_rate: u32)
    ensures
        supported_sample_rate(sample_rate) == ((225_001 <= sample_rate && sample_rate <= 300_000)
            || (900_001 <= sample_rate && sample_rate <= 3_200_000)),
        900_001 <= sample_rate <= 3_200_000 ==> supported_sample_rate(sample_rate),
        225_001 <= sample_rate <= 300_000 ==> supported_sample_rate(sample_rate),
{
}

/// Whether `sample_rate` lies in one of the ranges that `librtlsdr` supports. A rate outside
/// them is still handed to `rtlsdr_set_sample_rate`, with a warning.
pub fn is_supported_sample_rate(sample_rate: u32) -> (b: bool)
    ensures
        b == supported_sample_rate(sample_rate),
        b == ((225_001 <= sample_rate && sample_rate <= 300_000) || (900_001 <= sample_rate
            && sample_rate <= 3_200_000)),
{
    (225_001 <= sample_rate && sample_rate <= 300_000) || (900_001 <= sample_rate && sample_rate
        <= 3_200_000)
}

/// An opened RTL-SDR device: the handle `rtlsdr_open` gave and the index it was opened with.
pub struct RtlSdrDevice {
    dev: rtlsdr_dev_t,
    index: u32,
}

impl RtlSdrDevice {
    /// The handle of this device.
    pub closed spec fn handle(self) -> rtlsdr_dev_t {
        self.dev
    }

    /// The index this device was opened with.
    pub closed spec fn index_spec(self) -> u32 {
        self.index
    }

    /// The outcome of `rtlsdr_open(&mut dev, index)`, which returned `status`: the device, or
    /// the error that the call raised.
    pub fn from_open(index: u32, dev: rtlsdr_dev_t, status: i32) -> (r: Result<RtlSdrDevice>)
        ensures
            status < 0 ==> r == Err::<RtlSdrDevice, RtlSdrError>(
                RtlSdrError::from_status("rtlsdr_open", status),
            ),
            status >= 0 ==> (r matches Ok(d) && d.handle() == dev && d.index_spec() == index),
    {
        match make_result("rtlsdr_open", status) {
            Err(e) => Err(e),
            Ok(()) => Ok(RtlSdrDevice { dev, index }),
        }
    }

    /// The handle of this device, for a direct `librtlsdr` call.
    pub fn raw(&mut self) -> (h: rtlsdr_dev_t)
        ensures
            h == old(self).handle(),
            final(self).handle() == old(self).handle(),
            final(self).index_spec() == old(self).index_spec(),
    {
        self.dev
    }

    /// The index this device was opened with.
    pub fn index(&self) -> (i: u32)
        ensures
            i == self.index_spec(),
    {
        self.index
    }
}

/// The outcome of `rtlsdr_read_sync`, which returned `status` and reported `n_read` bytes:
/// the byte count, or the error that the call raised.
pub fn read_result(status: i32, n_read: i32) -> (r: Result<i32>)
    ensures
        status < 0 ==> r == Err::<i32, RtlSdrError>(RtlSdrError::from_status("rtlsdr_read_sync", status)),
        status >= 0 ==> r == Ok::<i32, RtlSdrError>(n_read),
{
    match make_result("rtlsdr_read_sync", status) {
        Err(e) => Err(e),
        Ok(()) => Ok(n_read),
    }
}

/// Opens every device that `rtlsdr_get_device_count()` reports: entry `i` is what `open(i)`
/// gave, for each `i` below `count`, in order.
pub fn all_rtlsdr_devices<F: Fn(u32) -> Result<RtlSdrDevice>>(count: u32, open: F) -> (devices:
    Vec<Result<RtlSdrDevice>>)
    requires
        forall|i: u32| i < count ==> call_requires(open, (i,)),
    ensures
        devices.len() == count,
        forall|i: int| 0 <= i < count ==> call_ensures(open, (i as u32,), #[trigger] devices[i]),
{
    let mut devices: Vec<Result<RtlSdrDevice>> = Vec::new();
    let mut i: u32 = 0;
    while i < count
        invariant
            i <= count,
            devices.len() == i,
            forall|j: u32| j < count ==> call_requires(open, (j,)),
            forall|j: int| 0 <= j < i ==> call_ensures(open, (j as u32,), #[trigger] devices[j]),
        decreases count - i,
    {
        let d = open(i);
        devices.push(d);
        i = i + 1;
    }
    devices
}

} // verus!
