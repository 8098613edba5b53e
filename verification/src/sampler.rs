//! The sampler thread's logic: the requests it takes, the rows it produces,
//! and the plumbing from raw bytes to a row of pixels.
//!
//! The program layer runs the loop: it drains the request channel through
//! [`SamplerState::handle_ask`], reads samples from the device, runs the FFT
//! and the floating-point scaling, and sends what [`SamplerState::finish_row`]
//! returns.

use itertools::Itertools;
use vstd::prelude::*;

use crate::error::Result;

verus! {

/// What the viewer asks of the sampler thread.
#[derive(Copy, Clone, Debug, PartialEq, Eq, Structural)]
pub enum SamplerAsks {
    /// The window height changed to this many rows.
    SetHeight(usize),
    /// Use this many samples for each FFT.
    SetFfftWindow(usize),
    /// Write the next row here.
    SetRow(usize),
    /// Turn the device's test mode on or off.
    SetTestMode(bool),
    /// Stop sampling.
    Exit,
}

/// One rendered row of the waterfall: `pixels` are RGB triples for row `row`.
pub struct PixelsUpdate {
    /// The row these pixels belong to.
    pub row: usize,
    /// RGB bytes, three per FFT bin.
    pub pixels: Vec<u8>,
}

/// What the sampler thread must do after taking a request.
#[derive(Copy, Clone, Debug, PartialEq, Eq, Structural)]
pub enum SamplerAction {
    /// Nothing beyond the new state; keep sampling.
    Continue,
    /// Call `set_testmode_enabled` on the device with this flag (its error is ignored).
    SetTestMode(bool),
    /// Leave the sampling loop.
    Exit,
}

/// The sampler thread's state: the window height, the FFT size and the row written next.
#[derive(Copy, Clone, Debug, PartialEq, Eq, Structural)]
pub struct SamplerState {
    /// Number of rows in the viewer.
    pub height: usize,
    /// Number of samples in each FFT.
    pub fft_window: usize,
    /// The row written next.
    pub row: usize,
}

impl SamplerState {
    /// The state and action that follow request `ask`.
    pub open spec fn after_ask(self, ask: SamplerAsks) -> (SamplerState, SamplerAction) {
        match ask {
            SamplerAsks::SetHeight(h) => if self.height != h {
                (SamplerState { height: h, fft_window: self.fft_window, row: 0 }, SamplerAction::Continue)
            } else {
                (self, SamplerAction::Continue)
            },
            SamplerAsks::SetFfftWindow(w) => (
                SamplerState { height: self.height, fft_window: w, row: self.row },
                SamplerAction::Continue,
            ),
            SamplerAsks::SetRow(r) => (
                SamplerState { height: self.height, fft_window: self.fft_window, row: r },
                SamplerAction::Continue,
            ),
            SamplerAsks::SetTestMode(enabled) => (self, SamplerAction::SetTestMode(enabled)),
            SamplerAsks::Exit => (self, SamplerAction::Exit),
        }
    }

    /// The state after a row has been sent: the next row, wrapping around at the height.
    pub open spec fn after_row(self) -> SamplerState {
        SamplerState {
            height: self.height,
            fft_window: self.fft_window,
            row: ((self.row + 1) % (self.height as int)) as usize,
        }
    }

    /// The state the sampler thread starts in: rows from `0`.
    pub fn new(fft_window: usize, height: usize) -> (s: Self)
        ensures
            s == (SamplerState { height, fft_window, row: 0 }),
    {
        SamplerState { height, fft_window, row: 0 }
    }

    /// Takes one request: a new height restarts at row `0` (only if it differs), a new FFT
    /// size or row is taken as is, test mode and exit are passed on as actions.
    pub fn handle_ask(&mut self, ask: SamplerAsks) -> (a: SamplerAction)
        ensures
            (*final(self), a) == old(self).after_ask(ask),
            ask matches SamplerAsks::SetHeight(h) ==> a == SamplerAction::Continue && (h
                != old(self).height ==> final(self).height == h && final(self).row == 0
                && final(self).fft_window == old(self).fft_window) && (h == old(self).height
                ==> *final(self) == *old(self)),
            ask matches SamplerAsks::SetFfftWindow(w) ==> a == SamplerAction::Continue
                && final(self).fft_window == w && final(self).height == old(self).height
                && final(self).row == old(self).row,
            ask matches SamplerAsks::SetRow(r) ==> a == SamplerAction::Continue && final(self).row
                == r && final(self).height == old(self).height && final(self).fft_window == old(
                self).fft_window,
            ask matches SamplerAsks::SetTestMode(enabled) ==> a == SamplerAction::SetTestMode(
                enabled) && *final(self) == *old(self),
            ask is Exit ==> a == SamplerAction::Exit && *final(self) == *old(self),
    {
        match ask {
            SamplerAsks::SetHeight(h) => {
                if self.height != h {
                    self.height = h;
                    self.row = 0;
                }
                SamplerAction::Continue
            },
            SamplerAsks::SetFfftWindow(w) => {
                self.fft_window = w;
                SamplerAction::Continue
            },
            SamplerAsks::SetRow(r) => {
                self.row = r;
                SamplerAction::Continue
            },
            SamplerAsks::SetTestMode(enabled) => SamplerAction::SetTestMode(enabled),
            SamplerAsks::Exit => SamplerAction::Exit,
        }
    }

    /// The number of bytes to read for one FFT: an I and a Q byte per sample.
    pub fn sample_bytes_len(&self) -> (n: usize)
        requires
            self.fft_window <= usize::MAX / 2,
        ensures
            n == 2 * self.fft_window,
    {
        2 * self.fft_window
    }

    /// Wraps `pixels` as the update for the current row and moves on to the next row,
    /// wrapping around at the height.
    pub fn finish_row(&mut self, pixels: Vec<u8>) -> (u: PixelsUpdate)
        requires
            old(self).height > 0,
            old(self).row < usize::MAX,
        ensures
            u.row == old(self).row,
            u.pixels@ == pixels@,
            *final(self) == old(self).after_row(),
            final(self).row == (old(self).row + 1) % (old(self).height as int),
            final(self).row < final(self).height,
    {
        let row = self.row;
        self.row = (self.row + 1) % self.height;
        PixelsUpdate { row, pixels }
    }
}

/// Taking a request does what the request says, whatever the state: a different height is
/// taken and restarts at row `0` (whether the window grew or shrank) and the same height
/// changes nothing; an FFT size or a row is taken as is and nothing else changes; test mode
/// and exit change nothing and are passed on as actions.
pub proof fn lemma_asks_do_what_they_say(s: SamplerState, ask: SamplerAsks)
    ensures
        ask matches SamplerAsks::SetHeight(h) ==> {
            &&& s.after_ask(ask).1 == SamplerAction::Continue
            &&& h != s.height ==> s.after_ask(ask).0 == (SamplerState {
                height: h,
                fft_window: s.fft_window,
                row: 0,
            })
            &&& h == s.height ==> s.after_ask(ask).0 == s
        },
        ask matches SamplerAsks::SetFfftWindow(w) ==> s.after_ask(ask) == (
            SamplerState { height: s.height, fft_window: w, row: s.row },
            SamplerAction::Continue,
        ),
        ask matches SamplerAsks::SetRow(r) ==> s.after_ask(ask) == (
            SamplerState { height: s.height, fft_window: s.fft_window, row: r },
            SamplerAction::Continue,
        ),
        ask matches SamplerAsks::SetTestMode(enabled) ==> s.after_ask(ask) == (
            s,
            SamplerAction::SetTestMode(enabled),
        ),
        ask is Exit ==> s.after_ask(ask) == (s, SamplerAction::Exit),
{
}

/// Centering a spectrum of even length puts `dc` in the middle bin, the upper half of the
/// old spectrum before it and the rest of the lower half after it.
pub proof fn lemma_centered_moves_halves<T>(bins: Seq<T>, dc: T)
    requires
        bins.len() >= 2,
        bins.len() % 2 == 0,
    ensures
        centered(bins, dc).len() == bins.len(),
        centered(bins, dc)[(bins.len() / 2) as int] == dc,
        forall|i: int|
            0 <= i < bins.len() / 2 ==> #[trigger] centered(bins, dc)[i] == bins[i + bins.len()
                / 2],
        forall|i: int|
            bins.len() / 2 < i < bins.len() ==> #[trigger] centered(bins, dc)[i] == bins[i
                - bins.len() / 2],
{
}

/// Whether request `ask` keeps the written row inside the window: it sets no row, and any
/// height it sets is positive.
pub open spec fn keeps_row_in_range(ask: SamplerAsks) -> bool {
    &&& !(ask is SetRow)
    &&& (ask matches SamplerAsks::SetHeight(h) ==> h > 0)
}

/// The state after taking the requests `asks` in order.
pub open spec fn after_asks(s: SamplerState, asks: Seq<SamplerAsks>) -> SamplerState
    decreases asks.len(),
{
    if asks.len() == 0 {
        s
    } else {
        after_asks(s.after_ask(asks[0]).0, asks.drop_first())
    }
}

/// The rows that a run of reads sends, starting from `s` with no request in between, where
/// `reads` are the byte counts the reads gave: a read that gave no bytes sends nothing and
/// leaves the row as it was; any other read sends the current row and moves on to the next.
pub open spec fn rows_sent(s: SamplerState, reads: Seq<usize>) -> Seq<usize>
    decreases reads.len(),
{
    if reads.len() == 0 {
        Seq::empty()
    } else if reads[0] == 0 {
        rows_sent(s, reads.drop_first())
    } else {
        seq![s.row] + rows_sent(s.after_row(), reads.drop_first())
    }
}

/// Requests that set no row, and no height of zero, keep the row below the height.
pub proof fn lemma_asks_keep_row_below_height(s: SamplerState, asks: Seq<SamplerAsks>)
    requires
        s.row < s.height,
        forall|i: int| 0 <= i < asks.len() ==> keeps_row_in_range(#[trigger] asks[i]),
    ensures
        after_asks(s, asks).row < after_asks(s, asks).height,
    decreases asks.len(),
{
    if asks.len() > 0 {
        assert(keeps_row_in_range(asks[0]));
        let rest = asks.drop_first();
        assert forall|i: int| 0 <= i < rest.len() implies keeps_row_in_range(#[trigger] rest[i]) by {
            assert(rest[i] == asks[i + 1]);
        }
        lemma_asks_keep_row_below_height(s.after_ask(asks[0]).0, rest);
    }
}

/// Over a run of reads with the row below the height, the sampler sends rows that start at
/// the current row, stay below the height, and follow each other one by one, wrapping around
/// at the height; reads that gave no bytes send nothing.
pub proof fn lemma_rows_sent_wrap_in_order(s: SamplerState, reads: Seq<usize>)
    requires
        s.row < s.height,
    ensures
        rows_sent(s, reads).len() <= reads.len(),
        forall|i: int| 0 <= i < rows_sent(s, reads).len() ==> #[trigger] rows_sent(s, reads)[i] < s.height,
        forall|i: int|
            0 <= i < rows_sent(s, reads).len() - 1 ==> #[trigger] rows_sent(s, reads)[i + 1] == (
            rows_sent(s, reads)[i] + 1) % (s.height as int),
        rows_sent(s, reads).len() > 0 ==> rows_sent(s, reads)[0] == s.row,
        (forall|i: int| 0 <= i < reads.len() ==> #[trigger] reads[i] == 0) ==> rows_sent(s, reads).len() == 0,
    decreases reads.len(),
{
    if reads.len() > 0 {
        let rest = reads.drop_first();
        assert((forall|i: int| 0 <= i < reads.len() ==> #[trigger] reads[i] == 0) ==> (forall|i: int|
            0 <= i < rest.len() ==> #[trigger] rest[i] == 0)) by {
            if forall|i: int| 0 <= i < reads.len() ==> #[trigger] reads[i] == 0 {
                assert forall|i: int| 0 <= i < rest.len() implies #[trigger] rest[i] == 0 by {
                    assert(rest[i] == reads[i + 1]);
                }
            }
        }
        if reads[0] == 0 {
            lemma_rows_sent_wrap_in_order(s, rest);
        } else {
            let t = s.after_row();
            lemma_rows_sent_wrap_in_order(t, rest);
            let tail = rows_sent(t, rest);
            let all = rows_sent(s, reads);
            assert(all == seq![s.row] + tail);
            assert forall|i: int| 0 <= i < all.len() - 1 implies #[trigger] all[i + 1] == (all[i] + 1) % (
            s.height as int) by {
                if i > 0 {
                    assert(all[i] == tail[i - 1]);
                    assert(all[i + 1] == tail[(i - 1) + 1]);
                }
            }
            assert forall|i: int| 0 <= i < all.len() implies #[trigger] all[i] < s.height by {
                if i > 0 {
                    assert(all[i] == tail[i - 1]);
                }
            }
        }
    }
}

/// The number of bytes that a read gave: the count on success, `0` on error.
pub fn read_count(read: Result<i32>) -> (n: usize)
    ensures
        read matches Ok(v) ==> n == v as usize,
        read is Err ==> n == 0,
{
    match read {
        Ok(v) => v as usize,
        Err(_) => 0,
    }
}

/// The bytes grouped in pairs, in order, as `Itertools::tuples` groups them; a trailing odd
/// byte is dropped.
#[verifier::external_body]
fn byte_pairs(bytes: &[u8]) -> (pairs: Vec<(u8, u8)>)
    ensures
        pairs.len() == bytes@.len() / 2,
        forall|k: int|
            0 <= k < pairs.len() ==> #[trigger] pairs[k] == (bytes@[2 * k], bytes@[2 * k + 1]),
{
    bytes.iter().copied().tuples::<(u8, u8)>().collect()
}

/// The I/Q pairs in the first `n` bytes of `samples`, or `None` when the read gave no bytes.
pub fn iq_pairs(samples: &Vec<u8>, n: usize) -> (pairs: Option<Vec<(u8, u8)>>)
    requires
        n <= samples.len(),
    ensures
        n == 0 <==> pairs is None,
        pairs matches Some(p) ==> p.len() == n / 2 && forall|k: int|
            0 <= k < p.len() ==> #[trigger] p[k] == (samples[2 * k], samples[2 * k + 1]),
{
    if n == 0 {
        return None;
    }
    let mut prefix: Vec<u8> = Vec::new();
    let mut i: usize = 0;
    while i < n
        invariant
            i <= n,
            n <= samples.len(),
            prefix@ == samples@.subrange(0, i as int),
        decreases n - i,
    {
        prefix.push(samples[i]);
        i = i + 1;
    }
    let p = byte_pairs(prefix.as_slice());
    assert forall|k: int| 0 <= k < p.len() implies #[trigger] p[k] == (samples[2 * k], samples[2
        * k + 1]) by {
        assert(2 * k + 1 < n);
    }
    Some(p)
}

/// What a spectrum looks like after its bin `0` is set to `dc` and its halves are swapped:
/// bin `i` of the result holds bin `i + mid` for `i < mid`, `dc` at `mid`, and bin `i - mid`
/// after that, where `mid` is half the length.
pub open spec fn centered<T>(bins: Seq<T>, dc: T) -> Seq<T> {
    let mid = bins.len() / 2;
    Seq::new(
        bins.len(),
        |i: int|
            if i < mid {
                bins[i + mid]
            } else if i == mid {
                dc
            } else {
                bins[i - mid]
            },
    )
}

/// Moves the zero-frequency bin to the middle of the spectrum: bin `0` (the DC spike) is
/// replaced with `dc`, then the two halves trade places.
pub fn center_spectrum<T: Copy>(bins: &mut Vec<T>, dc: T)
    requires
        old(bins).len() >= 2,
        old(bins).len() % 2 == 0,
    ensures
        final(bins)@ == centered(old(bins)@, dc),
        final(bins).len() == old(bins).len(),
        final(bins)[(old(bins).len() / 2) as int] == dc,
        forall|i: int|
            0 <= i < old(bins).len() / 2 ==> #[trigger] final(bins)[i] == old(bins)[i + old(
                bins).len() / 2],
        forall|i: int|
            old(bins).len() / 2 < i < old(bins).len() ==> #[trigger] final(bins)[i] == old(
                bins)[i - old(bins).len() / 2],
{
    let len = bins.len();
    let mid = len / 2;
    bins.set(0, dc);
    let ghost start = bins@;
    let mut i: usize = 0;
    while i < mid
        invariant
            len == bins.len(),
            len == start.len(),
            mid == len / 2,
            len % 2 == 0,
            i <= mid,
            forall|j: int| 0 <= j < i ==> #[trigger] bins[j] == start[j + mid],
            forall|j: int| mid <= j < mid + i ==> #[trigger] bins[j] == start[j - mid],
            forall|j: int| i <= j < mid ==> #[trigger] bins[j] == start[j],
            forall|j: int| mid + i <= j < len ==> #[trigger] bins[j] == start[j],
        decreases mid - i,
    {
        let a = bins[i];
        let b = bins[i + mid];
        bins.set(i, b);
        bins.set(i + mid, a);
        i = i + 1;
    }
    assert forall|j: int| 0 <= j < len implies bins[j] == centered(old(bins)@, dc)[j] by {
    }
    assert(bins@ =~= centered(old(bins)@, dc));
}

/// Gray levels as RGB pixels: each level becomes three equal bytes.
pub fn gray_to_rgb(levels: &Vec<u8>) -> (pixels: Vec<u8>)
    requires
        levels.len() <= usize::MAX / 3,
    ensures
        pixels.len() == 3 * levels.len(),
        forall|i: int| 0 <= i < pixels.len() ==> #[trigger] pixels[i] == levels[i / 3],
        forall|k: int|
            0 <= k < levels.len() ==> #[trigger] pixels[3 * k] == pixels[3 * k + 1] && pixels[3 * k
                + 1] == pixels[3 * k + 2],
{
    let mut pixels: Vec<u8> = Vec::new();
    let mut k: usize = 0;
    while k < levels.len()
        invariant
            k <= levels.len(),
            levels.len() <= usize::MAX / 3,
            pixels.len() == 3 * k,
            forall|i: int| 0 <= i < pixels.len() ==> #[trigger] pixels[i] == levels[i / 3],
        decreases levels.len() - k,
    {
        let r = levels[k];
        let ghost before = pixels@;
        pixels.push(r);
        pixels.push(r);
        pixels.push(r);
        assert forall|i: int| 0 <= i < pixels.len() implies #[trigger] pixels[i] == levels[i / 3] by {
            if i < 3 * k {
                assert(pixels[i] == before[i]);
            } else {
                assert(i / 3 == k);
            }
        }
        k = k + 1;
    }
    assert forall|j: int| 0 <= j < levels.len() implies #[trigger] pixels[3 * j] == pixels[3 * j
        + 1] && pixels[3 * j + 1] == pixels[3 * j + 2] by {
        assert((3 * j) / 3 == j);
        assert((3 * j + 1) / 3 == j);
        assert((3 * j + 2) / 3 == j);
    }
    pixels
}

} // verus!
