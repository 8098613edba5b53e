use dsp_rtlsdr_rs::capture::iq_buffer_len;
use dsp_rtlsdr_rs::error::{ErrorCode, RtlSdrError};
use dsp_rtlsdr_rs::sampler::{
    center_spectrum, gray_to_rgb, iq_pairs, read_count, SamplerAction, SamplerAsks, SamplerState,
};

#[test]
fn new_state_starts_at_row_zero() {
    let s = SamplerState::new(1024, 768);
    assert_eq!(s, SamplerState { height: 768, fft_window: 1024, row: 0 });
}

#[test]
fn set_height_restarts_only_on_change() {
    let mut s = SamplerState { height: 100, fft_window: 8, row: 42 };
    assert_eq!(s.handle_ask(SamplerAsks::SetHeight(100)), SamplerAction::Continue);
    assert_eq!(s, SamplerState { height: 100, fft_window: 8, row: 42 });
    assert_eq!(s.handle_ask(SamplerAsks::SetHeight(50)), SamplerAction::Continue);
    assert_eq!(s, SamplerState { height: 50, fft_window: 8, row: 0 });
}

#[test]
fn other_asks() {
    let mut s = SamplerState { height: 10, fft_window: 8, row: 3 };
    assert_eq!(s.handle_ask(SamplerAsks::SetFfftWindow(16)), SamplerAction::Continue);
    assert_eq!(s, SamplerState { height: 10, fft_window: 16, row: 3 });
    assert_eq!(s.handle_ask(SamplerAsks::SetRow(0)), SamplerAction::Continue);
    assert_eq!(s.row, 0);
    assert_eq!(s.handle_ask(SamplerAsks::SetTestMode(true)), SamplerAction::SetTestMode(true));
    assert_eq!(s.handle_ask(SamplerAsks::SetTestMode(false)), SamplerAction::SetTestMode(false));
    assert_eq!(s.handle_ask(SamplerAsks::Exit), SamplerAction::Exit);
    assert_eq!(s, SamplerState { height: 10, fft_window: 16, row: 0 });
}

#[test]
fn sample_bytes_are_two_per_sample() {
    assert_eq!(SamplerState::new(1024, 1).sample_bytes_len(), 2048);
    assert_eq!(SamplerState::new(0, 1).sample_bytes_len(), 0);
}

#[test]
fn rows_wrap_at_height() {
    let mut s = SamplerState { height: 3, fft_window: 4, row: 1 };
    let u = s.finish_row(vec![1, 2, 3]);
    assert_eq!(u.row, 1);
    assert_eq!(u.pixels, vec![1, 2, 3]);
    assert_eq!(s.row, 2);
    let u = s.finish_row(vec![]);
    assert_eq!(u.row, 2);
    assert_eq!(s.row, 0);
    // A row set past the height comes back into range.
    s.handle_ask(SamplerAsks::SetRow(7));
    let u = s.finish_row(vec![]);
    assert_eq!(u.row, 7);
    assert_eq!(s.row, 2);
}

#[test]
fn read_errors_count_as_nothing_read() {
    assert_eq!(read_count(Ok(512)), 512);
    assert_eq!(read_count(Ok(0)), 0);
    assert_eq!(
        read_count(Err(RtlSdrError { what: "rtlsdr_read_sync", code: ErrorCode::Timeout })),
        0
    );
}

#[test]
fn bytes_pair_up_as_iq() {
    let bytes = vec![1, 2, 3, 4, 5, 6, 7];
    assert_eq!(iq_pairs(&bytes, 0), None);
    assert_eq!(iq_pairs(&bytes, 4), Some(vec![(1, 2), (3, 4)]));
    assert_eq!(iq_pairs(&bytes, 5), Some(vec![(1, 2), (3, 4)]));
    assert_eq!(iq_pairs(&bytes, 7), Some(vec![(1, 2), (3, 4), (5, 6)]));
    assert_eq!(iq_pairs(&bytes, 1), Some(vec![]));
}

#[test]
fn spectrum_is_centered() {
    let mut bins = vec![10, 11, 12, 13, 14, 15];
    center_spectrum(&mut bins, 99);
    assert_eq!(bins, vec![13, 14, 15, 99, 11, 12]);
    let mut bins = vec![(0.5f32, 0.5f32), (2.0, 3.0)];
    center_spectrum(&mut bins, (1.0, 1.0));
    assert_eq!(bins, vec![(2.0, 3.0), (1.0, 1.0)]);
}

#[test]
fn gray_levels_become_rgb() {
    assert_eq!(gray_to_rgb(&vec![0, 128, 255]), vec![0, 0, 0, 128, 128, 128, 255, 255, 255]);
    assert!(gray_to_rgb(&vec![]).is_empty());
}

#[test]
fn capture_buffer_holds_two_bytes_per_sample() {
    assert_eq!(iq_buffer_len(16), 8192);
    assert_eq!(iq_buffer_len(0), 0);
    assert_eq!(iq_buffer_len(1), 512);
}

#[test]
fn rows_from_a_fresh_sampler_count_up_and_wrap() {
    let mut s = SamplerState::new(4, 3);
    let mut rows = vec![];
    for n in [8usize, 0, 8, 8, 0, 8, 8] {
        if let Some(pairs) = iq_pairs(&vec![0u8; 8], n) {
            let pixels = gray_to_rgb(&pairs.iter().map(|p| p.0).collect());
            assert_eq!(pixels.len(), 3 * 4);
            rows.push(s.finish_row(pixels).row);
        }
    }
    assert_eq!(rows, vec![0, 1, 2, 0, 1]);
    assert_eq!(s.row, 2);
}

#[test]
fn asks_without_set_row_keep_the_row_below_the_height() {
    let mut s = SamplerState::new(4, 3);
    s.finish_row(vec![]);
    s.finish_row(vec![]);
    s.handle_ask(SamplerAsks::SetHeight(3));
    assert_eq!(s.row, 2);
    s.handle_ask(SamplerAsks::SetHeight(2));
    assert_eq!(s.row, 0);
    s.handle_ask(SamplerAsks::SetFfftWindow(8));
    s.handle_ask(SamplerAsks::SetTestMode(true));
    assert!(s.row < s.height);
}

#[test]
fn gray_pixels_come_in_equal_triples() {
    let pixels = gray_to_rgb(&vec![3, 200, 17, 0]);
    for k in 0..4 {
        assert_eq!(pixels[3 * k], pixels[3 * k + 1]);
        assert_eq!(pixels[3 * k + 1], pixels[3 * k + 2]);
    }
}
