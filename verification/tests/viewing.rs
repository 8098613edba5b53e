use dsp_rtlsdr_rs::sampler::{PixelsUpdate, SamplerAsks};
use dsp_rtlsdr_rs::viewer::{
    on_resize, KeyAction, ResizeAction, ViewerState, SDLK_C, SDLK_Q, SDLK_SPACE, SDLK_T,
};

#[test]
fn space_toggles_pause() {
    let mut v = ViewerState::new(false);
    assert_eq!(v.on_key_up(SDLK_SPACE), KeyAction::Continue);
    assert!(v.paused);
    assert_eq!(v.on_key_up(SDLK_SPACE), KeyAction::Continue);
    assert_eq!(v, ViewerState { paused: false, test: false });
}

#[test]
fn t_toggles_test_mode_and_tells_the_sampler() {
    let mut v = ViewerState::new(true);
    assert_eq!(v.on_key_up(SDLK_T), KeyAction::Ask(SamplerAsks::SetTestMode(false)));
    assert!(!v.test);
    assert_eq!(v.on_key_up(SDLK_T), KeyAction::Ask(SamplerAsks::SetTestMode(true)));
    assert!(v.test);
}

#[test]
fn q_quits_c_clears_others_ignored() {
    let mut v = ViewerState::new(false);
    assert_eq!(v.on_key_up(SDLK_Q), KeyAction::Quit);
    assert_eq!(v.on_key_up(SDLK_C), KeyAction::ClearTexture(SamplerAsks::SetRow(0)));
    assert_eq!(v.on_key_up(0x61), KeyAction::Continue);
    assert_eq!(v, ViewerState { paused: false, test: false });
}

#[test]
fn resize_recreates_only_on_height_change() {
    assert_eq!(
        on_resize(100, 200),
        ResizeAction { recreate: true, ask: SamplerAsks::SetHeight(200) }
    );
    assert_eq!(
        on_resize(200, 200),
        ResizeAction { recreate: false, ask: SamplerAsks::SetHeight(200) }
    );
}

#[test]
fn rows_land_in_the_frame() {
    let v = ViewerState::new(false);
    let mut frame = vec![0u8; 4 * 3];
    v.apply_update(&mut frame, 4, 3, &PixelsUpdate { row: 1, pixels: vec![1, 2, 3, 4] });
    assert_eq!(frame, vec![0, 0, 0, 0, 1, 2, 3, 4, 0, 0, 0, 0]);
    v.apply_update(&mut frame, 4, 3, &PixelsUpdate { row: 2, pixels: vec![9, 9, 9, 9] });
    assert_eq!(frame, vec![0, 0, 0, 0, 1, 2, 3, 4, 9, 9, 9, 9]);
}

#[test]
fn rows_past_the_height_are_dropped() {
    let v = ViewerState::new(false);
    let mut frame = vec![7u8; 6];
    v.apply_update(&mut frame, 2, 3, &PixelsUpdate { row: 3, pixels: vec![1, 2, 3] });
    assert_eq!(frame, vec![7; 6]);
}

#[test]
fn paused_viewer_drops_rows() {
    let mut v = ViewerState::new(false);
    v.on_key_up(SDLK_SPACE);
    let mut frame = vec![7u8; 6];
    v.apply_update(&mut frame, 2, 3, &PixelsUpdate { row: 0, pixels: vec![1, 2] });
    assert_eq!(frame, vec![7; 6]);
}
