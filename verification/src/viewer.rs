//! The waterfall viewer's decisions: what a key press or a window resize
//! does, and how a row from the sampler lands in the frame.
//!
//! The program layer owns the window, the texture and the channels; it asks
//! these functions what to do and carries it out.

use vstd::prelude::*;

use crate::sampler::{PixelsUpdate, SamplerAsks};

verus! {

/// SDL key code of the space bar: pause or resume.
pub const SDLK_SPACE: u32 = 0x20;
/// SDL key code of `q`: quit.
pub const SDLK_Q: u32 = 0x71;
/// SDL key code of `t`: toggle the device's test mode.
pub const SDLK_T: u32 = 0x74;
/// SDL key code of `c`: clear the picture.
pub const SDLK_C: u32 = 0x63;

/// What the viewer does after a key is released.
#[derive(Copy, Clone, Debug, PartialEq, Eq, Structural)]
pub enum KeyAction {
    /// Keep running.
    Continue,
    /// End the program successfully.
    Quit,
    /// Send this request to the sampler thread.
    Ask(SamplerAsks),
    /// Recreate the texture at its current size; if that worked, send this request.
    ClearTexture(SamplerAsks),
}

/// What the viewer does after the window was resized.
#[derive(Copy, Clone, Debug, PartialEq, Eq, Structural)]
pub struct ResizeAction {
    /// Recreate the texture with the old width and the new height; if that fails,
    /// do nothing more.
    pub recreate: bool,
    /// The request to send to the sampler thread.
    pub ask: SamplerAsks,
}

/// The viewer's own state.
#[derive(Copy, Clone, Debug, PartialEq, Eq, Structural)]
pub struct ViewerState {
    /// Rows from the sampler are dropped while paused.
    pub paused: bool,
    /// Whether the device is asked to run in test mode.
    pub test: bool,
}

impl ViewerState {
    /// The state and action that follow the release of `key`.
    pub open spec fn after_key(self, key: u32) -> (ViewerState, KeyAction) {
        if key == SDLK_SPACE {
            (ViewerState { paused: !self.paused, test: self.test }, KeyAction::Continue)
        } else if key == SDLK_Q {
            (self, KeyAction::Quit)
        } else if key == SDLK_T {
            (
                ViewerState { paused: self.paused, test: !self.test },
                KeyAction::Ask(SamplerAsks::SetTestMode(!self.test)),
            )
        } else if key == SDLK_C {
            (self, KeyAction::ClearTexture(SamplerAsks::SetRow(0)))
        } else {
            (self, KeyAction::Continue)
        }
    }

    /// A running viewer, with test mode as the options set it.
    pub fn new(test: bool) -> (s: Self)
        ensures
            s == (ViewerState { paused: false, test }),
    {
        ViewerState { paused: false, test }
    }

    /// Handles a key release: space pauses or resumes, `q` quits, `t` toggles test mode and
    /// tells the sampler, `c` clears the picture and restarts at the top; other keys do nothing.
    pub fn on_key_up(&mut self, key: u32) -> (a: KeyAction)
        ensures
            (*final(self), a) == old(self).after_key(key),
            (a == KeyAction::Quit) <==> key == SDLK_Q,
            key == SDLK_SPACE ==> a == KeyAction::Continue && final(self).paused == !old(
                self).paused && final(self).test == old(self).test,
            key == SDLK_Q ==> *final(self) == *old(self),
            key == SDLK_T ==> final(self).test == !old(self).test && final(self).paused == old(
                self).paused && a == KeyAction::Ask(SamplerAsks::SetTestMode(final(self).test)),
            key == SDLK_C ==> *final(self) == *old(self) && a == KeyAction::ClearTexture(
                SamplerAsks::SetRow(0)),
            key != SDLK_SPACE && key != SDLK_Q && key != SDLK_T && key != SDLK_C ==> a
                == KeyAction::Continue && *final(self) == *old(self),
    {
        if key == SDLK_SPACE {
            self.paused = !self.paused;
            KeyAction::Continue
        } else if key == SDLK_Q {
            KeyAction::Quit
        } else if key == SDLK_T {
            self.test = !self.test;
            KeyAction::Ask(SamplerAsks::SetTestMode(self.test))
        } else if key == SDLK_C {
            KeyAction::ClearTexture(SamplerAsks::SetRow(0))
        } else {
            KeyAction::Continue
        }
    }

    /// Copies a row from the sampler into the frame, which holds `height` rows of `pitch`
    /// bytes. While paused the row is dropped; a row at or past `height` (left over from
    /// before a resize) is dropped too.
    pub fn apply_update(&self, frame: &mut [u8], pitch: usize, height: usize, update: &PixelsUpdate)
        requires
            old(frame)@.len() == pitch * height,
            !self.paused && update.row < height ==> update.pixels.len() == pitch,
        ensures
            self.paused || update.row >= height ==> final(frame)@ == old(frame)@,
            !self.paused && update.row < height ==> final(frame)@ == old(frame)@.subrange(
                0,
                update.row * pitch,
            ) + update.pixels@ + old(frame)@.subrange(
                update.row * pitch + pitch,
                old(frame)@.len() as int,
            ),
    {
        if self.paused || update.row >= height {
            return;
        }
        let row = update.row;
        let len = frame.len();
        proof {
            assert(row * pitch + pitch <= pitch * height) by (nonlinear_arith)
                requires
                    row < height,
            ;
            assert(row * pitch + pitch <= len);
        }
        let begin = row * pitch;
        let ghost start = frame@;
        let mut i: usize = 0;
        while i < pitch
            invariant
                i <= pitch,
                begin == row * pitch,
                begin + pitch <= start.len(),
                start.len() == len,
                update.pixels.len() == pitch,
                frame@.len() == start.len(),
                forall|j: int| 0 <= j < begin ==> #[trigger] frame@[j] == start[j],
                forall|j: int| begin <= j < begin + i ==> #[trigger] frame@[j] == update.pixels@[j
                    - begin],
                forall|j: int| begin + i <= j < start.len() ==> #[trigger] frame@[j] == start[j],
            decreases pitch - i,
        {
            frame[begin + i] = update.pixels[i];
            i = i + 1;
        }
        assert(frame@ =~= start.subrange(0, begin as int) + update.pixels@ + start.subrange(
            begin + pitch,
            start.len() as int,
        ));
    }
}

/// Handles a window resize: the texture is recreated only if its height (`texture_height`)
/// differs from the window's new height, and the sampler is told the new height.
pub fn on_resize(texture_height: i32, new_height: i32) -> (r: ResizeAction)
    ensures
        r.recreate == (texture_height != new_height),
        r.ask == SamplerAsks::SetHeight(new_height as usize),
{
    ResizeAction { recreate: texture_height != new_height, ask: SamplerAsks::SetHeight(new_height as usize) }
}

/// The keys are space (`0x20`), `q` (`0x71`), `t` (`0x74`) and `c` (`0x63`). Only `q` quits;
/// space flips the pause, `t` flips test mode and asks the sampler for the new mode, `c`
/// clears and restarts at row `0`; every other key does nothing.
pub proof fn lemma_keys_do_what_they_say(s: ViewerState, key: u32)
    ensures
        SDLK_SPACE == 0x20 && SDLK_Q == 0x71 && SDLK_T == 0x74 && SDLK_C == 0x63,
        (s.after_key(key).1 == KeyAction::Quit) <==> key == 0x71,
        key == 0x20 ==> s.after_key(key) == (
            ViewerState { paused: !s.paused, test: s.test },
            KeyAction::Continue,
        ),
        key == 0x71 ==> s.after_key(key).0 == s,
        key == 0x74 ==> s.after_key(key) == (
            ViewerState { paused: s.paused, test: !s.test },
            KeyAction::Ask(SamplerAsks::SetTestMode(!s.test)),
        ),
        key == 0x63 ==> s.after_key(key) == (s, KeyAction::ClearTexture(SamplerAsks::SetRow(0))),
        key != 0x20 && key != 0x71 && key != 0x74 && key != 0x63 ==> s.after_key(key) == (
            s,
            KeyAction::Continue,
        ),
{
}

/// Releasing space twice leaves the viewer as it was.
pub proof fn lemma_pause_toggle_twice(s: ViewerState)
    ensures
        s.after_key(SDLK_SPACE).0.after_key(SDLK_SPACE).0 == s,
{
}

/// Releasing `t` asks the sampler for exactly the test mode the viewer now records, and
/// releasing it twice leaves the viewer as it was.
pub proof fn lemma_test_toggle(s: ViewerState)
    ensures
        s.after_key(SDLK_T).1 == KeyAction::Ask(SamplerAsks::SetTestMode(s.after_key(SDLK_T).0.test)),
        s.after_key(SDLK_T).0.test == !s.test,
        s.after_key(SDLK_T).0.after_key(SDLK_T).0 == s,
{
}

} // verus!
