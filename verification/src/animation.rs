//! Frame-cycling bookkeeping for sprite-sheet animations: which frame a
//! sprite shows is pure arithmetic over a frame window and a per-frame
//! timer; drawing the frame is the renderer's business.

use vstd::prelude::*;

verus! {

use crate::timer::Timer;
use crate::timer::TimerMode;

/// Frame window and cadence of one animated sprite: `frames` consecutive
/// sheet indices starting at `index`, advanced at `fps` frames per
/// second.
#[derive(Clone, Copy, Debug, PartialEq, Eq, Structural)]
pub struct AnimationConfig {
    /// First sheet index of the animation's window.
    pub index: usize,
    /// How many consecutive frames the window holds.
    pub frames: usize,
    /// Counts down the current frame's screen time.
    pub timer: Timer,
    /// Frames per second; zero shows the current frame forever.
    pub fps: usize,
}

/// Milliseconds one frame stays on screen at `fps` frames per second; a
/// zero rate never advances.
pub open spec fn spec_frame_ms(fps: usize) -> u64 {
    if fps == 0 {
        u64::MAX
    } else {
        (1000int / fps as int) as u64
    }
}

impl AnimationConfig {
    pub open spec fn wf(self) -> bool {
        &&& self.timer.wf()
        &&& self.timer.mode == TimerMode::Once
    }

    /// A one-shot timer spanning one frame at the given rate.
    pub fn timer_from_fps(fps: usize) -> (t: Timer)
        ensures
            t == Timer::spec_new(spec_frame_ms(fps), TimerMode::Once),
    {
        if fps == 0 {
            Timer::new(u64::MAX, TimerMode::Once)
        } else {
            Timer::new((1000 / fps) as u64, TimerMode::Once)
        }
    }

    /// A fresh animation over the given frame window and rate.
    pub fn new(index: usize, frames: usize, fps: usize) -> (c: AnimationConfig)
        ensures
            c.wf(),
            c.index == index,
            c.frames == frames,
            c.fps == fps,
            c.timer == Timer::spec_new(spec_frame_ms(fps), TimerMode::Once),
    {
        AnimationConfig { index, frames, fps, timer: Self::timer_from_fps(fps) }
    }

    /// A one-shot timer spanning one frame at this animation's own rate.
    pub fn timer_from_self_fps(&self) -> (t: Timer)
        ensures
            t == Timer::spec_new(spec_frame_ms(self.fps), TimerMode::Once),
    {
        Self::timer_from_fps(self.fps)
    }

    /// The sheet index shown after the current frame's time elapses:
    /// the next frame of the window, wrapping from the last back to the
    /// first.
    pub open spec fn spec_next_frame(self, shown: usize) -> usize {
        if shown == self.index + self.frames - 1 {
            self.index
        } else {
            (shown + 1) as usize
        }
    }

    /// Advance the animation by `delta_ms` given the sheet index
    /// currently shown; returns the index to show now. When the frame
    /// timer finishes, the shown index steps through the window and
    /// wraps, and the timer re-arms at the animation's rate.
    pub fn advance(&mut self, delta_ms: u64, shown: usize) -> (r: usize)
        requires
            old(self).wf(),
            shown < usize::MAX,
        ensures
            final(self).wf(),
            final(self).index == old(self).index,
            final(self).frames == old(self).frames,
            final(self).fps == old(self).fps,
            old(self).timer.spec_tick(delta_ms).just_finished ==> r == old(self).spec_next_frame(
                shown,
            ) && final(self).timer == Timer::spec_new(
                spec_frame_ms(old(self).fps),
                TimerMode::Once,
            ),
            !old(self).timer.spec_tick(delta_ms).just_finished ==> r == shown && final(self).timer
                == old(self).timer.spec_tick(delta_ms),
    {
        self.timer.tick(delta_ms);
        if self.timer.just_finished() {
            let next: usize = if self.frames > 0 && shown >= self.index && shown - self.index
                == self.frames - 1 {
                self.index
            } else {
                shown + 1
            };
            self.timer = Self::timer_from_fps(self.fps);
            next
        } else {
            shown
        }
    }
}

} // verus!
