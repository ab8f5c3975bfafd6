//! Time-indexed frame sequences, per-actor playback state, and the catalog
//! binding each action tag to its animation.

use vstd::prelude::*;

use crate::geom::Rect;
use crate::sprite::Action;
use crate::surface::Image;

verus! {

/// An ordered sequence of frame rectangles with per-frame timing offsets and
/// a loop flag.
pub struct Animation {
    pub frames: Vec<Rect>,
    pub frame_timings: Vec<usize>,
    pub loops: bool,
}

impl Animation {
    /// An animation has at least one frame.
    pub open spec fn wf(self) -> bool {
        self.frames.len() >= 1
    }

    /// The frame slot selected at scaled elapsed time, clamped to the last
    /// frame so that a finished non-looping animation keeps its final pose.
    pub open spec fn spec_frame_index(self, start_time: int, now: int, sf: int) -> int {
        if (now - start_time) / sf >= self.frames.len() {
            self.frames.len() - 1
        } else {
            (now - start_time) / sf
        }
    }

    /// The first frame.
    pub fn initial_frame(&self) -> (r: Rect)
        requires
            self.wf(),
        ensures
            r == self.frames@[0],
    {
        self.frames[0]
    }

    /// The frame for elapsed time `(now - start_time) / speedup_factor`,
    /// clamped defensively to the last frame.
    pub fn current_frame(&self, start_time: usize, now: usize, speedup_factor: &usize) -> (r: Rect)
        requires
            self.wf(),
            start_time <= now,
            *speedup_factor >= 1,
        ensures
            r == self.frames@[self.spec_frame_index(
                start_time as int,
                now as int,
                *speedup_factor as int,
            )],
    {
        let i = (now - start_time) / *speedup_factor;
        if i >= self.frames.len() {
            self.frames[self.frames.len() - 1]
        } else {
            self.frames[i]
        }
    }

    /// Whether the scaled elapsed time has reached or passed the frame count.
    fn is_finished(&self, start_time: usize, now: usize, speedup_factor: &usize) -> (r: bool)
        requires
            start_time <= now,
            *speedup_factor >= 1,
        ensures
            r == ((now - start_time) / (*speedup_factor as int) >= self.frames.len()),
    {
        (now - start_time) / *speedup_factor >= self.frames.len()
    }

    /// Copy this animation's data.
    pub fn duplicate(&self) -> (r: Animation)
        ensures
            r.frames@ == self.frames@,
            r.frame_timings@ == self.frame_timings@,
            r.loops == self.loops,
    {
        let mut frames: Vec<Rect> = Vec::new();
        let mut i: usize = 0;
        while i < self.frames.len()
            invariant
                i <= self.frames.len(),
                frames@ == self.frames@.take(i as int),
            decreases self.frames.len() - i,
        {
            frames.push(self.frames[i]);
            proof {
                assert(frames@ =~= self.frames@.take(i + 1));
            }
            i = i + 1;
        }
        let mut frame_timings: Vec<usize> = Vec::new();
        let mut j: usize = 0;
        while j < self.frame_timings.len()
            invariant
                j <= self.frame_timings.len(),
                frame_timings@ == self.frame_timings@.take(j as int),
            decreases self.frame_timings.len() - j,
        {
            frame_timings.push(self.frame_timings[j]);
            proof {
                assert(frame_timings@ =~= self.frame_timings@.take(j + 1));
            }
            j = j + 1;
        }
        proof {
            assert(frames@ =~= self.frames@);
            assert(frame_timings@ =~= self.frame_timings@);
        }
        Animation { frames, frame_timings, loops: self.loops }
    }
}

/// Per-actor playback state: elapsed tick counter, active action tag, and
/// the animation being played. Playback always starts at time zero; changing
/// action replaces the whole state, so `start_time` stays zero.
pub struct AnimationState {
    pub start_time: usize,
    pub now: usize,
    pub action: Action,
    pub animation: Animation,
}

impl AnimationState {
    pub open spec fn wf(self) -> bool {
        self.start_time == 0 && self.animation.wf()
    }

    /// The tick counter after one tick at speedup `sf`: it advances by one,
    /// wrapping to zero when a looping animation has just finished.
    pub open spec fn spec_ticked_now(self, sf: int) -> int {
        if self.animation.loops && (self.now + 1) / sf >= self.animation.frames.len() {
            0
        } else {
            self.now + 1
        }
    }

    /// The frame rectangle currently selected.
    pub open spec fn spec_current_frame(self, sf: int) -> Rect {
        self.animation.frames@[self.animation.spec_frame_index(self.start_time as int, self.now as int, sf)]
    }

    /// Advance by one tick: wrap to zero when a looping animation finishes,
    /// and return the frame for the resulting position.
    pub fn tick(&mut self, speedup_factor: &usize) -> (r: Rect)
        requires
            old(self).wf(),
            *speedup_factor >= 1,
            old(self).now < usize::MAX,
        ensures
            final(self).wf(),
            final(self).animation == old(self).animation,
            final(self).action == old(self).action,
            final(self).start_time == 0,
            final(self).now == old(self).spec_ticked_now(*speedup_factor as int),
            r == final(self).spec_current_frame(*speedup_factor as int),
    {
        self.now = self.now + 1;
        if self.animation.is_finished(self.start_time, self.now, speedup_factor)
            && self.animation.loops {
            self.now = 0;
        }
        self.animation.current_frame(self.start_time, self.now, speedup_factor)
    }
}

/// A catalog binding each of the eight action tags to its animation, plus
/// the sprite sheet they index into. Slot `Action::spec_index` of
/// `animations` holds the animation for that action.
pub struct AnimationSet {
    pub image: Image,
    pub animations: Vec<Animation>,
}

impl AnimationSet {
    pub open spec fn wf(self) -> bool {
        self.animations.len() == 8 && forall|i: int|
            0 <= i < 8 ==> (#[trigger] self.animations@[i]).wf()
    }

    /// Build a catalog from a decoded sprite sheet and one animation per
    /// action tag.
    pub fn new(image: Image, animations: Vec<Animation>) -> (r: AnimationSet)
        requires
            animations.len() == 8,
            forall|i: int| 0 <= i < 8 ==> (#[trigger] animations@[i]).wf(),
        ensures
            r.wf(),
            r.image == image,
            r.animations == animations,
    {
        AnimationSet { image, animations }
    }

    /// The animation bound to `action`.
    pub fn get_animation(&self, action: Action) -> (r: &Animation)
        requires
            self.wf(),
        ensures
            *r == self.animations@[action.spec_index()],
    {
        let i = action.index();
        &self.animations[i]
    }

    /// A fresh playback state for `action`, starting at time zero.
    pub fn play_animation(&self, action: Action) -> (r: AnimationState)
        requires
            self.wf(),
        ensures
            r.wf(),
            r.start_time == 0,
            r.now == 0,
            r.action == action,
            r.animation.frames@ == self.animations@[action.spec_index()].frames@,
            r.animation.frame_timings@ == self.animations@[action.spec_index()].frame_timings@,
            r.animation.loops == self.animations@[action.spec_index()].loops,
    {
        let i = action.index();
        AnimationState {
            start_time: 0,
            now: 0,
            action,
            animation: self.animations[i].duplicate(),
        }
    }

    /// The sprite sheet.
    pub fn get_image(&self) -> (r: &Image)
        ensures
            r == &self.image,
    {
        &self.image
    }

    /// The sprite sheet; mirrored drawing reuses the same sheet.
    pub fn get_reversed_image(&self) -> (r: &Image)
        ensures
            r == &self.image,
    {
        &self.image
    }

    /// Replace the whole catalog.
    pub fn set_animation(&mut self, animations: Vec<Animation>)
        requires
            animations.len() == 8,
            forall|i: int| 0 <= i < 8 ==> (#[trigger] animations@[i]).wf(),
        ensures
            final(self).animations == animations,
            final(self).image == old(self).image,
            final(self).wf(),
    {
        self.animations = animations;
    }

    /// Replace the sprite sheet.
    pub fn set_image(&mut self, image: Image)
        ensures
            final(self).image == image,
            final(self).animations == old(self).animations,
    {
        self.image = image;
    }
}

} // verus!
