//! Actor action tags and the sprite that binds an animation state to a draw
//! position and size.

use vstd::prelude::*;

use crate::animations::AnimationState;
use crate::geom::{Rect, Vec2i};

verus! {

/// The closed set of actor actions: standing or walking, facing one of the
/// four directions.
#[derive(PartialEq, Eq, Structural, Clone, Copy, Debug, Hash)]
pub enum Action {
    StandD,
    StandU,
    StandL,
    StandR,
    WalkD,
    WalkU,
    WalkL,
    WalkR,
}

impl Action {
    /// The slot of this action in an animation catalog.
    pub open spec fn spec_index(self) -> int {
        match self {
            Action::StandD => 0,
            Action::StandU => 1,
            Action::StandL => 2,
            Action::StandR => 3,
            Action::WalkD => 4,
            Action::WalkU => 5,
            Action::WalkL => 6,
            Action::WalkR => 7,
        }
    }

    /// The catalog slot of this action, executably.
    pub fn index(self) -> (r: usize)
        ensures
            r == self.spec_index(),
            r < 8,
    {
        match self {
            Action::StandD => 0,
            Action::StandU => 1,
            Action::StandL => 2,
            Action::StandR => 3,
            Action::WalkD => 4,
            Action::WalkU => 5,
            Action::WalkL => 6,
            Action::WalkR => 7,
        }
    }

    /// Whether this action is one of the four standing poses.
    pub open spec fn spec_is_standing(self) -> bool {
        matches!(self, Action::StandD | Action::StandU | Action::StandL | Action::StandR)
    }

    /// Whether this action is one of the four standing poses.
    pub fn is_standing(self) -> (r: bool)
        ensures
            r == self.spec_is_standing(),
    {
        matches!(self, Action::StandD | Action::StandU | Action::StandL | Action::StandR)
    }
}

/// An animation state plus a draw position (in coarse grid cells) and a
/// logical size (in pixels).
pub struct Sprite {
    pub animation_state: AnimationState,
    pub pos: Vec2i,
    pub sz: Vec2i,
}

impl Sprite {
    pub open spec fn wf(self) -> bool {
        self.animation_state.wf()
    }

    /// Advance the bound animation by one tick and return the frame to draw.
    pub fn play_animation(&mut self, speedup_factor: &usize) -> (r: Rect)
        requires
            old(self).wf(),
            *speedup_factor >= 1,
            old(self).animation_state.now < usize::MAX,
        ensures
            final(self).wf(),
            final(self).pos == old(self).pos,
            final(self).sz == old(self).sz,
            final(self).animation_state.animation == old(self).animation_state.animation,
            final(self).animation_state.action == old(self).animation_state.action,
            final(self).animation_state.now == old(self).animation_state.spec_ticked_now(
                *speedup_factor as int,
            ),
            r == final(self).animation_state.spec_current_frame(*speedup_factor as int),
    {
        self.animation_state.tick(speedup_factor)
    }
}

} // verus!
