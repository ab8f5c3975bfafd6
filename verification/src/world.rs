//! The standard character sheet layout: one animation per action tag, built
//! from a sheet whose rows hold the four facings and whose columns hold the
//! walk phases.

use vstd::prelude::*;

use crate::animations::Animation;
use crate::geom::{Rect, Vec2i};

verus! {

/// One looping animation from frame rectangles laid out on the sheet.
fn build_anim(frames: Vec<Rect>, frame_timings: Vec<usize>) -> (r: Animation)
    requires
        frames.len() >= 1,
    ensures
        r.frames == frames,
        r.frame_timings == frame_timings,
        r.loops,
{
    Animation { frames, frame_timings, loops: true }
}

/// The eight animations of an actor sheet with frame size `sz`, in action
/// order: the four standing poses, then the four walking cycles. Row `d` of
/// the sheet holds facing `d`; walking alternates between the first column
/// and the phase columns.
#[verifier::rlimit(30)]
pub fn anims(sz: Vec2i) -> (r: Vec<Animation>)
    requires
        0 < sz.x <= 1000,
        0 < sz.y <= 1000,
    ensures
        r.len() == 8,
        forall|i: int| 0 <= i < 8 ==> (#[trigger] r@[i]).wf(),
        forall|i: int| 0 <= i < 8 ==> (#[trigger] r@[i]).loops,
        forall|i: int, j: int|
            0 <= i < 8 && 0 <= j < r@[i].frames.len() ==> 0 <= (
            #[trigger] r@[i].frames@[j]).pos.x && 0 <= r@[i].frames@[j].pos.y
                && r@[i].frames@[j].sz == sz && r@[i].frames@[j].pos.x + sz.x <= 3 * sz.x
                && r@[i].frames@[j].pos.y + sz.y <= 4 * sz.y,
        r@[0].frames@ =~= seq![(Rect { pos: Vec2i { x: 0, y: 0 }, sz })],
        r@[1].frames@ =~= seq![(Rect { pos: Vec2i { x: 0, y: sz.y }, sz })],
        r@[2].frames@ =~= seq![(Rect { pos: Vec2i { x: 0, y: (2 * sz.y) as i32 }, sz })],
        r@[3].frames@ =~= seq![(Rect { pos: Vec2i { x: 0, y: (3 * sz.y) as i32 }, sz })],
        r@[4].frames@ =~= seq![
            (Rect { pos: Vec2i { x: 0, y: 0 }, sz }),
            (Rect { pos: Vec2i { x: sz.x, y: 0 }, sz }),
            (Rect { pos: Vec2i { x: 0, y: 0 }, sz }),
            (Rect { pos: Vec2i { x: (2 * sz.x) as i32, y: 0 }, sz }),
        ],
        r@[5].frames@ =~= seq![
            (Rect { pos: Vec2i { x: 0, y: sz.y }, sz }),
            (Rect { pos: Vec2i { x: sz.x, y: sz.y }, sz }),
            (Rect { pos: Vec2i { x: 0, y: sz.y }, sz }),
            (Rect { pos: Vec2i { x: (2 * sz.x) as i32, y: sz.y }, sz }),
        ],
        r@[6].frames@ =~= seq![
            (Rect { pos: Vec2i { x: 0, y: (2 * sz.y) as i32 }, sz }),
            (Rect { pos: Vec2i { x: sz.x, y: (2 * sz.y) as i32 }, sz }),
        ],
        r@[7].frames@ =~= seq![
            (Rect { pos: Vec2i { x: 0, y: (3 * sz.y) as i32 }, sz }),
            (Rect { pos: Vec2i { x: sz.x, y: (3 * sz.y) as i32 }, sz }),
        ],
        forall|d: int| 0 <= d < 4 ==> (#[trigger] r@[d]).frame_timings@ =~= seq![0usize],
        forall|d: int|
            4 <= d < 6 ==> (#[trigger] r@[d]).frame_timings@ =~= seq![
                0usize,
                15usize,
                30usize,
                45usize,
            ],
        forall|d: int| 6 <= d < 8 ==> (#[trigger] r@[d]).frame_timings@ =~= seq![0usize, 15usize],
{
    let mut r: Vec<Animation> = Vec::new();
    let row0 = Vec2i { x: 0, y: 0 };
    let row1 = Vec2i { x: 0, y: sz.y };
    let row2 = Vec2i { x: 0, y: 2 * sz.y };
    let row3 = Vec2i { x: 0, y: 3 * sz.y };
    r.push(build_anim(vec![Rect { pos: row0, sz }], vec![0]));
    r.push(build_anim(vec![Rect { pos: row1, sz }], vec![0]));
    r.push(build_anim(vec![Rect { pos: row2, sz }], vec![0]));
    r.push(build_anim(vec![Rect { pos: row3, sz }], vec![0]));
    r.push(
        build_anim(
            vec![
                Rect { pos: row0, sz },
                Rect { pos: Vec2i { x: sz.x, y: 0 }, sz },
                Rect { pos: row0, sz },
                Rect { pos: Vec2i { x: 2 * sz.x, y: 0 }, sz },
            ],
            vec![0, 15, 30, 45],
        ),
    );
    r.push(
        build_anim(
            vec![
                Rect { pos: row1, sz },
                Rect { pos: Vec2i { x: sz.x, y: sz.y }, sz },
                Rect { pos: row1, sz },
                Rect { pos: Vec2i { x: 2 * sz.x, y: sz.y }, sz },
            ],
            vec![0, 15, 30, 45],
        ),
    );
    r.push(
        build_anim(
            vec![Rect { pos: row2, sz }, Rect { pos: Vec2i { x: sz.x, y: 2 * sz.y }, sz }],
            vec![0, 15],
        ),
    );
    r.push(
        build_anim(
            vec![Rect { pos: row3, sz }, Rect { pos: Vec2i { x: sz.x, y: 3 * sz.y }, sz }],
            vec![0, 15],
        ),
    );
    r
}

} // verus!
