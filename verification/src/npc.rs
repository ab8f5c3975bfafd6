//! Non-player characters and the per-level set of them, keyed by their grid
//! position.

use vstd::prelude::*;

use crate::geom::{Dir, Rect, Vec2i};
use crate::surface::{spec_blit, Color, Image};

verus! {

/// A non-player character standing on one coarse grid cell.
pub struct NPC {
    /// Row of the NPC sheet this character is drawn from.
    pub id: i32,
    /// The direction the character currently faces.
    pub cur_dir: Dir,
    /// The direction the character faces by default.
    pub def_dir: Dir,
    /// The coarse grid cell the character occupies.
    pub pos: Vec2i,
    /// The dialogue line shown when spoken to.
    pub text: String,
    /// Whether the actor has spoken to this character.
    pub talked: bool,
}

impl NPC {
    pub fn new(id: i32, dir: Dir, pos: Vec2i, text: String) -> (r: NPC)
        ensures
            r.id == id,
            r.cur_dir == dir,
            r.def_dir == dir,
            r.pos == pos,
            r.text == text,
            r.talked == false,
    {
        NPC { id, cur_dir: dir, def_dir: dir, pos, text, talked: false }
    }

    /// Turn to face an actor who approaches walking in direction `dir`.
    pub fn turn_to_face(&mut self, dir: Dir)
        ensures
            final(self).cur_dir == dir.spec_opposite(),
            final(self).id == old(self).id,
            final(self).def_dir == old(self).def_dir,
            final(self).pos == old(self).pos,
            final(self).text == old(self).text,
            final(self).talked == old(self).talked,
    {
        self.cur_dir = dir.opposite();
    }

    /// Return to the default facing.
    pub fn reset_dir(&mut self)
        ensures
            final(self).cur_dir == old(self).def_dir,
            final(self).id == old(self).id,
            final(self).def_dir == old(self).def_dir,
            final(self).pos == old(self).pos,
            final(self).text == old(self).text,
            final(self).talked == old(self).talked,
    {
        self.cur_dir = self.def_dir;
    }
}


/// The sub-tile scroll shift applied to every NPC placement while the actor
/// is mid-step: `movec / 2` pixels along the walking direction.
pub open spec fn spec_sub_pos(movec: u8, dir: Dir) -> Vec2i {
    let half = (movec as int) / 2;
    match dir {
        Dir::Down => Vec2i { x: 0, y: half as i32 },
        Dir::Up => Vec2i { x: 0, y: (-half) as i32 },
        Dir::Left => Vec2i { x: (-half) as i32, y: 0 },
        Dir::Right => Vec2i { x: half as i32, y: 0 },
    }
}

/// The pure effect of drawing the first `n` NPCs of `set`, in list order,
/// onto a `dw`-by-`dh` buffer: NPC `k` blits the sheet frame of row `id`
/// and facing column at its grid cell, shifted by the actor's sub-tile
/// scroll and by two pixels for tall sheets.
pub open spec fn spec_draw_npcs(
    set: NPCSet,
    dst: Seq<Color>,
    dw: int,
    dh: int,
    ppos: Vec2i,
    movec: u8,
    dir: Dir,
    n: int,
) -> Seq<Color>
    decreases n,
{
    if n <= 0 {
        dst
    } else {
        let k = n - 1;
        let npc = set.npcs@[k];
        let sub = spec_sub_pos(movec, dir);
        let adj: int = if set.npc_sz.y > 16 {
            2
        } else {
            0
        };
        spec_blit(
            spec_draw_npcs(set, dst, dw, dh, ppos, movec, dir, k),
            dw,
            dh,
            set.image,
            Rect {
                pos: Vec2i {
                    x: (set.npc_sz.x * npc.cur_dir.spec_button()) as i32,
                    y: (set.npc_sz.y * npc.id) as i32,
                },
                sz: set.npc_sz,
            },
            Vec2i {
                x: (sub.x + 16 * (5 + npc.pos.x - ppos.x)) as i32,
                y: (sub.y + 16 * (5 + npc.pos.y - ppos.y) + adj) as i32,
            },
        )
    }
}

/// The set of NPCs of one level, their shared sheet, and the finish state of
/// the "talked to everyone" sequence. At most one NPC stands on any cell.
pub struct NPCSet {
    pub image: Image,
    pub npcs: Vec<NPC>,
    /// Extent in pixels of one NPC frame on the sheet.
    pub npc_sz: Vec2i,
    /// Whether the finish dialogue has been loaded into the textbox.
    pub fin: bool,
    /// The finish dialogue text.
    pub fin_text: String,
}

impl NPCSet {
    /// Positions are distinct, every sheet row index fits the sheet, and all
    /// coordinates are small enough for pixel arithmetic.
    pub open spec fn wf(self) -> bool {
        self.image.wf() && 0 < self.npc_sz.x <= 100000 && 0 < self.npc_sz.y <= 100000 && 4
            * self.npc_sz.x <= self.image.sz.x && (forall|i: int|
            0 <= i < self.npcs.len() ==> 0 <= (#[trigger] self.npcs@[i]).id && (self.npcs@[i].id + 1)
                * self.npc_sz.y <= self.image.sz.y && -100000 <= self.npcs@[i].pos.x <= 100000
                && -100000 <= self.npcs@[i].pos.y <= 100000 && self.npcs@[i].text@.len()
                <= 100000) && self.fin_text@.len() <= 100000 && (forall|i: int, j: int|
            0 <= i < j < self.npcs.len() ==> (#[trigger] self.npcs@[i]).pos != (
            #[trigger] self.npcs@[j]).pos)
    }

    /// The index of the NPC standing on `pos`, if any.
    pub fn at(&self, pos: Vec2i) -> (r: Option<usize>)
        ensures
            match r {
                Some(i) => i < self.npcs.len() && self.npcs@[i as int].pos == pos,
                None => forall|i: int| 0 <= i < self.npcs.len() ==> (#[trigger] self.npcs@[i]).pos != pos,
            },
    {
        let n = self.npcs.len();
        let mut i: usize = 0;
        while i < n
            invariant
                i <= n,
                n == self.npcs.len(),
                forall|j: int| 0 <= j < i ==> (#[trigger] self.npcs@[j]).pos != pos,
            decreases n - i,
        {
            if self.npcs[i].pos.x == pos.x && self.npcs[i].pos.y == pos.y {
                return Some(i);
            }
            i = i + 1;
        }
        None
    }

    /// Build a set from a decoded sheet and a list of NPCs standing on
    /// distinct cells. Distinctness is required up front: a table keyed by
    /// cell could silently keep only the last of two characters sharing a
    /// cell, which would be a content error; callers validate and fail fast
    /// instead.
    pub fn new(image: Image, npcs: Vec<NPC>, npc_sz: Vec2i, fin_text: String) -> (r: NPCSet)
        requires
            image.wf(),
            0 < npc_sz.x <= 100000,
            0 < npc_sz.y <= 100000,
            4 * npc_sz.x <= image.sz.x,
            forall|i: int|
                0 <= i < npcs.len() ==> 0 <= (#[trigger] npcs@[i]).id && (npcs@[i].id + 1) * npc_sz.y
                    <= image.sz.y && -100000 <= npcs@[i].pos.x <= 100000 && -100000
                    <= npcs@[i].pos.y <= 100000 && npcs@[i].text@.len() <= 100000,
            fin_text@.len() <= 100000,
            forall|i: int, j: int|
                0 <= i < j < npcs.len() ==> (#[trigger] npcs@[i]).pos != (#[trigger] npcs@[j]).pos,
        ensures
            r.wf(),
            r.image == image,
            r.npcs == npcs,
            r.npc_sz == npc_sz,
            r.fin == false,
            r.fin_text == fin_text,
    {
        NPCSet { image, npcs, npc_sz, fin: false, fin_text }
    }

    /// Blit every NPC's current frame at its grid cell, shifted by the
    /// actor's sub-tile scroll offset so the world moves under the
    /// screen-centered actor.
    #[verifier::loop_isolation(false)]
    pub fn draw(&self, fb2d: &mut Image, ppos: Vec2i, movec: u8, dir: Dir)
        requires
            self.wf(),
            old(fb2d).wf(),
            -100000 <= ppos.x <= 100000,
            -100000 <= ppos.y <= 100000,
        ensures
            final(fb2d).wf(),
            final(fb2d).sz == old(fb2d).sz,
            final(fb2d).buffer@ == spec_draw_npcs(
                *self,
                old(fb2d).buffer@,
                old(fb2d).sz.x as int,
                old(fb2d).sz.y as int,
                ppos,
                movec,
                dir,
                self.npcs.len() as int,
            ),
    {
        let ghost sw = fb2d.sz.x as int;
        let ghost sh = fb2d.sz.y as int;
        let half: i32 = (movec as i32) / 2;
        let sub_pos = match dir {
            Dir::Down => Vec2i { x: 0, y: half },
            Dir::Up => Vec2i { x: 0, y: -half },
            Dir::Left => Vec2i { x: -half, y: 0 },
            Dir::Right => Vec2i { x: half, y: 0 },
        };
        let adj: i32 = if self.npc_sz.y > 16 {
            2
        } else {
            0
        };
        proof {
            assert(sub_pos == spec_sub_pos(movec, dir));
        }
        let n = self.npcs.len();
        let mut i: usize = 0;
        while i < n
            invariant
                fb2d.wf(),
                fb2d.sz == old(fb2d).sz,
                i <= n,
                fb2d.buffer@ == spec_draw_npcs(
                    *self,
                    old(fb2d).buffer@,
                    sw,
                    sh,
                    ppos,
                    movec,
                    dir,
                    i as int,
                ),
            decreases n - i,
        {
            let npc = &self.npcs[i];
            let dix = match npc.cur_dir {
                Dir::Down => 0i32,
                Dir::Up => 1i32,
                Dir::Left => 2i32,
                Dir::Right => 3i32,
            };
            proof {
                assert(self.npc_sz.x * dix + self.npc_sz.x <= 4 * self.npc_sz.x) by (nonlinear_arith)
                    requires
                        0 < self.npc_sz.x,
                        0 <= dix <= 3,
                ;
                assert(0 <= self.npc_sz.x * dix) by (nonlinear_arith)
                    requires
                        0 < self.npc_sz.x,
                        0 <= dix,
                ;
                assert(self.npc_sz.y * npc.id + self.npc_sz.y == (npc.id + 1) * self.npc_sz.y
                    && 0 <= self.npc_sz.y * npc.id) by (nonlinear_arith)
                    requires
                        0 < self.npc_sz.y,
                        0 <= npc.id,
                ;
            }
            let from = Rect {
                pos: Vec2i { x: self.npc_sz.x * dix, y: self.npc_sz.y * npc.id },
                sz: self.npc_sz,
            };
            let to = Vec2i {
                x: sub_pos.x + 16 * (5 + npc.pos.x - ppos.x),
                y: sub_pos.y + 16 * (5 + npc.pos.y - ppos.y) + adj,
            };
            fb2d.bitblt(&self.image, from, to);
            proof {
                assert(fb2d.buffer@ == spec_draw_npcs(
                    *self,
                    old(fb2d).buffer@,
                    sw,
                    sh,
                    ppos,
                    movec,
                    dir,
                    i + 1,
                ));
            }
            i = i + 1;
        }
    }
}

} // verus!
