//! The per-tick state machine: input-edge detection, direction latching,
//! collision-gated stepping, NPC interaction, level-transition reveal
//! sequencing, and the render pass.

use vstd::prelude::*;

use crate::animations::{AnimationSet, AnimationState};
use crate::geom::{lemma_grid_index, Dir, Rect, Vec2i, HEIGHT, TSPEED, WIDTH};
use crate::npc::{spec_draw_npcs, NPC, NPCSet};
use crate::sprite::{Action, Sprite};
use crate::surface::{spec_blit, Image};
use crate::text::{rect_in_image, spec_draw_box, spec_screen_cols, spec_wipe, Textbox, Textscreen, WIPENUM};
use crate::tiles::{cell_moveable, spec_draw_tiles, spec_masked_draw_tiles, Tilemap};

verus! {

/// Index of the down button in the input snapshots.
pub const DOWN: usize = 0;
/// Index of the up button in the input snapshots.
pub const UP: usize = 1;
/// Index of the left button in the input snapshots.
pub const LEFT: usize = 2;
/// Index of the right button in the input snapshots.
pub const RIGHT: usize = 3;
/// Index of the interact button in the input snapshots.
pub const SPACE: usize = 4;

/// Unmask count at which a level transition commits.
pub const SWAPNUM: usize = 300;

/// The latch after release handling: a latched direction whose button was
/// held last tick and is released this tick is cleared.
pub open spec fn spec_clear_latch(
    next_dir: Option<Dir>,
    now: Seq<bool>,
    prev: Seq<bool>,
) -> Option<Dir> {
    match next_dir {
        Some(d) => if !now[d.spec_button()] && prev[d.spec_button()] {
            None
        } else {
            Some(d)
        },
        None => None,
    }
}

/// First held direction in the fixed priority order Down, Up, Left, Right.
pub open spec fn spec_pick_dir(now: Seq<bool>) -> Option<Dir> {
    if now[0] {
        Some(Dir::Down)
    } else if now[1] {
        Some(Dir::Up)
    } else if now[2] {
        Some(Dir::Left)
    } else if now[3] {
        Some(Dir::Right)
    } else {
        None
    }
}

/// The whole per-tick latch update: clear a released latch, then, only when
/// nothing is latched and no dialogue is open, latch the first held
/// direction in priority order. The latch then holds until its button is
/// released, whatever else is pressed.
pub open spec fn spec_latch(
    next_dir: Option<Dir>,
    is_text: bool,
    now: Seq<bool>,
    prev: Seq<bool>,
) -> Option<Dir> {
    let cleared = spec_clear_latch(next_dir, now, prev);
    if cleared is None && !is_text {
        spec_pick_dir(now)
    } else {
        cleared
    }
}

/// Compute the per-tick latch update.
pub fn update_latch(next_dir: Option<Dir>, is_text: bool, now_keys: &[bool], prev_keys: &[bool]) -> (r:
    Option<Dir>)
    requires
        now_keys@.len() == 5,
        prev_keys@.len() == 5,
    ensures
        r == spec_latch(next_dir, is_text, now_keys@, prev_keys@),
{
    let mut nd = next_dir;
    if let Some(d) = nd {
        let b = d.button();
        if !now_keys[b] && prev_keys[b] {
            nd = None;
        }
    }
    if nd.is_none() && !is_text {
        if now_keys[DOWN] {
            nd = Some(Dir::Down);
        } else if now_keys[UP] {
            nd = Some(Dir::Up);
        } else if now_keys[LEFT] {
            nd = Some(Dir::Left);
        } else if now_keys[RIGHT] {
            nd = Some(Dir::Right);
        }
    }
    nd
}

/// Law (direction latch): with nothing latched and no dialogue open,
/// simultaneous presses resolve to the higher-priority direction, in the
/// order Down, Up, Left, Right.
pub proof fn lemma_latch_priority(now: Seq<bool>, prev: Seq<bool>)
    requires
        now.len() == 5,
        prev.len() == 5,
    ensures
        now[0] ==> spec_latch(None, false, now, prev) == Some(Dir::Down),
        !now[0] && now[1] ==> spec_latch(None, false, now, prev) == Some(Dir::Up),
        !now[0] && !now[1] && now[2] ==> spec_latch(None, false, now, prev) == Some(Dir::Left),
        !now[0] && !now[1] && !now[2] && now[3] ==> spec_latch(None, false, now, prev) == Some(
            Dir::Right,
        ),
        !now[0] && !now[1] && !now[2] && !now[3] ==> spec_latch(None, false, now, prev) is None,
{
}

/// Law (direction latch, release): releasing the latched direction while
/// other directions stay held re-evaluates the latch, which resolves to the
/// first held direction in priority order as if nothing had been latched.
pub proof fn lemma_latch_release(d: Dir, now: Seq<bool>, prev: Seq<bool>)
    requires
        now.len() == 5,
        prev.len() == 5,
        prev[d.spec_button()],
        !now[d.spec_button()],
    ensures
        spec_latch(Some(d), false, now, prev) == spec_latch(None, false, now, prev),
{
}

/// The grid cell targeted this tick: the latched direction's neighbor if a
/// direction is latched, else the current facing's neighbor.
pub open spec fn spec_target(pos: Vec2i, next_dir: Option<Dir>, cur_dir: Dir) -> Vec2i {
    match next_dir {
        Some(d) => pos.spec_walked(d),
        None => pos.spec_walked(cur_dir),
    }
}

/// Compute the targeted grid cell.
pub fn target_cell(pos: Vec2i, next_dir: Option<Dir>, cur_dir: Dir) -> (r: Vec2i)
    requires
        -1000000 <= pos.x <= 1000000,
        -1000000 <= pos.y <= 1000000,
    ensures
        r == spec_target(pos, next_dir, cur_dir),
{
    let d = match next_dir {
        Some(d) => d,
        None => cur_dir,
    };
    let mut p = pos;
    p.walk(d);
    p
}

/// One sub-tile interpolation tick of the movement model: while the counter
/// is positive it steps down by one, and on odd post-decrement values the
/// world origin shifts one pixel opposite the walking direction.
pub open spec fn spec_move_tick(movec: int, off: Vec2i, dir: Dir) -> (int, Vec2i) {
    if movec > 0 {
        let m = movec - 1;
        if m % 2 == 1 {
            (
                m,
                Vec2i {
                    x: (off.x - dir.spec_delta().0) as i32,
                    y: (off.y - dir.spec_delta().1) as i32,
                },
            )
        } else {
            (m, off)
        }
    } else {
        (movec, off)
    }
}

/// The movement model iterated over `n` ticks.
pub open spec fn spec_run_ticks(movec: int, off: Vec2i, dir: Dir, n: nat) -> (int, Vec2i)
    decreases n,
{
    if n == 0 {
        (movec, off)
    } else {
        let t = spec_move_tick(movec, off, dir);
        spec_run_ticks(t.0, t.1, dir, (n - 1) as nat)
    }
}

/// Running the model for exactly as many ticks as the counter holds drains
/// the counter to zero and scrolls the origin one pixel opposite the walk
/// direction for every odd post-decrement value: `movec / 2` pixels in all.
pub proof fn lemma_run_ticks_drain(movec: int, off: Vec2i, dir: Dir)
    requires
        0 <= movec <= 32,
        -1000000 - (32 - movec) <= off.x <= 1000000 + (32 - movec),
        -1000000 - (32 - movec) <= off.y <= 1000000 + (32 - movec),
    ensures
        spec_run_ticks(movec, off, dir, movec as nat).0 == 0,
        spec_run_ticks(movec, off, dir, movec as nat).1.x == off.x - (movec / 2)
            * dir.spec_delta().0,
        spec_run_ticks(movec, off, dir, movec as nat).1.y == off.y - (movec / 2)
            * dir.spec_delta().1,
    decreases movec,
{
    if movec > 0 {
        let t = spec_move_tick(movec, off, dir);
        lemma_run_ticks_drain(movec - 1, t.1, dir);
    }
}

/// Law (movement cycle): starting a step with the counter at 32, after
/// exactly 32 ticks the counter is back to 0 and the world origin has moved
/// exactly 16 pixels opposite the walking direction, one pixel on each of
/// the 16 ticks with odd post-decrement counter values.
pub proof fn lemma_movement_cycle(off: Vec2i, dir: Dir)
    requires
        -1000000 <= off.x <= 1000000,
        -1000000 <= off.y <= 1000000,
    ensures
        spec_run_ticks(32, off, dir, 32).0 == 0,
        spec_run_ticks(32, off, dir, 32).1.x == off.x - 16 * dir.spec_delta().0,
        spec_run_ticks(32, off, dir, 32).1.y == off.y - 16 * dir.spec_delta().1,
{
    lemma_run_ticks_drain(32, off, dir);
}




/// The standing pose for a facing.
pub open spec fn spec_stand_action(d: Dir) -> Action {
    match d {
        Dir::Down => Action::StandD,
        Dir::Up => Action::StandU,
        Dir::Left => Action::StandL,
        Dir::Right => Action::StandR,
    }
}

/// The walking cycle for a facing.
pub open spec fn spec_walk_action(d: Dir) -> Action {
    match d {
        Dir::Down => Action::WalkD,
        Dir::Up => Action::WalkU,
        Dir::Left => Action::WalkL,
        Dir::Right => Action::WalkR,
    }
}

/// A playback state freshly started at time zero from `set`'s catalog entry
/// for `act`.
pub open spec fn spec_fresh_anim(st: AnimationState, set: AnimationSet, act: Action) -> bool {
    &&& st.action == act
    &&& st.now == 0
    &&& st.start_time == 0
    &&& st.animation.frames@ == set.animations@[act.spec_index()].frames@
    &&& st.animation.frame_timings@ == set.animations@[act.spec_index()].frame_timings@
    &&& st.animation.loops == set.animations@[act.spec_index()].loops
}

/// The left offset of row `dy` of the six-row iris stencil.
pub open spec fn iris_x0(dy: int) -> int {
    if dy == 0 || dy == 5 {
        0
    } else if dy == 1 || dy == 4 {
        -1
    } else {
        -2
    }
}

/// The width of row `dy` of the six-row iris stencil: 2, 4, 6, 6, 4, 2.
pub open spec fn iris_w(dy: int) -> int {
    if dy == 0 || dy == 5 {
        2
    } else if dy == 1 || dy == 4 {
        4
    } else {
        6
    }
}

/// Whether fine cell `(cx, cy)` lies in the iris stencil centered at the
/// actor's fine position `(tix, tiy)`: six rows starting two cells above,
/// of widths 2, 4, 6, 6, 4, 2.
pub open spec fn in_iris(cx: int, cy: int, tix: int, tiy: int) -> bool {
    let dy = cy - (tiy - 2);
    0 <= dy < 6 && iris_x0(dy) <= cx - tix < iris_x0(dy) + iris_w(dy)
}

/// The stencil cells already visited after `yrow` full rows and `k` cells
/// of row `yrow` of the iris traversal.
pub open spec fn iris_done(cx: int, cy: int, tix: int, tiy: int, yrow: int, k: int) -> bool {
    in_iris(cx, cy, tix, tiy) && ({
        let dy = cy - (tiy - 2);
        dy < yrow || (dy == yrow && cx - tix - iris_x0(dy) < k)
    })
}

/// A frame rectangle that can be blitted from `img` and is small enough for
/// screen-placement arithmetic.
pub open spec fn frame_ok(f: Rect, img: Image) -> bool {
    rect_in_image(f, img) && f.sz.x <= 10000 && f.sz.y <= 10000
}

/// Whether the actor may step onto coarse cell `target` of map `m`: the cell
/// is on the grid, and either it is passable and free of NPCs, or — during
/// or right after a level swap — it lies in the fixed swap corridor and the
/// actor is either mid-swap or stranded on a cell the map marks impassable.
pub open spec fn spec_step_allowed(
    m: Tilemap,
    npcs: NPCSet,
    is_text: bool,
    swapping: bool,
    pos: Vec2i,
    target: Vec2i,
) -> bool {
    &&& !is_text
    &&& 0 <= target.x < m.cw()
    &&& 0 <= target.y < m.ch()
    &&& ((cell_moveable(
        m.ids(),
        m.dims.0 as int,
        m.moveables@,
        m.sf as int,
        target.x as int,
        target.y as int,
    ) && (forall|i: int| 0 <= i < npcs.npcs.len() ==> (#[trigger] npcs.npcs@[i]).pos != target)) || (
    Tilemap::spec_swap_can_move_to(target) && (swapping || !cell_moveable(
        m.ids(),
        m.dims.0 as int,
        m.moveables@,
        m.sf as int,
        pos.x as int,
        pos.y as int,
    ))))
}

/// The whole simulation state, threaded by value through update and render
/// each tick. Assets for all three levels are loaded up front; `level`
/// selects the active ones.
pub struct State {
    /// The three level maps; the world scrolls by translating them all.
    pub maps: Vec<Tilemap>,
    pub level: usize,
    /// How many distinct characters the actor has spoken to this level.
    pub talkc: u8,
    /// Whether a level-transition reveal is in progress.
    pub swapping: bool,
    /// One animation catalog per level.
    pub anim_sets: Vec<AnimationSet>,
    pub sprite: Sprite,
    /// The actor's logical sprite size per level.
    pub sprite_szs: Vec<Vec2i>,
    /// One NPC set per level.
    pub npc_sets: Vec<NPCSet>,
    /// Sub-tile interpolation counter: 32 ticks per coarse step.
    pub movec: u8,
    pub cur_dir: Dir,
    /// The latched movement direction, sticky until its button is released.
    pub next_dir: Option<Dir>,
    /// Whether the dialogue textbox is open.
    pub is_text: bool,
    pub textbox: Textbox,
    pub textscreen: Textscreen,
    /// Whether the opening text screen is still showing.
    pub opening: bool,
    /// Whether the closing text screen is showing.
    pub end: bool,
    /// Direction of the wipe animation counter, +1 or -1.
    pub wipe_dir: i32,
    /// Credits page index, or -1 while the game is running.
    pub cit: i32,
    /// Text for the closing screen.
    pub end_text: String,
}

impl State {
    pub open spec fn wf(self) -> bool {
        &&& self.maps.len() == 3
    
        &&& self.level < 3
        &&& (forall|i: int| 0 <= i < 3 ==> (#[trigger] self.maps@[i]).wf())
        &&& (forall|i: int|
            0 <= i < 3 ==> (#[trigger] self.maps@[i]).dims.0 <= 10000 && self.maps@[i].dims.1
                <= 10000)
        &&& (forall|i: int|
            0 <= i < 3 ==> -1000000 <= (#[trigger] self.maps@[i]).position.x + 16
                * self.sprite.pos.x - ((self.movec as int) / 2) * self.cur_dir.spec_delta().0
                <= 1000000 && -1000000 <= self.maps@[i].position.y + 16 * self.sprite.pos.y - ((
            self.movec as int) / 2) * self.cur_dir.spec_delta().1 <= 1000000)
        &&& (forall|i: int|
            0 <= i < 3 ==> -2000000 <= (#[trigger] self.maps@[i]).position.x <= 2000000
                && -2000000 <= self.maps@[i].position.y <= 2000000)
        &&& (forall|i: int|
            0 <= i < 3 ==> (#[trigger] self.maps@[i]).cw() == self.maps@[0].cw()
                && self.maps@[i].ch() == self.maps@[0].ch())
        &&& self.anim_sets.len() == 3
        &&& (forall|i: int| 0 <= i < 3 ==> (#[trigger] self.anim_sets@[i]).wf())
        &&& (forall|i: int| 0 <= i < 3 ==> (#[trigger] self.anim_sets@[i]).image.wf())
        &&& (forall|i: int, j: int, k: int|
            0 <= i < 3 && 0 <= j < 8 && 0 <= k < self.anim_sets@[i].animations@[j].frames.len()
                ==> frame_ok(
                #[trigger] self.anim_sets@[i].animations@[j].frames@[k],
                self.anim_sets@[i].image,
            ))
        &&& self.sprite_szs.len() == 3
        &&& (forall|i: int|
            0 <= i < 3 ==> 0 < (#[trigger] self.sprite_szs@[i]).x <= 1000 && 0
                < self.sprite_szs@[i].y <= 1000)
        &&& self.npc_sets.len() == 3
        &&& (forall|i: int| 0 <= i < 3 ==> (#[trigger] self.npc_sets@[i]).wf())
        &&& self.sprite.wf()
        &&& 0 < self.sprite.sz.x <= 1000
        &&& 0 < self.sprite.sz.y <= 1000
        &&& 0 <= self.sprite.pos.x < self.maps@[0].cw()
        &&& 0 <= self.sprite.pos.y < self.maps@[0].ch()
        &&& (forall|k: int|
            0 <= k < self.sprite.animation_state.animation.frames.len() ==> frame_ok(
                #[trigger] self.sprite.animation_state.animation.frames@[k],
                self.anim_sets@[self.level as int].image,
            ))
        &&& self.movec <= 32
        &&& self.textbox.wf()
        &&& self.textscreen.wf()
        &&& (self.is_text && self.cit < 0 && !self.opening && !self.end
            ==> self.textbox.can_draw())
        &&& self.textbox.rows.len() <= 300000
        &&& 1 <= self.textbox.rptr <= self.textbox.rows.len() + 2
        &&& ((self.opening || self.end) && self.cit < 0 ==> self.textscreen.can_draw())
        &&& !(self.opening && self.end)
        &&& (self.opening ==> !self.is_text)
        &&& self.textscreen.rows.len() <= 300000
        &&& 1 <= self.textscreen.rptr <= self.textscreen.rows.len() + 2
        &&& 0 <= self.textscreen.animc <= WIPENUM
        &&& (self.wipe_dir == 1 || self.wipe_dir == -1)
        &&& -1 <= self.cit <= 5
        &&& (self.swapping ==> self.level < 2)
        &&& self.end_text@.len() <= 100000
    }

    /// Replace the actor's animation with a fresh playback of `act` from the
    /// active level's catalog.
    pub fn anim(&mut self, act: Action)
        requires
            old(self).wf(),
        ensures
            final(self).wf(),
            *final(self) == (State {
                sprite: Sprite {
                    animation_state: final(self).sprite.animation_state,
                    ..old(self).sprite
                },
                ..*old(self)
            }),
            final(self).sprite.animation_state.action == act,
            final(self).sprite.animation_state.now == 0,
            spec_fresh_anim(
                final(self).sprite.animation_state,
                old(self).anim_sets@[old(self).level as int],
                act,
            ),
    {
        self.sprite.animation_state = (&self.anim_sets[self.level]).play_animation(act);
        proof {
            assert(self.anim_sets@[self.level as int].wf());
        }
    }

    /// Play the standing animation for the current facing.
    pub fn stand_anim(&mut self)
        requires
            old(self).wf(),
        ensures
            final(self).wf(),
            *final(self) == (State {
                sprite: Sprite {
                    animation_state: final(self).sprite.animation_state,
                    ..old(self).sprite
                },
                ..*old(self)
            }),
            spec_fresh_anim(
                final(self).sprite.animation_state,
                old(self).anim_sets@[old(self).level as int],
                spec_stand_action(old(self).cur_dir),
            ),
    {
        let act = match self.cur_dir {
            Dir::Down => Action::StandD,
            Dir::Up => Action::StandU,
            Dir::Left => Action::StandL,
            Dir::Right => Action::StandR,
        };
        self.anim(act);
    }

    /// Play the walking animation for the current facing.
    pub fn walk_anim(&mut self)
        requires
            old(self).wf(),
        ensures
            final(self).wf(),
            *final(self) == (State {
                sprite: Sprite {
                    animation_state: final(self).sprite.animation_state,
                    ..old(self).sprite
                },
                ..*old(self)
            }),
            spec_fresh_anim(
                final(self).sprite.animation_state,
                old(self).anim_sets@[old(self).level as int],
                spec_walk_action(old(self).cur_dir),
            ),
    {
        let act = match self.cur_dir {
            Dir::Down => Action::WalkD,
            Dir::Up => Action::WalkU,
            Dir::Left => Action::WalkL,
            Dir::Right => Action::WalkR,
        };
        self.anim(act);
    }

    /// Scroll the world one pixel opposite the current facing by translating
    /// all three maps.
    #[verifier::loop_isolation(false)]
    pub fn translate(&mut self)
        requires
            old(self).maps.len() == 3,
            forall|i: int|
                0 <= i < 3 ==> -2000000 <= (#[trigger] old(self).maps@[i]).position.x <= 2000000
                    && -2000000 <= old(self).maps@[i].position.y <= 2000000,
            forall|i: int| 0 <= i < 3 ==> (#[trigger] old(self).maps@[i]).wf(),
        ensures
            final(self).maps.len() == 3,
            forall|i: int| 0 <= i < 3 ==> (#[trigger] final(self).maps@[i]).wf(),
            forall|i: int|
                0 <= i < 3 ==> (#[trigger] final(self).maps@[i]).position == old(self).maps@[i].position.spec_walked(old(self).cur_dir.spec_opposite()),
            forall|i: int|
                0 <= i < 3 ==> (#[trigger] final(self).maps@[i]).mask == old(self).maps@[i].mask
                    && final(self).maps@[i].dims == old(self).maps@[i].dims && final(self).maps@[i].map == old(self).maps@[i].map && final(self).maps@[i].sf == old(self).maps@[i].sf && final(self).maps@[i].movemap == old(self).maps@[i].movemap && final(self).maps@[i].tileset == old(self).maps@[i].tileset && final(self).maps@[i].moveables
                    == old(self).maps@[i].moveables && final(self).maps@[i].swapc == old(self).maps@[i].swapc,
            *final(self) == (State { maps: final(self).maps, ..*old(self) }),
    {
        let dir = self.cur_dir;
        let mut i: usize = 0;
        while i < 3
            invariant
                self.maps.len() == 3,
                i <= 3,
                forall|k: int|
                    i <= k < 3 ==> (#[trigger] self.maps@[k]) == old(self).maps@[k],
                forall|k: int|
                    0 <= k < i ==> (#[trigger] self.maps@[k]).position == old(self).maps@[k].position.spec_walked(dir.spec_opposite()) && self.maps@[k].mask
                        == old(self).maps@[k].mask && self.maps@[k].dims == old(self).maps@[k].dims
                        && self.maps@[k].map == old(self).maps@[k].map && self.maps@[k].sf == old(self).maps@[k].sf && self.maps@[k].movemap == old(self).maps@[k].movemap
                        && self.maps@[k].tileset == old(self).maps@[k].tileset
                        && self.maps@[k].moveables == old(self).maps@[k].moveables
                        && self.maps@[k].swapc == old(self).maps@[k].swapc && self.maps@[k].wf(),
                *self == (State { maps: self.maps, ..*old(self) }),
                dir == old(self).cur_dir,
            decreases 3 - i,
        {
            let ghost pre = self.maps@;
            let mut m = self.maps.remove(i);
            m.translate(dir);
            self.maps.insert(i, m);
            proof {
                assert(self.maps@ =~= pre.update(i as int, m));
            }
            i = i + 1;
        }
    }

    /// Unmask the fixed six-row iris stencil (row widths 2, 4, 6, 6, 4, 2)
    /// around the actor's fine-grid position on the active map; stencil
    /// cells falling outside the grid are skipped.
    #[verifier::loop_isolation(false)]
    pub fn circle_mask(&mut self)
        requires
            old(self).maps.len() == 3,
            old(self).level < 3,
            forall|i: int| 0 <= i < 3 ==> (#[trigger] old(self).maps@[i]).wf(),
            0 <= old(self).sprite.pos.x <= 10000,
            0 <= old(self).sprite.pos.y <= 10000,
        ensures
            final(self).maps.len() == 3,
            forall|i: int| 0 <= i < 3 ==> (#[trigger] final(self).maps@[i]).wf(),
            forall|i: int|
                0 <= i < 3 && i != old(self).level ==> (#[trigger] final(self).maps@[i]) == old(self).maps@[i],
            final(self).maps@[old(self).level as int].position == old(self).maps@[old(self).level as int].position,
            final(self).maps@[old(self).level as int].dims == old(self).maps@[old(self).level as int].dims,
            final(self).maps@[old(self).level as int].map == old(self).maps@[old(self).level as int].map,
            final(self).maps@[old(self).level as int].sf == old(self).maps@[old(self).level as int].sf,
            final(self).maps@[old(self).level as int].movemap == old(self).maps@[old(self).level as int].movemap,
            final(self).maps@[old(self).level as int].tileset == old(self).maps@[old(self).level as int].tileset,
            final(self).maps@[old(self).level as int].moveables == old(self).maps@[old(self).level as int].moveables,
            final(self).maps@[old(self).level as int].swapc == old(self).maps@[old(self).level as int].swapc,
            final(self).maps@[old(self).level as int].mask.swapc >= old(self).maps@[old(self).level as int].mask.swapc,
            final(self).maps@[old(self).level as int].mask.dims == old(self).maps@[old(self).level as int].mask.dims,
            final(self).maps@[old(self).level as int].mask.mask.len() == old(self).maps@[old(self).level as int].mask.mask.len(),
            forall|cx: int, cy: int|
                0 <= cx < old(self).maps@[old(self).level as int].dims.0 && 0 <= cy < old(self).maps@[old(self).level as int].dims.1 ==> #[trigger] final(self).maps@[old(self).level as int].mask.mask@[cy * old(self).maps@[old(self).level as int].dims.0 + cx]
                    == (old(self).maps@[old(self).level as int].mask.mask@[cy * old(self).maps@[old(self).level as int].dims.0 + cx] && !in_iris(
                    cx,
                    cy,
                    2 * old(self).sprite.pos.x,
                    2 * old(self).sprite.pos.y,
                )),
            *final(self) == (State { maps: final(self).maps, ..*old(self) }),
    {
        let lv = self.level;
        let tix: i64 = 2 * (self.sprite.pos.x as i64);
        let tiy: i64 = 2 * (self.sprite.pos.y as i64);
        let ghost pre = self.maps@;
        let ghost txg = 2 * old(self).sprite.pos.x as int;
        let ghost tyg = 2 * old(self).sprite.pos.y as int;
        let mut m = self.maps.remove(lv);
        let ghost m0 = m;
        let ghost d0 = m0.dims.0 as int;
        let ghost d1 = m0.dims.1 as int;
        let mut y: i64 = 0;
        while y < 6
            invariant
                0 <= y <= 6,
                m.wf(),
                m.position == m0.position,
                m.dims == m0.dims,
                m.map == m0.map,
                m.sf == m0.sf,
                m.movemap == m0.movemap,
                m.tileset == m0.tileset,
                m.moveables == m0.moveables,
                m.swapc == m0.swapc,
                m.mask.swapc >= m0.mask.swapc,
                m.mask.dims == m0.mask.dims,
                m.mask.mask.len() == m0.mask.mask.len(),
                forall|cx: int, cy: int|
                    0 <= cx < d0 && 0 <= cy < d1 ==> #[trigger] m.mask.mask@[cy * d0 + cx] == (
                    m0.mask.mask@[cy * d0 + cx] && !iris_done(cx, cy, txg, tyg, y as int, 0)),
            decreases 6 - y,
        {
            let x0: i64 = if y == 0 || y == 5 {
                0
            } else if y == 1 || y == 4 {
                -1
            } else {
                -2
            };
            let width: i64 = if y == 0 || y == 5 {
                2
            } else if y == 1 || y == 4 {
                4
            } else {
                6
            };
            let mut k: i64 = 0;
            proof {
                assert(x0 == iris_x0(y as int) && width == iris_w(y as int));
            }
            while k < width
                invariant
                    0 <= k <= width,
                    width <= 6,
                    -2 <= x0 <= 0,
                    0 <= y < 6,
                    x0 == iris_x0(y as int),
                    width == iris_w(y as int),
                    m.wf(),
                    m.position == m0.position,
                    m.dims == m0.dims,
                    m.map == m0.map,
                    m.sf == m0.sf,
                    m.movemap == m0.movemap,
                    m.tileset == m0.tileset,
                    m.moveables == m0.moveables,
                    m.swapc == m0.swapc,
                    m.mask.swapc >= m0.mask.swapc,
                    m.mask.dims == m0.mask.dims,
                    m.mask.mask.len() == m0.mask.mask.len(),
                    forall|cx: int, cy: int|
                        0 <= cx < d0 && 0 <= cy < d1 ==> #[trigger] m.mask.mask@[cy * d0 + cx] == (
                        m0.mask.mask@[cy * d0 + cx] && !iris_done(
                            cx,
                            cy,
                            txg,
                            tyg,
                            y as int,
                            k as int,
                        )),
                decreases width - k,
            {
                let cx: i64 = tix + x0 + k;
                let cy: i64 = tiy - 2 + y;
                let ghost premask = m.mask;
                if 0 <= cx && cx < m.dims.0 as i64 && 0 <= cy && cy < m.dims.1 as i64 {
                    m.mask.unmask(cx as usize, cy as usize);
                    proof {
                        assert(m.ids() =~= m0.ids());
                        assert forall|px: int, py: int|
                            0 <= px < m.cw() && 0 <= py < m.ch() implies #[trigger] m.movemap@[py
                            * m.cw() + px] == cell_moveable(
                            m.ids(),
                            m.dims.0 as int,
                            m.moveables@,
                            m.sf as int,
                            px,
                            py,
                        ) by {
                            assert(m0.movemap@[py * m0.cw() + px] == cell_moveable(
                                m0.ids(),
                                m0.dims.0 as int,
                                m0.moveables@,
                                m0.sf as int,
                                px,
                                py,
                            ));
                        }
                    }
                }
                proof {
                    assert forall|px: int, py: int|
                        0 <= px < d0 && 0 <= py < d1 implies #[trigger] m.mask.mask@[py * d0 + px]
                        == (m0.mask.mask@[py * d0 + px] && !iris_done(
                        px,
                        py,
                        txg,
                        tyg,
                        y as int,
                        k as int + 1,
                    )) by {
                        lemma_grid_index(d0, d1, px, py);
                        if 0 <= cx && (cx as int) < d0 && 0 <= cy && (cy as int) < d1 {
                            lemma_grid_index(d0, d1, cx as int, cy as int);
                        }
                        assert(premask.mask@[py * d0 + px] == (m0.mask.mask@[py * d0 + px]
                            && !iris_done(px, py, txg, tyg, y as int, k as int)));
                    }
                }
                k = k + 1;
            }
            y = y + 1;
        }
        self.maps.insert(lv, m);
        proof {
            assert(self.maps@ =~= pre.update(lv as int, m));
        }
    }

    /// Commit a level transition: advance the level, clear the swap state
    /// and talk counter, adopt the new level's sprite size and standing
    /// animation, and switch the textbox frame.
    pub fn next_level(&mut self)
        requires
            old(self).wf(),
            old(self).level + 1 < 3,
        ensures
            final(self).wf(),
            final(self).level == old(self).level + 1,
            final(self).swapping == false,
            final(self).talkc == 0,
            final(self).maps == old(self).maps,
            final(self).movec == old(self).movec,
            final(self).cur_dir == old(self).cur_dir,
            final(self).next_dir == old(self).next_dir,
            final(self).is_text == old(self).is_text,
            final(self).sprite.pos == old(self).sprite.pos,
            final(self).cit == old(self).cit,
            final(self).opening == old(self).opening,
            final(self).end == old(self).end,
            final(self).textscreen == old(self).textscreen,
            final(self).npc_sets == old(self).npc_sets,
            final(self).anim_sets == old(self).anim_sets,
            final(self).sprite_szs == old(self).sprite_szs,
            final(self).end_text == old(self).end_text,
            final(self).wipe_dir == old(self).wipe_dir,
            spec_fresh_anim(
                final(self).sprite.animation_state,
                old(self).anim_sets@[old(self).level + 1],
                spec_stand_action(old(self).cur_dir),
            ),
    {
        self.level = self.level + 1;
        self.swapping = false;
        self.talkc = 0;
        self.sprite.sz = self.sprite_szs[self.level];
        let act = match self.cur_dir {
            Dir::Down => Action::StandD,
            Dir::Up => Action::StandU,
            Dir::Left => Action::StandL,
            Dir::Right => Action::StandR,
        };
        self.sprite.animation_state = (&self.anim_sets[self.level]).play_animation(act);
        self.textbox.set_base(self.level);
    }

    /// Evaluate the step gate for a targeted coarse cell.
    pub fn step_allowed(&self, target: Vec2i) -> (r: bool)
        requires
            self.wf(),
        ensures
            r == spec_step_allowed(
                self.maps@[self.level as int],
                self.npc_sets@[self.level as int],
                self.is_text,
                self.swapping,
                self.sprite.pos,
                target,
            ),
    {
        if self.is_text {
            return false;
        }
        let m = &self.maps[self.level];
        let cw = m.dims.0 / (m.sf as usize);
        let ch = m.dims.1 / (m.sf as usize);
        if target.x < 0 || target.y < 0 {
            return false;
        }
        if (target.x as usize) >= cw || (target.y as usize) >= ch {
            return false;
        }
        let free = match (&self.npc_sets[self.level]).at(target) {
            Option::None => true,
            Option::Some(_) => false,
        };
        if m.can_move_to(target) && free {
            return true;
        }
        Tilemap::swap_can_move_to(target) && (self.swapping || !m.can_move_to(self.sprite.pos))
    }

    /// Movement resolution while the actor stands on a cell: with nothing
    /// latched, play the standing pose; otherwise adopt the latched facing
    /// (also when only turning in place), play the walking animation, and,
    /// when the step gate allows it, start the step by recording the new
    /// cell and arming the 32-tick counter.
    pub fn resolve_move(&mut self, next_pos: Vec2i)
        requires
            old(self).wf(),
            old(self).movec == 0,
            next_pos == spec_target(old(self).sprite.pos, old(self).next_dir, old(self).cur_dir),
        ensures
            final(self).wf(),
            ({
                let stepped = old(self).next_dir is Some && spec_step_allowed(
                    old(self).maps@[old(self).level as int],
                    old(self).npc_sets@[old(self).level as int],
                    old(self).is_text,
                    old(self).swapping,
                    old(self).sprite.pos,
                    next_pos,
                );
                &&& final(self).sprite.pos == (if stepped {
                    next_pos
                } else {
                    old(self).sprite.pos
                })
                &&& final(self).movec == (if stepped {
                    32u8
                } else {
                    0u8
                })
            }),
            old(self).next_dir is Some ==> final(self).cur_dir == old(self).next_dir->0,
            old(self).next_dir is None ==> final(self).cur_dir == old(self).cur_dir,
            old(self).next_dir is None ==> spec_fresh_anim(
                final(self).sprite.animation_state,
                old(self).anim_sets@[old(self).level as int],
                spec_stand_action(old(self).cur_dir),
            ),
            old(self).next_dir is Some && (old(self).next_dir->0 != old(self).cur_dir || old(self).sprite.animation_state.action.spec_is_standing()) ==> spec_fresh_anim(
                final(self).sprite.animation_state,
                old(self).anim_sets@[old(self).level as int],
                spec_walk_action(old(self).next_dir->0),
            ),
            old(self).next_dir is Some && old(self).next_dir->0 == old(self).cur_dir && !old(self).sprite.animation_state.action.spec_is_standing() ==> final(self).sprite.animation_state == old(self).sprite.animation_state,
            final(self).maps == old(self).maps,
            final(self).npc_sets == old(self).npc_sets,
            final(self).next_dir == old(self).next_dir,
            final(self).level == old(self).level,
            final(self).swapping == old(self).swapping,
            final(self).is_text == old(self).is_text,
            final(self).talkc == old(self).talkc,
            final(self).opening == old(self).opening,
            final(self).end == old(self).end,
            final(self).cit == old(self).cit,
            final(self).textbox == old(self).textbox,
            final(self).textscreen == old(self).textscreen,
            final(self).wipe_dir == old(self).wipe_dir,
            final(self).anim_sets == old(self).anim_sets,
            final(self).sprite_szs == old(self).sprite_szs,
            final(self).sprite.sz == old(self).sprite.sz,
            final(self).end_text == old(self).end_text,
    {
        match self.next_dir {
            Option::None => {
                self.stand_anim();
            },
            Option::Some(nd) => {
                if self.cur_dir != nd || self.sprite.animation_state.action.is_standing() {
                    self.cur_dir = nd;
                    self.walk_anim();
                }
                if self.step_allowed(next_pos) {
                    self.sprite.pos.walk(nd);
                    self.movec = 32;
                }
            },
        }
        proof {
            let d0 = old(self).cur_dir.spec_delta();
            let d1 = self.cur_dir.spec_delta();
            let m0: int = old(self).movec as int;
            let m1: int = self.movec as int;
            assert((m0 / 2) * d0.0 == 0 && (m0 / 2) * d0.1 == 0) by (nonlinear_arith)
                requires
                    m0 == 0,
            ;
            if self.movec == 0 {
                assert((m1 / 2) * d1.0 == 0 && (m1 / 2) * d1.1 == 0) by (nonlinear_arith)
                    requires
                        m1 == 0,
                ;
            }
        }
    }

    /// The interact-button edge: open dialogue with the NPC on the targeted
    /// cell, turning it to face the actor and counting first conversations,
    /// or advance open dialogue, arm the finish dialogue once enough
    /// characters have been spoken to, and on finishing it start the
    /// level-transition reveal (or, on the last level, the closing wipe).
    pub fn interact(&mut self, next_pos: Vec2i)
        requires
            old(self).wf(),
            !old(self).swapping,
            spec_main(*old(self)),
        ensures
            final(self).wf(),
            final(self).maps == old(self).maps,
            final(self).sprite.pos == old(self).sprite.pos,
            final(self).sprite.sz == old(self).sprite.sz,
            final(self).movec == old(self).movec,
            final(self).cur_dir == old(self).cur_dir,
            final(self).next_dir == old(self).next_dir,
            final(self).level == old(self).level,
            final(self).opening == old(self).opening,
            final(self).end == old(self).end,
            final(self).cit == old(self).cit,
            final(self).anim_sets == old(self).anim_sets,
            final(self).sprite_szs == old(self).sprite_szs,
            final(self).end_text == old(self).end_text,
            final(self).sprite.animation_state == old(self).sprite.animation_state,
            (forall|i: int|
                0 <= i < old(self).npc_sets@[old(self).level as int].npcs.len() ==> (
                #[trigger] old(self).npc_sets@[old(self).level as int].npcs@[i]).pos != next_pos)
                ==> *final(self) == *old(self),
            !old(self).is_text ==> final(self).swapping == false,
            !old(self).is_text ==> final(self).wipe_dir == old(self).wipe_dir,
            !old(self).is_text ==> (final(self).textbox.rows == old(self).textbox.rows || (final(
            self).is_text && final(self).textbox.can_draw() && final(self).textbox.rptr == 1)),
            !old(self).is_text ==> (forall|i: int|
                0 <= i < old(self).npc_sets@[old(self).level as int].npcs.len() && (
                #[trigger] old(self).npc_sets@[old(self).level as int].npcs@[i]).pos == next_pos
                    ==> final(self).npc_sets@[old(self).level as int].npcs@[i] == (NPC {
                    cur_dir: old(self).cur_dir.spec_opposite(),
                    talked: old(self).npc_sets@[old(self).level as int].npcs@[i].talked || old(self).npc_sets@[old(self).level as int].npcs@[i].id < 4,
                    ..old(self).npc_sets@[old(self).level as int].npcs@[i]
                })),
            !old(self).is_text ==> (forall|i: int|
                0 <= i < old(self).npc_sets@[old(self).level as int].npcs.len() && (
                #[trigger] old(self).npc_sets@[old(self).level as int].npcs@[i]).pos != next_pos
                    ==> final(self).npc_sets@[old(self).level as int].npcs@[i] == old(self).npc_sets@[old(self).level as int].npcs@[i]),
            final(self).swapping == ((exists|i: int|
                0 <= i < old(self).npc_sets@[old(self).level as int].npcs.len() && (
                #[trigger] old(self).npc_sets@[old(self).level as int].npcs@[i]).pos == next_pos)
                && old(self).is_text && old(self).textbox.rptr + 2 >= old(self).textbox.rows.len() && old(self).npc_sets@[old(self).level as int].fin && old(self).level != 2),
            (final(self).textscreen != old(self).textscreen || final(self).wipe_dir != old(self).wipe_dir) ==> final(self).textscreen == (Textscreen {
                animc: 1,
                ..old(self).textscreen
            }) && final(self).wipe_dir == 1,
            old(self).is_text && old(self).textbox.rptr + 2 < old(self).textbox.rows.len()
                ==> *final(self) == (State { textbox: final(self).textbox, ..*old(self) }) && final(self).is_text == old(self).is_text,
            old(self).talkc <= final(self).talkc <= old(self).talkc + 1,
            old(self).is_text ==> final(self).talkc == old(self).talkc,
            old(self).is_text && (exists|i: int|
                0 <= i < old(self).npc_sets@[old(self).level as int].npcs.len() && (
                #[trigger] old(self).npc_sets@[old(self).level as int].npcs@[i]).pos == next_pos)
                ==> ({
                let exhausted = old(self).textbox.rptr + 2 >= old(self).textbox.rows.len();
                let fin = old(self).npc_sets@[old(self).level as int].fin;
                &&& (!exhausted ==> final(self).is_text && final(self).textbox.rptr == old(self).textbox.rptr + 2 && final(self).textbox.cptr == 0 && final(self).textbox.rows
                    == old(self).textbox.rows)
                &&& (exhausted && fin ==> final(self).is_text == false)
                &&& (exhausted && !fin && old(self).talkc >= 4 ==> final(self).is_text && final(self).textbox.can_draw() && final(self).textbox.rptr == 1 && final(self).textbox.cptr
                    == 0 && final(self).npc_sets@[old(self).level as int].fin)
                &&& (exhausted && !fin && old(self).talkc < 4 ==> final(self).is_text == false)
                &&& final(self).npc_sets@[old(self).level as int].npcs == old(self).npc_sets@[old(self).level as int].npcs
            }),
            !old(self).is_text && (exists|i: int|
                0 <= i < old(self).npc_sets@[old(self).level as int].npcs.len() && (
                #[trigger] old(self).npc_sets@[old(self).level as int].npcs@[i]).pos == next_pos)
                ==> final(self).is_text && final(self).textbox.can_draw() && final(self).textbox.rptr == 1 && final(self).textbox.cptr == 0,
            old(self).is_text == false && final(self).is_text == false ==> final(self).textbox
                == old(self).textbox,
    {
        let found = (&self.npc_sets[self.level]).at(next_pos);
        if let Option::Some(idx) = found {
            if self.is_text {
                let more = self.textbox.scroll();
                if !more {
                    if (&self.npc_sets[self.level]).fin {
                        self.is_text = false;
                        if self.level == 2 {
                            self.textscreen.animc = 1;
                            self.wipe_dir = 1;
                        } else {
                            self.swapping = true;
                        }
                    } else if self.talkc >= 4 {
                        let lv = self.level;
                        let mut set = self.npc_sets.remove(lv);
                        self.textbox.set_text(set.fin_text.as_str());
                        set.fin = true;
                        self.npc_sets.insert(lv, set);
                        proof {
                            assert(self.npc_sets@ =~= old(self).npc_sets@.update(lv as int, set));
                        }
                    } else {
                        self.is_text = false;
                    }
                }
            } else {
                let lv = self.level;
                let mut set = self.npc_sets.remove(lv);
                let ghost set0 = set;
                let mut npc = set.npcs.remove(idx);
                npc.turn_to_face(self.cur_dir);
                self.textbox.set_text(npc.text.as_str());
                if npc.id < 4 && !npc.talked {
                    if self.talkc < 255 {
                        self.talkc = self.talkc + 1;
                    }
                    npc.talked = true;
                }
                set.npcs.insert(idx, npc);
                proof {
                    assert(set.npcs@ =~= set0.npcs@.update(idx as int, npc));
                    assert(set.wf()) by {
                        assert(forall|i: int|
                            0 <= i < set.npcs.len() ==> (#[trigger] set.npcs@[i]).pos
                                == set0.npcs@[i].pos && set.npcs@[i].id == set0.npcs@[i].id
                                && set.npcs@[i].text == set0.npcs@[i].text);
                    }
                }
                self.npc_sets.insert(lv, set);
                proof {
                    assert(self.npc_sets@ =~= old(self).npc_sets@.update(lv as int, set));
                }
                self.is_text = true;
            }
        }
    }

    /// While a step is in progress, advance the sub-tile interpolation: the
    /// counter steps down, and on odd post-decrement values the world
    /// scrolls one pixel opposite the facing and, during a level swap, the
    /// iris stencil unmasks around the actor.
    #[verifier::rlimit(100)]
    #[verifier::spinoff_prover]
    pub fn tick_move(&mut self)
        requires
            old(self).wf(),
        ensures
            final(self).wf(),
            final(self).movec as int == spec_move_tick(
                old(self).movec as int,
                old(self).maps@[0].position,
                old(self).cur_dir,
            ).0,
            forall|i: int|
                0 <= i < 3 ==> (#[trigger] final(self).maps@[i]).position == spec_move_tick(
                    old(self).movec as int,
                    old(self).maps@[i].position,
                    old(self).cur_dir,
                ).1,
            forall|i: int|
                0 <= i < 3 ==> (#[trigger] final(self).maps@[i]).mask.swapc >= old(self).maps@[i].mask.swapc,
            forall|i: int|
                0 <= i < 3 && i != old(self).level ==> (#[trigger] final(self).maps@[i]).mask
                    == old(self).maps@[i].mask,
            old(self).movec > 0 && (old(self).movec - 1) % 2 == 1 && old(self).swapping ==> (forall|
                cx: int,
                cy: int,
            |
                0 <= cx < old(self).maps@[old(self).level as int].dims.0 && 0 <= cy < old(self).maps@[old(self).level as int].dims.1 ==> #[trigger] final(self).maps@[old(self).level as int].mask.mask@[cy * old(self).maps@[old(self).level as int].dims.0 + cx]
                    == (old(self).maps@[old(self).level as int].mask.mask@[cy * old(self).maps@[old(self).level as int].dims.0 + cx] && !in_iris(
                    cx,
                    cy,
                    2 * old(self).sprite.pos.x,
                    2 * old(self).sprite.pos.y,
                ))),
            !(old(self).movec > 0 && (old(self).movec - 1) % 2 == 1 && old(self).swapping)
                ==> final(self).maps@[old(self).level as int].mask == old(self).maps@[old(self).level as int].mask,
            final(self).sprite == old(self).sprite,
            final(self).cur_dir == old(self).cur_dir,
            final(self).next_dir == old(self).next_dir,
            final(self).level == old(self).level,
            final(self).swapping == old(self).swapping,
            final(self).is_text == old(self).is_text,
            final(self).talkc == old(self).talkc,
            final(self).opening == old(self).opening,
            final(self).end == old(self).end,
            final(self).cit == old(self).cit,
            final(self).textbox == old(self).textbox,
            final(self).textscreen == old(self).textscreen,
            final(self).wipe_dir == old(self).wipe_dir,
            final(self).anim_sets == old(self).anim_sets,
            final(self).npc_sets == old(self).npc_sets,
            final(self).sprite_szs == old(self).sprite_szs,
            final(self).end_text == old(self).end_text,
    {
        if self.movec > 0 {
            self.movec = self.movec - 1;
            if self.movec % 2 == 1 {
                self.translate();
                if self.swapping {
                    self.circle_mask();
                }
            }
            proof {
                let m = old(self).movec as int;
                match self.cur_dir {
                    Dir::Down => assert(self.cur_dir.spec_delta() == (0int, 1int)),
                    Dir::Up => assert(self.cur_dir.spec_delta() == (0int, -1int)),
                    Dir::Left => assert(self.cur_dir.spec_delta() == (-1int, 0int)),
                    Dir::Right => assert(self.cur_dir.spec_delta() == (1int, 0int)),
                }
                assert(self.cur_dir.spec_delta().0 == -(
                self.cur_dir.spec_opposite().spec_delta().0));
                assert(self.cur_dir.spec_delta().1 == -(
                self.cur_dir.spec_opposite().spec_delta().1));
                if (m - 1) % 2 == 1 {
                    assert(m / 2 == (m - 1) / 2 + 1);
                } else {
                    assert(m / 2 == (m - 1) / 2);
                }
                assert forall|i: int|
                    0 <= i < 3 implies (#[trigger] self.maps@[i]).position.x + 16
                    * self.sprite.pos.x - ((self.movec as int) / 2) * self.cur_dir.spec_delta().0
                    == old(self).maps@[i].position.x + 16 * old(self).sprite.pos.x - ((old(self).movec as int) / 2) * old(self).cur_dir.spec_delta().0 && self.maps@[i].position.y
                    + 16 * self.sprite.pos.y - ((self.movec as int) / 2)
                    * self.cur_dir.spec_delta().1 == old(self).maps@[i].position.y + 16 * old(self).sprite.pos.y - ((old(self).movec as int) / 2) * old(self).cur_dir.spec_delta().1 by {
                    assert(-2000000 <= old(self).maps@[i].position.x <= 2000000);
                    assert(-2000000 <= old(self).maps@[i].position.y <= 2000000);
                    let m2 = (self.movec as int) / 2;
                    let d0 = self.cur_dir.spec_delta().0;
                    let d1 = self.cur_dir.spec_delta().1;
                    assert((m2 + 1) * d0 == m2 * d0 + d0) by (nonlinear_arith);
                    assert((m2 + 1) * d1 == m2 * d1 + d1) by (nonlinear_arith);
                }
            }
        }
    }
}


/// Implemented by a game built on this engine: the presentation layer calls
/// `new` once at startup, then `update` with the current and previous input
/// snapshots and `render` with the output pixel buffer, once each per frame
/// event.
pub trait Game {
    type State;

    type Assets;

    fn new() -> (Self::State, Self::Assets);

    fn update(
        state: &mut Self::State,
        assets: &mut Self::Assets,
        now_keys: &[bool],
        prev_keys: &[bool],
    );

    fn render(state: &mut Self::State, assets: &mut Self::Assets, fb: &mut Image);
}

/// The early-return phases are over and the tick reaches the movement and
/// interaction logic.
pub open spec fn spec_main(s: State) -> bool {
    s.cit < 0 && !s.opening && !s.end && !(0 < s.textscreen.animc < WIPENUM)
}

/// Whether this tick's interaction arms the level-transition reveal: the
/// actor stands still, the interact edge fires with no reveal in progress,
/// the finish dialogue is open on its last row pair before an NPC, and this
/// is not the final level.
pub open spec fn spec_swap_armed(s: State, now: Seq<bool>, prev: Seq<bool>) -> bool {
    &&& s.movec == 0
    &&& now[4] && !prev[4]
    &&& !s.swapping
    &&& (exists|i: int|
        0 <= i < s.npc_sets@[s.level as int].npcs.len() && (
        #[trigger] s.npc_sets@[s.level as int].npcs@[i]).pos == spec_target(
            s.sprite.pos,
            spec_latch(s.next_dir, s.is_text, now, prev),
            s.cur_dir,
        ))
    &&& s.is_text
    &&& s.textbox.rptr + 2 >= s.textbox.rows.len()
    &&& s.npc_sets@[s.level as int].fin
    &&& s.level != 2
}

impl State {
    /// The opening text screen: the interact edge scrolls it, and when the
    /// text runs out the screen closes and the reveal wipe is armed; the
    /// character-reveal pointer advances one step per tick up to its cap.
    pub fn opening_phase(&mut self, edge: bool)
        requires
            old(self).wf(),
            old(self).opening,
            old(self).cit < 0,
        ensures
            final(self).wf(),
            *final(self) == (State {
                opening: final(self).opening,
                textscreen: final(self).textscreen,
                ..*old(self)
            }),
            final(self).opening == (old(self).opening && !(edge && old(self).textscreen.rptr + 2
                >= old(self).textscreen.rows.len())),
            !final(self).opening ==> final(self).textscreen.animc == WIPENUM - 1,
            final(self).opening ==> final(self).textscreen.animc == old(self).textscreen.animc,
            edge ==> final(self).textscreen.rptr == old(self).textscreen.rptr + 2,
            !edge ==> final(self).textscreen.rptr == old(self).textscreen.rptr,
            final(self).textscreen.cptr == (if edge {
                1usize
            } else if old(self).textscreen.cptr < 160 {
                (old(self).textscreen.cptr + 1) as usize
            } else {
                old(self).textscreen.cptr
            }),
            final(self).textscreen.rows == old(self).textscreen.rows,
    {
        if edge {
            let more = self.textscreen.scroll();
            if !more {
                self.opening = false;
                self.textscreen.animc = WIPENUM - 1;
            }
        }
        if self.textscreen.cptr < 40 * TSPEED {
            self.textscreen.cptr = self.textscreen.cptr + 1;
        }
    }

    /// The closing text screen: the interact edge scrolls it, and when the
    /// text runs out the credits pages begin.
    pub fn end_phase(&mut self, edge: bool)
        requires
            old(self).wf(),
            old(self).end,
            !old(self).opening,
            old(self).cit < 0,
        ensures
            final(self).wf(),
            *final(self) == (State {
                cit: final(self).cit,
                textscreen: final(self).textscreen,
                ..*old(self)
            }),
            edge && old(self).textscreen.rptr + 2 >= old(self).textscreen.rows.len() ==> final(self).cit == 0 && final(self).textscreen.cptr == 0,
            !(edge && old(self).textscreen.rptr + 2 >= old(self).textscreen.rows.len()) ==> final(self).cit == old(self).cit,
            edge ==> final(self).textscreen.rptr == old(self).textscreen.rptr + 2,
            !edge ==> final(self).textscreen.rptr == old(self).textscreen.rptr,
            final(self).textscreen.rows == old(self).textscreen.rows,
    {
        if edge {
            let more = self.textscreen.scroll();
            if !more {
                self.cit = 0;
                return ;
            }
        }
        if self.textscreen.cptr < 40 * TSPEED {
            self.textscreen.cptr = self.textscreen.cptr + 1;
        }
    }

    /// The wipe into the last level has finished: load the closing text.
    pub fn begin_end_screen(&mut self)
        requires
            old(self).wf(),
            !old(self).opening,
            old(self).cit < 0,
        ensures
            final(self).wf(),
            *final(self) == (State {
                end: true,
                is_text: true,
                textscreen: final(self).textscreen,
                ..*old(self)
            }),
            final(self).textscreen.animc == old(self).textscreen.animc,
    {
        self.end = true;
        self.textscreen.set_text(self.end_text.as_str());
        self.is_text = true;
    }

    /// The main phase of a tick: latch update, target computation, movement
    /// resolution and interaction while standing, text reveal, sub-tile
    /// interpolation, and the level-transition commit.
    #[verifier::rlimit(100)]
    pub fn main_phase(&mut self, now_keys: &[bool], prev_keys: &[bool])
        requires
            old(self).wf(),
            spec_main(*old(self)),
            now_keys@.len() == 5,
            prev_keys@.len() == 5,
        ensures
            final(self).wf(),
            final(self).next_dir == spec_latch(
                old(self).next_dir,
                old(self).is_text,
                now_keys@,
                prev_keys@,
            ),
            ({
                let nd = spec_latch(old(self).next_dir, old(self).is_text, now_keys@, prev_keys@);
                let target = spec_target(old(self).sprite.pos, nd, old(self).cur_dir);
                let stepped = old(self).movec == 0 && nd is Some && spec_step_allowed(
                    old(self).maps@[old(self).level as int],
                    old(self).npc_sets@[old(self).level as int],
                    old(self).is_text,
                    old(self).swapping,
                    old(self).sprite.pos,
                    target,
                );
                let mid_movec: int = if stepped {
                    32
                } else {
                    old(self).movec as int
                };
                &&& final(self).sprite.pos == (if stepped {
                    target
                } else {
                    old(self).sprite.pos
                })
                &&& (old(self).movec == 0 && nd is Some ==> final(self).cur_dir == nd->0)
                &&& (!(old(self).movec == 0 && nd is Some) ==> final(self).cur_dir == old(self).cur_dir)
                &&& final(self).movec as int == spec_move_tick(
                    mid_movec,
                    old(self).maps@[0].position,
                    final(self).cur_dir,
                ).0
                &&& (forall|i: int|
                    0 <= i < 3 ==> (#[trigger] final(self).maps@[i]).position == spec_move_tick(
                        mid_movec,
                        old(self).maps@[i].position,
                        final(self).cur_dir,
                    ).1)
                &&& ({
                    let mid_swap = old(self).swapping || spec_swap_armed(
                        *old(self),
                        now_keys@,
                        prev_keys@,
                    );
                    let lv = old(self).level as int;
                    let d0 = old(self).maps@[lv].dims.0 as int;
                    let d1 = old(self).maps@[lv].dims.1 as int;
                    &&& (forall|i: int|
                        0 <= i < 3 && i != lv ==> (#[trigger] final(self).maps@[i]).mask == old(self).maps@[i].mask)
                    &&& (mid_movec > 0 && (mid_movec - 1) % 2 == 1 && mid_swap ==> (forall|
                        cx: int,
                        cy: int,
                    |
                        0 <= cx < d0 && 0 <= cy < d1
                            ==> #[trigger] final(self).maps@[lv].mask.mask@[cy * d0 + cx] == (old(self).maps@[lv].mask.mask@[cy * d0 + cx] && !in_iris(
                            cx,
                            cy,
                            2 * final(self).sprite.pos.x,
                            2 * final(self).sprite.pos.y,
                        ))))
                    &&& (!(mid_movec > 0 && (mid_movec - 1) % 2 == 1 && mid_swap) ==> final(self).maps@[lv].mask == old(self).maps@[lv].mask)
                })
            }),
            forall|i: int|
                0 <= i < 3 ==> (#[trigger] final(self).maps@[i]).mask.swapc >= old(self).maps@[i].mask.swapc,
            final(self).level != old(self).level ==> final(self).level == old(self).level + 1
                && final(self).swapping == false && final(self).talkc == 0 && final(self).maps@[old(self).level as int].mask.swapc >= SWAPNUM,
            final(self).level == old(self).level || final(self).level == old(self).level + 1,
            final(self).cit == old(self).cit,
            final(self).opening == old(self).opening,
            final(self).end == old(self).end,
            final(self).end_text == old(self).end_text,
            final(self).anim_sets == old(self).anim_sets,
            final(self).sprite_szs == old(self).sprite_szs,
            final(self).textscreen == old(self).textscreen || (final(self).textscreen
                == (Textscreen { animc: 1, ..old(self).textscreen }) && final(self).wipe_dir == 1),
            old(self).swapping ==> (final(self).level == old(self).level + 1 <==> final(self).maps@[old(self).level as int].mask.swapc >= SWAPNUM),
            !old(self).swapping ==> (final(self).level == old(self).level + 1 <==> (
            spec_swap_armed(*old(self), now_keys@, prev_keys@) && final(self).maps@[old(self).level as int].mask.swapc >= SWAPNUM)),
            !(now_keys@[4] && !prev_keys@[4]) ==> final(self).textscreen == old(self).textscreen
                && final(self).is_text == old(self).is_text && final(self).npc_sets == old(self).npc_sets && final(self).wipe_dir == old(self).wipe_dir,
            !(now_keys@[4] && !prev_keys@[4]) && final(self).level == old(self).level ==> final(self).swapping == old(self).swapping && final(self).talkc == old(self).talkc && final(self).textbox == (Textbox { cptr: final(self).textbox.cptr, ..old(self).textbox }),
            ({
                let nd = spec_latch(old(self).next_dir, old(self).is_text, now_keys@, prev_keys@);
                &&& (final(self).level == old(self).level && old(self).movec == 0 && nd is None
                    ==> spec_fresh_anim(
                    final(self).sprite.animation_state,
                    old(self).anim_sets@[old(self).level as int],
                    spec_stand_action(old(self).cur_dir),
                ))
                &&& (final(self).level == old(self).level && old(self).movec == 0 && nd is Some
                    && (nd->0 != old(self).cur_dir
                    || old(self).sprite.animation_state.action.spec_is_standing())
                    ==> spec_fresh_anim(
                    final(self).sprite.animation_state,
                    old(self).anim_sets@[old(self).level as int],
                    spec_walk_action(nd->0),
                ))
                &&& (final(self).level == old(self).level && old(self).movec == 0 && nd is Some
                    && nd->0 == old(self).cur_dir
                    && !old(self).sprite.animation_state.action.spec_is_standing() ==> final(self).sprite.animation_state == old(self).sprite.animation_state)
                &&& (final(self).level == old(self).level && old(self).movec > 0 ==> final(self).sprite.animation_state == old(self).sprite.animation_state)
                &&& (final(self).level != old(self).level ==> spec_fresh_anim(
                    final(self).sprite.animation_state,
                    old(self).anim_sets@[final(self).level as int],
                    spec_stand_action(final(self).cur_dir),
                ))
            }),
    {
        self.next_dir = update_latch(self.next_dir, self.is_text, now_keys, prev_keys);
        let next_pos = target_cell(self.sprite.pos, self.next_dir, self.cur_dir);
        if self.movec == 0 {
            self.resolve_move(next_pos);
            if now_keys[SPACE] && !prev_keys[SPACE] && !self.swapping {
                self.interact(next_pos);
            }
        }
        if self.textbox.cptr < 40 * TSPEED {
            self.textbox.cptr = self.textbox.cptr + 1;
        }
        self.tick_move();
        if self.swapping && (&self.maps[self.level]).mask.swapc >= SWAPNUM {
            self.next_level();
        }
    }
}

/// One simulation tick. Returns true when the player has asked to quit from
/// the last credits page.
///
/// The contract pins down, besides preservation of well-formedness: the
/// credits and text-screen phases touch nothing else; on the main phase the
/// direction latch follows `spec_latch`, the actor's position, facing, step
/// counter and animation selection follow the collision-gated movement
/// rules, every map's scroll origin follows the sub-tile interpolation
/// model, reveal-mask counts never decrease, a level transition commits if
/// and only if a reveal was in progress (or armed by this tick's finish
/// dialogue) and the active map's unmask count has reached the threshold,
/// and the phase flags and untouched components are carried over unchanged,
/// so consecutive ticks can be chained.
#[verifier::rlimit(100)]
pub fn update_state(s: &mut State, now_keys: &[bool], prev_keys: &[bool]) -> (quit: bool)
    requires
        old(s).wf(),
        now_keys@.len() == 5,
        prev_keys@.len() == 5,
    ensures
        final(s).wf(),
        quit == (old(s).cit == 5 && now_keys@[4] && !prev_keys@[4]),
        old(s).cit >= 0 ==> *final(s) == (State { cit: final(s).cit, ..*old(s) }),
        old(s).cit >= 0 && old(s).cit < 5 && now_keys@[4] && !prev_keys@[4] ==> final(s).cit == old(s).cit + 1,
        old(s).cit < 0 && old(s).opening ==> *final(s) == (State {
            opening: final(s).opening,
            textscreen: final(s).textscreen,
            ..*old(s)
        }),
        old(s).cit < 0 && !old(s).opening && old(s).end ==> *final(s) == (State {
            cit: final(s).cit,
            textscreen: final(s).textscreen,
            ..*old(s)
        }),
        spec_main(*old(s)) ==> final(s).next_dir == spec_latch(
            old(s).next_dir,
            old(s).is_text,
            now_keys@,
            prev_keys@,
        ),
        spec_main(*old(s)) ==> ({
            let nd = spec_latch(old(s).next_dir, old(s).is_text, now_keys@, prev_keys@);
            let target = spec_target(old(s).sprite.pos, nd, old(s).cur_dir);
            let stepped = old(s).movec == 0 && nd is Some && spec_step_allowed(
                old(s).maps@[old(s).level as int],
                old(s).npc_sets@[old(s).level as int],
                old(s).is_text,
                old(s).swapping,
                old(s).sprite.pos,
                target,
            );
            let mid_movec: int = if stepped {
                32
            } else {
                old(s).movec as int
            };
            &&& final(s).sprite.pos == (if stepped {
                target
            } else {
                old(s).sprite.pos
            })
            &&& (old(s).movec == 0 && nd is Some ==> final(s).cur_dir == nd->0)
            &&& (!(old(s).movec == 0 && nd is Some) ==> final(s).cur_dir == old(s).cur_dir)
            &&& final(s).movec as int == spec_move_tick(
                mid_movec,
                old(s).maps@[0].position,
                final(s).cur_dir,
            ).0
            &&& (forall|i: int|
                0 <= i < 3 ==> (#[trigger] final(s).maps@[i]).position == spec_move_tick(
                    mid_movec,
                    old(s).maps@[i].position,
                    final(s).cur_dir,
                ).1)
            &&& ({
                let mid_swap = old(s).swapping || spec_swap_armed(*old(s), now_keys@, prev_keys@);
                let lv = old(s).level as int;
                let d0 = old(s).maps@[lv].dims.0 as int;
                let d1 = old(s).maps@[lv].dims.1 as int;
                &&& (forall|i: int|
                    0 <= i < 3 && i != lv ==> (#[trigger] final(s).maps@[i]).mask == old(s).maps@[i].mask)
                &&& (mid_movec > 0 && (mid_movec - 1) % 2 == 1 && mid_swap ==> (forall|
                    cx: int,
                    cy: int,
                |
                    0 <= cx < d0 && 0 <= cy < d1 ==> #[trigger] final(s).maps@[lv].mask.mask@[cy
                        * d0 + cx] == (old(s).maps@[lv].mask.mask@[cy * d0 + cx] && !in_iris(
                        cx,
                        cy,
                        2 * final(s).sprite.pos.x,
                        2 * final(s).sprite.pos.y,
                    ))))
                &&& (!(mid_movec > 0 && (mid_movec - 1) % 2 == 1 && mid_swap) ==> final(s).maps@[lv].mask == old(s).maps@[lv].mask)
            })
            &&& (final(s).level != old(s).level ==> final(s).level == old(s).level + 1 && final(s).swapping == false && final(s).talkc == 0 && final(s).maps@[old(s).level as int].mask.swapc >= SWAPNUM)
            &&& (forall|i: int|
                0 <= i < 3 ==> (#[trigger] final(s).maps@[i]).mask.swapc >= old(s).maps@[i].mask.swapc)
        }),
{
    let edge = now_keys[SPACE] && !prev_keys[SPACE];
    // credits pages
    if s.cit >= 0 {
        if edge {
            if s.cit < 5 {
                s.cit = s.cit + 1;
            } else {
                return true;
            }
        }
        return false;
    }
    // opening text screen
    if s.opening {
        s.opening_phase(edge);
        return false;
    }
    // closing text screen
    if s.end {
        s.end_phase(edge);
        return false;
    }
    // the wipe into the last level has finished: show the closing text
    if s.textscreen.animc == WIPENUM - 1 && s.level == 2 {
        s.begin_end_screen();
    }
    // wipe in progress: the world is frozen
    if s.textscreen.animc < WIPENUM && s.textscreen.animc > 0 {
        return false;
    }
    s.main_phase(now_keys, prev_keys);
    false
}


/// One render pass: depending on phase, the credits page, the text screen,
/// or the world (tiles, NPCs, the actor's animated sprite, the dialogue box
/// and the wipe overlay) is composited into `fb2d`. Advances the sprite
/// animation and, while the wipe runs, the wipe counter; everything else is
/// left unchanged. The contract gives the produced frame exactly, as a
/// composition of the draw functions' pure effects.
#[verifier::rlimit(100)]
pub fn render_state(s: &mut State, citation: &Image, fb2d: &mut Image)
    requires
        old(s).wf(),
        old(s).sprite.animation_state.now < usize::MAX,
        old(fb2d).wf(),
        citation.wf(),
        citation.sz.x >= 176,
        citation.sz.y >= 1056,
    ensures
        final(s).wf(),
        final(fb2d).wf(),
        final(fb2d).sz == old(fb2d).sz,
        *final(s) == (State {
            sprite: final(s).sprite,
            textscreen: final(s).textscreen,
            maps: final(s).maps,
            ..*old(s)
        }),
        final(s).maps@ == old(s).maps@,
        final(s).sprite.pos == old(s).sprite.pos,
        final(s).sprite.sz == old(s).sprite.sz,
        final(s).textscreen == (Textscreen {
            animc: final(s).textscreen.animc,
            ..old(s).textscreen
        }),
        old(s).cit >= 0 ==> *final(s) == *old(s) && final(fb2d).buffer@ == spec_blit(
            old(fb2d).buffer@,
            old(fb2d).sz.x as int,
            old(fb2d).sz.y as int,
            *citation,
            Rect {
                pos: Vec2i { x: 0, y: (old(s).cit * 176) as i32 },
                sz: Vec2i { x: 176, y: 176 },
            },
            Vec2i { x: 0, y: 0 },
        ),
        old(s).cit < 0 && (old(s).opening || old(s).end) ==> *final(s) == *old(s) && final(fb2d).buffer@ == spec_screen_cols(
            old(s).textscreen,
            Seq::new(old(fb2d).buffer@.len(), |i: int| (0u8, 0u8, 0u8, 0u8)),
            old(fb2d).sz.x as int,
            old(fb2d).sz.y as int,
            20,
        ),
        old(s).cit < 0 && !old(s).opening && !old(s).end ==> final(s).sprite.animation_state.now == old(s).sprite.animation_state.spec_ticked_now(20) && final(s).sprite.animation_state.animation == old(s).sprite.animation_state.animation && final(s).sprite.animation_state.action == old(s).sprite.animation_state.action,
        old(s).cit < 0 && !old(s).opening && !old(s).end ==> final(s).textscreen.animc == (if 0
            < old(s).textscreen.animc < WIPENUM {
            (old(s).textscreen.animc + old(s).wipe_dir) as i32
        } else {
            old(s).textscreen.animc
        }),
        old(s).cit < 0 && !old(s).opening && !old(s).end ==> ({
            let sw = old(fb2d).sz.x as int;
            let sh = old(fb2d).sz.y as int;
            let lv = old(s).level as int;
            let world = if old(s).swapping {
                spec_masked_draw_tiles(
                    old(s).maps@[lv],
                    spec_draw_tiles(
                        old(s).maps@[lv + 1],
                        old(fb2d).buffer@,
                        sw,
                        sh,
                        old(s).maps@[lv + 1].dims.0 * old(s).maps@[lv + 1].dims.1,
                    ),
                    sw,
                    sh,
                    old(s).maps@[lv].dims.0 * old(s).maps@[lv].dims.1,
                )
            } else {
                spec_draw_npcs(
                    old(s).npc_sets@[lv],
                    spec_draw_tiles(
                        old(s).maps@[lv],
                        old(fb2d).buffer@,
                        sw,
                        sh,
                        old(s).maps@[lv].dims.0 * old(s).maps@[lv].dims.1,
                    ),
                    sw,
                    sh,
                    old(s).sprite.pos,
                    old(s).movec,
                    old(s).cur_dir,
                    old(s).npc_sets@[lv].npcs.len() as int,
                )
            };
            let with_player = spec_blit(
                world,
                sw,
                sh,
                old(s).anim_sets@[lv].image,
                final(s).sprite.animation_state.spec_current_frame(20),
                Vec2i {
                    x: (88 - old(s).sprite.sz.x as int / 2) as i32,
                    y: (88 - old(s).sprite.sz.y as int / 2) as i32,
                },
            );
            let with_text = if old(s).is_text {
                spec_draw_box(old(s).textbox, with_player, sw, sh, 132)
            } else {
                with_player
            };
            final(fb2d).buffer@ == (if 0 < old(s).textscreen.animc < WIPENUM {
                spec_wipe(old(s).textscreen.animc as int, with_text, sw, sh, 484)
            } else {
                with_text
            })
        }),
{
    if s.cit >= 0 {
        fb2d.bitblt(
            citation,
            Rect { pos: Vec2i { x: 0, y: s.cit * 176 }, sz: Vec2i { x: 176, y: 176 } },
            Vec2i { x: 0, y: 0 },
        );
        return ;
    }
    if s.opening || s.end {
        s.textscreen.draw(fb2d);
        return ;
    }
    if s.swapping {
        (&s.maps[s.level + 1]).draw(fb2d);
        let lv = s.level;
        let ghost pre = s.maps@;
        let mut m = s.maps.remove(lv);
        m.masked_draw(fb2d);
        s.maps.insert(lv, m);
        proof {
            assert(s.maps@ =~= pre);
        }
    } else {
        (&s.maps[s.level]).draw(fb2d);
        (&s.npc_sets[s.level]).draw(fb2d, s.sprite.pos, s.movec, s.cur_dir);
    }
    let frame = s.sprite.play_animation(&20);
    let to = Vec2i {
        x: (WIDTH as i32) / 2 - s.sprite.sz.x / 2,
        y: (HEIGHT as i32) / 2 - s.sprite.sz.y / 2,
    };
    fb2d.bitblt(&(&s.anim_sets[s.level]).image, frame, to);
    if s.is_text {
        s.textbox.draw(fb2d);
    }
    if s.textscreen.animc < WIPENUM && s.textscreen.animc > 0 {
        s.textscreen.anim(fb2d);
        s.textscreen.animc = s.textscreen.animc + s.wipe_dir;
    }
}

} // verus!
