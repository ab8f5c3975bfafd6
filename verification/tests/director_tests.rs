use tilecore::animations::AnimationSet;
use tilecore::director::{update_state, State, DOWN, SPACE};
use tilecore::geom::{Dir, Vec2i};
use tilecore::npc::{NPC, NPCSet};
use tilecore::sprite::{Action, Sprite};
use tilecore::surface::Image;
use tilecore::text::{Textbox, Textscreen, Textset};
use tilecore::tiles::{Tile, Tilemap, Tileset};
use tilecore::world::anims;

fn sized_map(side: usize) -> Tilemap {
    let tiles = vec![Tile { solid: false }, Tile { solid: true }];
    let tileset = Tileset::new(tiles, Image::new(Vec2i { x: 16, y: 8 }));
    Tilemap::new(
        Vec2i { x: 0, y: 0 },
        (side, side),
        tileset,
        vec![0usize; side * side],
        2,
        &[0],
    )
}

fn open_map() -> Tilemap {
    let tiles = vec![Tile { solid: false }, Tile { solid: true }];
    let tileset = Tileset::new(tiles, Image::new(Vec2i { x: 16, y: 8 }));
    Tilemap::new(
        Vec2i { x: 0, y: 0 },
        (8, 8),
        tileset,
        vec![0usize; 64],
        2,
        &[0],
    )
}

fn anim_set() -> AnimationSet {
    AnimationSet::new(Image::new(Vec2i { x: 48, y: 64 }), anims(Vec2i { x: 16, y: 16 }))
}

fn npc_set(npcs: Vec<NPC>) -> NPCSet {
    NPCSet::new(
        Image::new(Vec2i { x: 64, y: 96 }),
        npcs,
        Vec2i { x: 16, y: 16 },
        String::from("That was everyone."),
    )
}

fn test_state() -> State {
    let textset = Textset::new(Image::new(Vec2i { x: 216, y: 40 }));
    let textset2 = Textset::new(Image::new(Vec2i { x: 216, y: 40 }));
    let set = anim_set();
    let sprite = Sprite {
        animation_state: set.play_animation(Action::StandD),
        pos: Vec2i { x: 2, y: 2 },
        sz: Vec2i { x: 16, y: 16 },
    };
    let mut textscreen = Textscreen::new(textset2, "Welcome to the world.");
    textscreen.animc = 0;
    State {
        maps: vec![open_map(), open_map(), open_map()],
        level: 0,
        talkc: 0,
        swapping: false,
        anim_sets: vec![anim_set(), anim_set(), anim_set()],
        sprite,
        sprite_szs: vec![
            Vec2i { x: 16, y: 16 },
            Vec2i { x: 16, y: 16 },
            Vec2i { x: 16, y: 20 },
        ],
        npc_sets: vec![npc_set(vec![]), npc_set(vec![]), npc_set(vec![])],
        movec: 0,
        cur_dir: Dir::Down,
        next_dir: None,
        is_text: false,
        textbox: Textbox::new(textset),
        textscreen,
        opening: false,
        end: false,
        wipe_dir: -1,
        cit: -1,
        end_text: String::from("The story ends here."),
    }
}

const NO_KEYS: [bool; 5] = [false; 5];

#[test]
fn movement_cycle_scrolls_sixteen_pixels_in_thirty_two_ticks() {
    let mut s = test_state();
    let mut down = NO_KEYS;
    down[DOWN] = true;
    // tick 1 latches Down, starts the step (movec 32 -> 31) and scrolls once
    let mut scrolled: i32 = 0;
    for i in 0..32 {
        let quit = update_state(&mut s, &down, &if i == 0 { NO_KEYS } else { down });
        assert!(!quit);
        // each tick scrolls at most one pixel
        assert!(s.maps[0].position.y == -scrolled || s.maps[0].position.y == -(scrolled + 1));
        scrolled = -s.maps[0].position.y;
    }
    assert_eq!(scrolled, 16);
    assert_eq!(s.movec, 0);
    assert_eq!(s.sprite.pos, Vec2i { x: 2, y: 3 });
    for m in s.maps.iter() {
        assert_eq!(m.position, Vec2i { x: 0, y: -16 });
    }
}

#[test]
fn blocked_step_turns_in_place() {
    let mut s = test_state();
    // block the whole second map row of coarse cells by replacing the map
    let tiles = vec![Tile { solid: false }, Tile { solid: true }];
    let tileset = Tileset::new(tiles, Image::new(Vec2i { x: 16, y: 8 }));
    let mut grid = vec![0usize; 64];
    for x in 0..8 {
        grid[6 * 8 + x] = 1; // fine rows 6..8 are coarse row 3
        grid[7 * 8 + x] = 1;
    }
    s.maps[0] = Tilemap::new(Vec2i { x: 0, y: 0 }, (8, 8), tileset, grid, 2, &[0]);
    s.sprite.pos = Vec2i { x: 2, y: 2 };
    s.cur_dir = Dir::Right;
    let mut down = NO_KEYS;
    down[DOWN] = true;
    let quit = update_state(&mut s, &down, &NO_KEYS);
    assert!(!quit);
    // facing turned, but no step was taken: target coarse cell (2, 3) is solid
    assert_eq!(s.cur_dir, Dir::Down);
    assert_eq!(s.movec, 0);
    assert_eq!(s.sprite.pos, Vec2i { x: 2, y: 2 });
    assert_eq!(s.maps[0].position, Vec2i { x: 0, y: 0 });
}

#[test]
fn npc_occupancy_blocks_step() {
    let mut s = test_state();
    s.npc_sets[0] = npc_set(vec![NPC::new(
        0,
        Dir::Up,
        Vec2i { x: 2, y: 3 },
        String::from("Hello!"),
    )]);
    let mut down = NO_KEYS;
    down[DOWN] = true;
    update_state(&mut s, &down, &NO_KEYS);
    assert_eq!(s.sprite.pos, Vec2i { x: 2, y: 2 });
    assert_eq!(s.movec, 0);
}

#[test]
fn interact_opens_dialogue_and_turns_npc() {
    let mut s = test_state();
    s.npc_sets[0] = npc_set(vec![NPC::new(
        0,
        Dir::Up,
        Vec2i { x: 2, y: 3 },
        String::from("Hello there, traveler."),
    )]);
    let mut space = NO_KEYS;
    space[SPACE] = true;
    // facing Down from (2,2): the target is the NPC's cell
    update_state(&mut s, &space, &NO_KEYS);
    assert!(s.is_text);
    assert_eq!(s.npc_sets[0].npcs[0].cur_dir, Dir::Up);
    assert!(s.npc_sets[0].npcs[0].talked);
    assert_eq!(s.talkc, 1);
}

#[test]
fn latch_is_sticky_until_release() {
    let mut s = test_state();
    let mut down = NO_KEYS;
    down[DOWN] = true;
    let mut both = down;
    both[tilecore::director::RIGHT] = true;
    update_state(&mut s, &down, &NO_KEYS);
    assert_eq!(s.next_dir, Some(Dir::Down));
    // pressing Right while Down stays held does not move the latch
    update_state(&mut s, &both, &down);
    assert_eq!(s.next_dir, Some(Dir::Down));
    // releasing Down hands the latch to Right
    let mut right = NO_KEYS;
    right[tilecore::director::RIGHT] = true;
    update_state(&mut s, &right, &both);
    assert_eq!(s.next_dir, Some(Dir::Right));
}

#[test]
fn credits_pages_advance_and_quit() {
    let mut s = test_state();
    s.cit = 0;
    let mut space = NO_KEYS;
    space[SPACE] = true;
    for expect in 1..=5 {
        let quit = update_state(&mut s, &space, &NO_KEYS);
        assert!(!quit);
        assert_eq!(s.cit, expect);
        let quit = update_state(&mut s, &NO_KEYS, &space);
        assert!(!quit);
    }
    let quit = update_state(&mut s, &space, &NO_KEYS);
    assert!(quit);
}

#[test]
fn circle_mask_unmasks_iris_once() {
    let mut s = test_state();
    s.circle_mask();
    assert_eq!(s.maps[0].mask.swapc, 24);
    // exactly the stencil cells around the fine position (4, 4) flipped
    assert!(!s.maps[0].mask.at(4, 2)); // top row: columns 4..6
    assert!(!s.maps[0].mask.at(5, 2));
    assert!(s.maps[0].mask.at(3, 2));
    assert!(!s.maps[0].mask.at(3, 3)); // second row: columns 3..7
    assert!(!s.maps[0].mask.at(2, 4)); // middle rows: columns 2..8
    assert!(!s.maps[0].mask.at(7, 5));
    assert!(s.maps[0].mask.at(1, 4));
    assert!(!s.maps[0].mask.at(4, 7)); // bottom row: columns 4..6
    assert!(s.maps[0].mask.at(3, 7));
    // repeating converges: the same cells stay unmasked
    s.circle_mask();
    assert_eq!(s.maps[0].mask.swapc, 24);
}

#[test]
fn render_produces_frame_and_advances_wipe() {
    let mut s = test_state();
    s.textscreen.animc = 10;
    s.wipe_dir = -1;
    let citation = Image::new(Vec2i { x: 176, y: 1056 });
    let mut fb = Image::new(Vec2i { x: 176, y: 176 });
    tilecore::director::render_state(&mut s, &citation, &mut fb);
    assert_eq!(fb.sz, Vec2i { x: 176, y: 176 });
    assert_eq!(s.textscreen.animc, 9);
}

#[test]
fn update_latch_priority_is_down_up_left_right() {
    let all = [true, true, true, true, false];
    let none = NO_KEYS;
    assert_eq!(
        tilecore::director::update_latch(None, false, &all, &none),
        Some(Dir::Down)
    );
    let no_down = [false, true, true, true, false];
    assert_eq!(
        tilecore::director::update_latch(None, false, &no_down, &none),
        Some(Dir::Up)
    );
    let lr = [false, false, true, true, false];
    assert_eq!(
        tilecore::director::update_latch(None, false, &lr, &none),
        Some(Dir::Left)
    );
    let r = [false, false, false, true, false];
    assert_eq!(
        tilecore::director::update_latch(None, false, &r, &none),
        Some(Dir::Right)
    );
    assert_eq!(tilecore::director::update_latch(None, false, &none, &none), None);
}

#[test]
fn update_latch_ignores_presses_while_text_is_open() {
    let all = [true, true, true, true, false];
    assert_eq!(tilecore::director::update_latch(None, true, &all, &[false; 5]), None);
}

#[test]
fn level_transition_commits_exactly_at_threshold() {
    let mut s = test_state();
    // larger maps so the reveal mask can reach the commit threshold
    s.maps = vec![sized_map(28), sized_map(28), sized_map(28)];
    s.sprite.pos = Vec2i { x: 7, y: 7 };
    s.swapping = true;
    // unmask 250 cells far away from the actor
    let mut left = 250;
    'outer: for y in 0..10usize {
        for x in 0..28usize {
            if left == 0 {
                break 'outer;
            }
            s.maps[0].mask.unmask(x, y);
            left -= 1;
        }
    }
    assert_eq!(s.maps[0].mask.swapc, 250);
    // a scroll tick unmasks the 24-cell iris: 274 stays under the threshold
    s.movec = 2;
    update_state(&mut s, &NO_KEYS, &NO_KEYS);
    assert_eq!(s.maps[0].mask.swapc, 274);
    assert_eq!(s.level, 0);
    assert!(s.swapping);
    // push the count to the threshold: the very next scroll tick commits
    let mut more = 26;
    'outer2: for y in 10..12usize {
        for x in 0..28usize {
            if more == 0 {
                break 'outer2;
            }
            s.maps[0].mask.unmask(x, y);
            more -= 1;
        }
    }
    assert_eq!(s.maps[0].mask.swapc, 300);
    s.movec = 2;
    update_state(&mut s, &NO_KEYS, &NO_KEYS);
    assert_eq!(s.level, 1);
    assert!(!s.swapping);
    assert_eq!(s.talkc, 0);
}
