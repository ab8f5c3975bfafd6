use tilecore::animations::{Animation, AnimationSet, AnimationState};
use tilecore::geom::{Dir, Rect, Vec2i};
use tilecore::npc::{NPC, NPCSet};
use tilecore::sprite::{Action, Sprite};
use tilecore::surface::Image;
use tilecore::text::{parse, text_coords, Textset};
use tilecore::world::anims;

fn frame(x: i32, y: i32) -> Rect {
    Rect { pos: Vec2i { x, y }, sz: Vec2i { x: 16, y: 16 } }
}

#[test]
fn looping_animation_wraps_to_first_frame() {
    let anim = Animation {
        frames: vec![frame(0, 0), frame(16, 0)],
        frame_timings: vec![0, 15],
        loops: true,
    };
    let mut st = AnimationState { start_time: 0, now: 0, action: Action::WalkD, animation: anim };
    let speed = 1usize;
    assert_eq!(st.tick(&speed), frame(16, 0));
    assert_eq!(st.now, 1);
    // the next tick reaches the frame count and wraps to zero
    assert_eq!(st.tick(&speed), frame(0, 0));
    assert_eq!(st.now, 0);
}

#[test]
fn finished_non_looping_animation_clamps_to_last_frame() {
    let anim = Animation {
        frames: vec![frame(0, 0), frame(16, 0)],
        frame_timings: vec![0, 15],
        loops: false,
    };
    assert_eq!(anim.current_frame(0, 7, &1), frame(16, 0));
    let mut st = AnimationState { start_time: 0, now: 5, action: Action::WalkD, animation: anim };
    assert_eq!(st.tick(&1), frame(16, 0));
    assert_eq!(st.now, 6);
}

#[test]
fn initial_frame_is_first() {
    let anim = Animation { frames: vec![frame(3, 4)], frame_timings: vec![0], loops: true };
    assert_eq!(anim.initial_frame(), frame(3, 4));
}

#[test]
fn play_animation_starts_fresh() {
    let set = AnimationSet::new(Image::new(Vec2i { x: 48, y: 64 }), anims(Vec2i { x: 16, y: 16 }));
    let st = set.play_animation(Action::WalkL);
    assert_eq!(st.start_time, 0);
    assert_eq!(st.now, 0);
    assert_eq!(st.action, Action::WalkL);
    assert_eq!(st.animation.frames.len(), 2);
    assert_eq!(st.animation.frames[0], frame(0, 32));
}

#[test]
fn world_anims_layout_matches_action_slots() {
    let a = anims(Vec2i { x: 16, y: 16 });
    assert_eq!(a.len(), 8);
    assert_eq!(a[Action::StandD.index()].frames[0], frame(0, 0));
    assert_eq!(a[Action::StandU.index()].frames[0], frame(0, 16));
    assert_eq!(a[Action::StandL.index()].frames[0], frame(0, 32));
    assert_eq!(a[Action::StandR.index()].frames[0], frame(0, 48));
    assert_eq!(a[Action::WalkD.index()].frames.len(), 4);
    assert_eq!(a[Action::WalkD.index()].frames[1], frame(16, 0));
    assert_eq!(a[Action::WalkU.index()].frames[3], frame(32, 16));
    assert_eq!(a[Action::WalkR.index()].frames.len(), 2);
    assert!(a.iter().all(|x| x.loops));
}

#[test]
fn sprite_forwards_tick() {
    let set = AnimationSet::new(Image::new(Vec2i { x: 48, y: 64 }), anims(Vec2i { x: 16, y: 16 }));
    let mut sp = Sprite {
        animation_state: set.play_animation(Action::StandD),
        pos: Vec2i { x: 1, y: 1 },
        sz: Vec2i { x: 16, y: 16 },
    };
    let r = sp.play_animation(&20);
    assert_eq!(r, frame(0, 0));
    assert_eq!(sp.animation_state.now, 1);
}

#[test]
fn is_standing_separates_poses() {
    assert!(Action::StandD.is_standing());
    assert!(Action::StandR.is_standing());
    assert!(!Action::WalkU.is_standing());
}

#[test]
fn text_coords_places_letters_digits_and_punctuation() {
    assert_eq!(text_coords(65), Vec2i { x: 0, y: 0 }); // 'A'
    assert_eq!(text_coords(90), Vec2i { x: 200, y: 0 }); // 'Z'
    assert_eq!(text_coords(97), Vec2i { x: 0, y: 8 }); // 'a'
    assert_eq!(text_coords(53), Vec2i { x: 40, y: 16 }); // '5'
    assert_eq!(text_coords(63), Vec2i { x: 104, y: 24 }); // '?'
    assert_eq!(text_coords(257), Vec2i { x: 96, y: 16 }); // 'l contraction
    assert_eq!(text_coords(32), Vec2i { x: 176, y: 24 }); // space falls through
}

#[test]
fn parse_packs_words_into_row_pairs() {
    let rows = parse("Hi there.");
    assert_eq!(rows.len(), 2);
    assert_eq!(rows[0][0], 'H' as usize);
    assert_eq!(rows[0][1], 'i' as usize);
    assert_eq!(rows[0][2], 0);
    assert_eq!(rows[0][3], 't' as usize);
    assert_eq!(rows[0][8], '.' as usize);
    assert!(rows[1].iter().all(|c| *c == 0));
}

#[test]
fn parse_encodes_contractions_and_quotes() {
    let rows = parse("it's \"ok\"");
    // i t 's, then open-quote o k close-quote
    assert_eq!(rows[0][0], 'i' as usize);
    assert_eq!(rows[0][1], 't' as usize);
    assert_eq!(rows[0][2], 258); // 's
    assert_eq!(rows[0][4], 263); // opening quote
    assert_eq!(rows[0][5], 'o' as usize);
    assert_eq!(rows[0][6], 'k' as usize);
    assert_eq!(rows[0][7], 264); // closing quote
}

#[test]
fn parse_sentence_end_forces_new_row_pair() {
    let rows = parse("One. Two");
    assert_eq!(rows.len(), 4);
    assert_eq!(rows[0][0], 'O' as usize);
    assert_eq!(rows[2][0], 'T' as usize);
}

#[test]
fn parse_always_returns_even_rows() {
    assert_eq!(parse("x").len() % 2, 0);
    assert!(parse("x").len() >= 2);
    let long = "a b c d e f g h i j k l m n o p q r s t u v w x y z";
    assert_eq!(parse(long).len() % 2, 0);
}

#[test]
fn textbox_scroll_reports_remaining_rows() {
    let textset = Textset::new(Image::new(Vec2i { x: 216, y: 40 }));
    let mut tb = tilecore::text::Textbox::new(textset);
    tb.set_text("One. Two. Three.");
    assert_eq!(tb.rptr, 1);
    assert_eq!(tb.rows.len(), 6);
    assert!(tb.scroll());
    assert_eq!(tb.rptr, 3);
    assert!(tb.scroll());
    assert!(!tb.scroll());
}

#[test]
fn textset_get_rect_is_eight_by_eight() {
    let textset = Textset::new(Image::new(Vec2i { x: 216, y: 40 }));
    let r = textset.get_rect(65);
    assert_eq!(r.pos, Vec2i { x: 0, y: 0 });
    assert_eq!(r.sz, Vec2i { x: 8, y: 8 });
}

#[test]
fn npc_turns_to_face_and_resets() {
    let mut npc = NPC::new(1, Dir::Left, Vec2i { x: 4, y: 4 }, String::from("..."));
    npc.turn_to_face(Dir::Down);
    assert_eq!(npc.cur_dir, Dir::Up);
    npc.turn_to_face(Dir::Right);
    assert_eq!(npc.cur_dir, Dir::Left);
    npc.reset_dir();
    assert_eq!(npc.cur_dir, Dir::Left);
}

#[test]
fn npcset_at_finds_by_position() {
    let set = NPCSet::new(
        Image::new(Vec2i { x: 64, y: 96 }),
        vec![
            NPC::new(0, Dir::Down, Vec2i { x: 1, y: 2 }, String::from("a")),
            NPC::new(1, Dir::Up, Vec2i { x: 3, y: 4 }, String::from("b")),
        ],
        Vec2i { x: 16, y: 16 },
        String::from("fin"),
    );
    assert_eq!(set.at(Vec2i { x: 3, y: 4 }), Some(1));
    assert_eq!(set.at(Vec2i { x: 1, y: 2 }), Some(0));
    assert_eq!(set.at(Vec2i { x: 9, y: 9 }), None);
}

#[test]
fn geometry_queries() {
    let outer = Rect { pos: Vec2i { x: 0, y: 0 }, sz: Vec2i { x: 10, y: 10 } };
    let inner = Rect { pos: Vec2i { x: 2, y: 2 }, sz: Vec2i { x: 3, y: 3 } };
    assert!(outer.contains(inner));
    assert!(!inner.contains(outer));
    assert!(outer.contains_point(Vec2i { x: 10, y: 10 }));
    assert!(!outer.contains_point(Vec2i { x: 11, y: 10 }));
    let mut r = inner;
    r.move_by(1, -1);
    assert_eq!(r.pos, Vec2i { x: 3, y: 1 });
    assert_eq!(r.bottom(), 4);
    let mut v = Vec2i { x: 5, y: 5 };
    v.walk(Dir::Up);
    assert_eq!(v, Vec2i { x: 5, y: 4 });
    assert_eq!(v.get(), Vec2i { x: 80, y: 64 });
    assert_eq!(v.plus(Vec2i { x: 1, y: 2 }), Vec2i { x: 6, y: 6 });
    assert_eq!(v.minus(Vec2i { x: 1, y: 2 }), Vec2i { x: 4, y: 2 });
}

#[test]
fn wipe_covers_tiles_in_reverse_raster_order() {
    let textset = Textset::new(Image::new(Vec2i { x: 216, y: 40 }));
    let mut ts = tilecore::text::Textscreen::new(textset, "Onward.");
    let mut fb = Image::new(Vec2i { x: 176, y: 176 });
    fb.clear((9, 9, 9, 9));
    // at counter 2 exactly the last tile of the 22-by-22 grid is wiped
    ts.animc = 2;
    ts.anim(&mut fb);
    assert_eq!(fb.buffer[(168 * 176 + 168) as usize], (0, 0, 0, 0));
    assert_eq!(fb.buffer[(168 * 176 + 167) as usize], (9, 9, 9, 9));
    assert_eq!(fb.buffer[0], (9, 9, 9, 9));
    // at the top of its range the wipe covers every tile except the very
    // first: the strict comparison leaves tile (0, 0) out
    ts.animc = tilecore::text::WIPENUM;
    ts.anim(&mut fb);
    assert_eq!(fb.buffer[0], (9, 9, 9, 9));
    assert_eq!(fb.buffer[8], (0, 0, 0, 0));
    assert_eq!(fb.buffer[(175 * 176 + 175) as usize], (0, 0, 0, 0));
}
