//! Glyph lookup, the dialogue textbox with its bordered frame and two-row
//! text reveal, and the full-screen text screen with its wipe animation.

use vstd::prelude::*;

use crate::geom::{lemma_grid_index, Rect, Vec2i, HEIGHT, TILE_SZ, TSPEED};
use crate::surface::{spec_blit, spec_fill_rect, Color, Image};
use vstd::string::StrSliceExecFns;

verus! {

/// Cell count of the 22-by-22 tile grid the text-screen wipe animation
/// sweeps over; the wipe counter runs between 0 and this value.
pub const WIPENUM: i32 = 484;

/// A glyph code: a Unicode scalar value, or one of the private codes above
/// 255 used for apostrophe contractions and quotation marks.
pub struct Charcode(pub usize);

/// The glyph sheet cell of code `c`, in sheet tile coordinates.
pub open spec fn spec_text_cell(c: int) -> (int, int) {
    if 65 <= c <= 90 {
        (c - 65, 0)
    } else if 97 <= c <= 122 {
        (c - 97, 1)
    } else if 48 <= c <= 57 {
        (c - 48, 2)
    } else if c == 1 {
        (0, 3)
    } else if c == 2 {
        (2, 3)
    } else if c == 3 {
        (5, 3)
    } else if c == 4 {
        (4, 3)
    } else if c == 5 || c == 6 {
        (1, 3)
    } else if c == 7 || c == 8 {
        (3, 3)
    } else if c == 9 {
        (21, 3)
    } else if c == 11 {
        (0, 4)
    } else if c == 12 {
        (2, 4)
    } else if c == 13 {
        (4, 4)
    } else if c == 14 {
        (6, 4)
    } else if c == 15 || c == 16 {
        (1, 4)
    } else if c == 17 {
        (7, 4)
    } else if c == 18 {
        (3, 4)
    } else if c == 19 {
        (21, 3)
    } else if c == 21 {
        (8, 4)
    } else if c == 22 {
        (10, 4)
    } else if c == 23 {
        (12, 4)
    } else if c == 24 {
        (14, 4)
    } else if c == 25 {
        (9, 4)
    } else if c == 26 {
        (13, 4)
    } else if c == 27 {
        (15, 4)
    } else if c == 28 {
        (11, 4)
    } else if c == 29 {
        (21, 3)
    } else if c == 233 {
        (10, 2)
    } else if 256 <= c <= 262 {
        (c - 245, 2)
    } else if c == 263 {
        (18, 3)
    } else if c == 264 {
        (19, 3)
    } else if c == 40 {
        (6, 3)
    } else if c == 41 {
        (7, 3)
    } else if c == 58 {
        (8, 3)
    } else if c == 59 {
        (9, 3)
    } else if c == 91 {
        (10, 3)
    } else if c == 93 {
        (11, 3)
    } else if c == 45 {
        (12, 3)
    } else if c == 63 {
        (13, 3)
    } else if c == 33 {
        (14, 3)
    } else if c == 46 {
        (15, 3)
    } else if c == 47 {
        (16, 3)
    } else if c == 44 {
        (17, 3)
    } else if c == 42 {
        (20, 3)
    } else {
        (22, 3)
    }
}

/// Every glyph cell lies in the 26-by-5 tile region of the glyph sheet.
pub proof fn lemma_text_cell_bounds(c: int)
    ensures
        0 <= spec_text_cell(c).0 <= 25,
        0 <= spec_text_cell(c).1 <= 4,
{
}

/// The pixel position of glyph code `c` on the glyph sheet.
pub fn text_coords(c: usize) -> (r: Vec2i)
    ensures
        r.x == 8 * spec_text_cell(c as int).0,
        r.y == 8 * spec_text_cell(c as int).1,
{
    let coords = if 65 <= c && c <= 90 {
        Vec2i { x: (c - 65) as i32, y: 0 }
    } else if 97 <= c && c <= 122 {
        Vec2i { x: (c - 97) as i32, y: 1 }
    } else if 48 <= c && c <= 57 {
        Vec2i { x: (c - 48) as i32, y: 2 }
    } else if 256 <= c && c <= 262 {
        Vec2i { x: (c - 245) as i32, y: 2 }
    } else {
        match c {
            1 => Vec2i { x: 0, y: 3 },
            2 => Vec2i { x: 2, y: 3 },
            3 => Vec2i { x: 5, y: 3 },
            4 => Vec2i { x: 4, y: 3 },
            5 | 6 => Vec2i { x: 1, y: 3 },
            7 | 8 => Vec2i { x: 3, y: 3 },
            9 => Vec2i { x: 21, y: 3 },
            11 => Vec2i { x: 0, y: 4 },
            12 => Vec2i { x: 2, y: 4 },
            13 => Vec2i { x: 4, y: 4 },
            14 => Vec2i { x: 6, y: 4 },
            15 | 16 => Vec2i { x: 1, y: 4 },
            17 => Vec2i { x: 7, y: 4 },
            18 => Vec2i { x: 3, y: 4 },
            19 => Vec2i { x: 21, y: 3 },
            21 => Vec2i { x: 8, y: 4 },
            22 => Vec2i { x: 10, y: 4 },
            23 => Vec2i { x: 12, y: 4 },
            24 => Vec2i { x: 14, y: 4 },
            25 => Vec2i { x: 9, y: 4 },
            26 => Vec2i { x: 13, y: 4 },
            27 => Vec2i { x: 15, y: 4 },
            28 => Vec2i { x: 11, y: 4 },
            29 => Vec2i { x: 21, y: 3 },
            233 => Vec2i { x: 10, y: 2 },
            263 => Vec2i { x: 18, y: 3 },
            264 => Vec2i { x: 19, y: 3 },
            40 => Vec2i { x: 6, y: 3 },
            41 => Vec2i { x: 7, y: 3 },
            58 => Vec2i { x: 8, y: 3 },
            59 => Vec2i { x: 9, y: 3 },
            91 => Vec2i { x: 10, y: 3 },
            93 => Vec2i { x: 11, y: 3 },
            45 => Vec2i { x: 12, y: 3 },
            63 => Vec2i { x: 13, y: 3 },
            33 => Vec2i { x: 14, y: 3 },
            46 => Vec2i { x: 15, y: 3 },
            47 => Vec2i { x: 16, y: 3 },
            44 => Vec2i { x: 17, y: 3 },
            42 => Vec2i { x: 20, y: 3 },
            _ => Vec2i { x: 22, y: 3 },
        }
    };
    Vec2i { x: TILE_SZ * coords.x, y: TILE_SZ * coords.y }
}

/// A glyph sheet.
pub struct Textset {
    pub image: Image,
}

impl Textset {
    /// The sheet is large enough for every glyph cell.
    pub open spec fn wf(self) -> bool {
        self.image.wf() && self.image.sz.x >= 216 && self.image.sz.y >= 40
    }

    /// The source rectangle of glyph code `c`.
    pub open spec fn spec_rect(self, c: int) -> Rect {
        Rect {
            pos: Vec2i {
                x: (8 * spec_text_cell(c).0) as i32,
                y: (8 * spec_text_cell(c).1) as i32,
            },
            sz: Vec2i { x: 8, y: 8 },
        }
    }

    pub fn new(image: Image) -> (r: Textset)
        ensures
            r.image == image,
    {
        Textset { image }
    }

    /// The source rectangle of glyph code `c`, always inside the sheet.
    pub fn get_rect(&self, c: usize) -> (r: Rect)
        requires
            self.wf(),
        ensures
            r == self.spec_rect(c as int),
            0 <= r.pos.x,
            0 <= r.pos.y,
            r.pos.x + 8 <= self.image.sz.x,
            r.pos.y + 8 <= self.image.sz.y,
            r.sz.x == 8,
            r.sz.y == 8,
    {
        proof {
            lemma_text_cell_bounds(c as int);
        }
        Rect { pos: text_coords(c), sz: Vec2i { x: TILE_SZ, y: TILE_SZ } }
    }
}

/// Split dialogue text into glyph-coded words, turn apostrophe contractions
/// and quotation marks into their private codes, and lay the words out into
/// rows of twenty glyph slots, wrapped at word boundaries and grouped in
/// pairs (the textbox shows two rows at a time). Sentence-ending glyphs
/// force a new row pair. Degenerate input is absorbed: runs of whitespace
/// collapse, a word longer than a row is truncated, and an unknown
/// apostrophe suffix becomes a space glyph.
#[verifier::loop_isolation(false)]
pub fn parse(s: &str) -> (r: Vec<[usize; 20]>)
    requires
        s@.len() <= 100000,
    ensures
        r.len() >= 2,
        r.len() % 2 == 0,
        r.len() <= 2 * s@.len() + 4,
{
    let n = s.unicode_len();
    let mut words: Vec<Vec<usize>> = Vec::new();
    let mut word: Vec<usize> = Vec::new();
    let mut a = false;
    let mut q = false;
    let mut i: usize = 0;
    while i < n
        invariant
            i <= n,
            n == s@.len(),
            word.len() <= i,
            words.len() <= i,
            forall|k: int|
                0 <= k < words.len() ==> 1 <= (#[trigger] words@[k]).len() <= 100000,
        decreases n - i,
    {
        let c = s.get_char(i);
        if c == ' ' || c == '\n' || c == '\t' || c == '\r' {
            if word.len() > 0 {
                words.push(word);
                word = Vec::new();
            }
        } else if a {
            let code: usize = match c {
                'd' => 256,
                'l' => 257,
                's' => 258,
                't' => 259,
                'v' => 260,
                'r' => 261,
                'm' => 262,
                _ => 32,
            };
            word.push(code);
            a = false;
        } else if c == '\'' {
            a = true;
        } else if c == '"' {
            if q {
                word.push(264);
                q = false;
            } else {
                word.push(263);
                q = true;
            }
        } else {
            word.push((c as u32) as usize);
        }
        i = i + 1;
    }
    if word.len() > 0 {
        words.push(word);
    }
    let mut r: Vec<[usize; 20]> = Vec::new();
    let mut nl = false;
    let mut li: usize = 0;
    let mut line: [usize; 20] = [0; 20];
    let mut w: usize = 0;
    while w < words.len()
        invariant
            w <= words.len(),
            words.len() <= n + 1,
            r.len() <= 2 * w,
            li <= 100021,
            forall|k: int|
                0 <= k < words.len() ==> 1 <= (#[trigger] words@[k]).len() <= 100000,
        decreases words.len() - w,
    {
        let cur = &words[w];
        if nl {
            r.push(line);
            if r.len() % 2 == 1 {
                r.push([0; 20]);
            }
            li = 0;
            line = [0; 20];
        } else if li + cur.len() + 1 >= 20 {
            r.push(line);
            li = 0;
            line = [0; 20];
        }
        let mut wi: usize = 0;
        while wi < cur.len()
            invariant
                wi <= cur.len(),
                li <= 100021,
            decreases cur.len() - wi,
        {
            if li + wi < 20 {
                line[li + wi] = cur[wi];
            }
            wi = wi + 1;
        }
        li = li + cur.len() + 1;
        let last = cur[cur.len() - 1];
        nl = last == 33 || last == 63 || last == 46 || last == 42;
        w = w + 1;
    }
    r.push(line);
    if r.len() % 2 == 1 {
        r.push([0; 20]);
    }
    r
}

/// Whether `r` lies fully inside the pixel surface `img`.
pub open spec fn rect_in_image(r: Rect, img: Image) -> bool {
    0 <= r.pos.x && 0 <= r.pos.y && 0 <= r.sz.x && 0 <= r.sz.y && r.pos.x + r.sz.x <= img.sz.x
        && r.pos.y + r.sz.y <= img.sz.y
}

/// The bordered dialogue box at the bottom of the screen, revealing two rows
/// of parsed text at a time.
pub struct Textbox {
    pub position: Vec2i,
    pub dims: (usize, usize),
    pub textset: Textset,
    /// Frame tiles: interior, corners, edges and the more-text arrow.
    pub base: Vec<Rect>,
    pub rows: Vec<[usize; 20]>,
    /// Index of the lower of the two revealed rows.
    pub rptr: usize,
    /// Character-reveal counter.
    pub cptr: usize,
}

impl Textbox {
    pub open spec fn wf(self) -> bool {
        self.textset.wf() && self.base.len() == 10 && (forall|k: int|
            0 <= k < 10 ==> rect_in_image(#[trigger] self.base@[k], self.textset.image)
                && self.base@[k].sz.x == 8 && self.base@[k].sz.y == 8) && (
        self.dims.0, self.dims.1) == (22usize, 6usize) && -100000 <= self.position.x <= 100000
            && -100000 <= self.position.y <= 100000
    }

    /// The box can be drawn: text is loaded and the row pointer is inside it.
    pub open spec fn can_draw(self) -> bool {
        self.rows.len() >= 2 && 1 <= self.rptr < self.rows.len()
    }


    /// The frame tile or glyph drawn at box cell `(x, y)` of the 22-by-6
    /// grid: corners, edges, the more-text arrow, the reveal-gated glyphs of
    /// the current row pair, or the interior tile.
    pub open spec fn spec_cell_frame(self, x: int, y: int) -> Rect {
        let is_last = self.rptr >= self.rows.len() - 1;
        if x == 0 && y == 0 {
            self.base@[1]
        } else if x == 21 && y == 0 {
            self.base@[2]
        } else if x == 21 && y == 5 {
            self.base@[3]
        } else if x == 0 && y == 5 {
            self.base@[4]
        } else if y == 0 {
            self.base@[5]
        } else if y == 5 {
            self.base@[6]
        } else if x == 0 {
            self.base@[7]
        } else if x == 21 {
            self.base@[8]
        } else if x == 20 && y == 4 {
            if !is_last {
                self.base@[9]
            } else {
                self.base@[0]
            }
        } else if y == 2 {
            if TSPEED * (x - 1) <= self.cptr {
                self.textset.spec_rect(self.rows@[self.rptr - 1]@[x - 1] as int)
            } else {
                self.base@[0]
            }
        } else if y == 4 {
            if TSPEED * (x + 19) <= self.cptr {
                self.textset.spec_rect(self.rows@[self.rptr as int]@[x - 1] as int)
            } else {
                self.base@[0]
            }
        } else {
            self.base@[0]
        }
    }

    /// A fresh textbox over the glyph sheet, using the first ten frame tiles.
    #[verifier::loop_isolation(false)]
    pub fn new(textset: Textset) -> (r: Textbox)
        requires
            textset.wf(),
        ensures
            r.wf(),
            r.textset == textset,
            r.rows.len() == 0,
            r.rptr == 1,
            r.cptr == 0,
    {
        let mut base: Vec<Rect> = Vec::new();
        let mut k: usize = 0;
        while k < 10
            invariant
                k <= 10,
                base.len() == k,
                forall|j: int|
                    0 <= j < k ==> rect_in_image(#[trigger] base@[j], textset.image) && base@[
                    j].sz.x == 8 && base@[j].sz.y == 8,
            decreases 10 - k,
        {
            base.push(textset.get_rect(k));
            k = k + 1;
        }
        Textbox {
            position: Vec2i { x: 0, y: (HEIGHT as i32) - 48 },
            dims: (22, 6),
            textset,
            base,
            rows: Vec::new(),
            rptr: 1,
            cptr: 0,
        }
    }

    /// Switch the frame tiles to the level's row of the glyph sheet.
    #[verifier::loop_isolation(false)]
    pub fn set_base(&mut self, level: usize)
        requires
            old(self).wf(),
            level <= 1000,
        ensures
            final(self).wf(),
            final(self).position == old(self).position,
            final(self).dims == old(self).dims,
            final(self).textset == old(self).textset,
            final(self).rows == old(self).rows,
            final(self).rptr == old(self).rptr,
            final(self).cptr == old(self).cptr,
            final(self).base.len() == 10,
            forall|j: int|
                0 <= j < 10 ==> #[trigger] final(self).base@[j] == old(self).textset.spec_rect(
                    10 * level + j,
                ),
    {
        let mut base: Vec<Rect> = Vec::new();
        let mut k: usize = 0;
        while k < 10
            invariant
                k <= 10,
                base.len() == k,
                forall|j: int|
                    0 <= j < k ==> rect_in_image(#[trigger] base@[j], self.textset.image) && base@[
                    j].sz.x == 8 && base@[j].sz.y == 8,
                forall|j: int|
                    0 <= j < k ==> #[trigger] base@[j] == self.textset.spec_rect(10 * level + j),
            decreases 10 - k,
        {
            base.push(self.textset.get_rect(10 * level + k));
            k = k + 1;
        }
        self.base = base;
    }

    /// Load a dialogue line: parse it and reset both reveal pointers.
    pub fn set_text(&mut self, text: &str)
        requires
            old(self).wf(),
            text@.len() <= 100000,
        ensures
            final(self).wf(),
            final(self).can_draw(),
            final(self).rptr == 1,
            final(self).cptr == 0,
            final(self).rows.len() >= 2,
            final(self).rows.len() % 2 == 0,
            final(self).rows.len() <= 2 * text@.len() + 4,
            final(self).position == old(self).position,
            final(self).dims == old(self).dims,
            final(self).textset == old(self).textset,
            final(self).base == old(self).base,
    {
        self.cptr = 0;
        self.rows = parse(text);
        self.rptr = 1;
    }

    /// Advance to the next pair of rows; true iff more text remains.
    pub fn scroll(&mut self) -> (r: bool)
        requires
            old(self).rptr + 2 <= usize::MAX,
        ensures
            final(self).rptr == old(self).rptr + 2,
            final(self).cptr == 0,
            final(self).rows == old(self).rows,
            final(self).position == old(self).position,
            final(self).dims == old(self).dims,
            final(self).textset == old(self).textset,
            final(self).base == old(self).base,
            r == (final(self).rptr < final(self).rows.len()),
    {
        self.cptr = 0;
        self.rptr = self.rptr + 2;
        self.rptr < self.rows.len()
    }

    /// Draw the bordered box and the revealed prefix of the current row
    /// pair.
    #[verifier::loop_isolation(false)]
    pub fn draw(&self, screen: &mut Image)
        requires
            self.wf(),
            self.can_draw(),
            old(screen).wf(),
        ensures
            final(screen).wf(),
            final(screen).sz == old(screen).sz,
            final(screen).buffer@ == spec_draw_box(
                *self,
                old(screen).buffer@,
                old(screen).sz.x as int,
                old(screen).sz.y as int,
                132,
            ),
    {
        let ghost sw = screen.sz.x as int;
        let ghost sh = screen.sz.y as int;
        let is_last = self.rptr >= self.rows.len() - 1;
        let mut y: usize = 0;
        while y < self.dims.1
            invariant
                screen.wf(),
                screen.sz == old(screen).sz,
                y <= 6,
                screen.buffer@ == spec_draw_box(*self, old(screen).buffer@, sw, sh, 22 * y),
            decreases self.dims.1 - y,
        {
            let ypx = (y as i32) * TILE_SZ + self.position.y;
            let mut x: usize = 0;
            while x < self.dims.0
                invariant
                    screen.wf(),
                    screen.sz == old(screen).sz,
                    y < 6,
                    x <= 22,
                    screen.buffer@ == spec_draw_box(
                        *self,
                        old(screen).buffer@,
                        sw,
                        sh,
                        22 * y + x,
                    ),
                decreases self.dims.0 - x,
            {
                let xpx = (x as i32) * TILE_SZ + self.position.x;
                let frame: Rect = if x == 0 && y == 0 {
                    self.base[1]
                } else if x == 21 && y == 0 {
                    self.base[2]
                } else if x == 21 && y == 5 {
                    self.base[3]
                } else if x == 0 && y == 5 {
                    self.base[4]
                } else if y == 0 {
                    self.base[5]
                } else if y == 5 {
                    self.base[6]
                } else if x == 0 {
                    self.base[7]
                } else if x == 21 {
                    self.base[8]
                } else if x == 20 && y == 4 {
                    if !is_last {
                        self.base[9]
                    } else {
                        self.base[0]
                    }
                } else if y == 2 {
                    if TSPEED * (x - 1) <= self.cptr {
                        self.textset.get_rect(self.rows[self.rptr - 1][x - 1])
                    } else {
                        self.base[0]
                    }
                } else if y == 4 {
                    if TSPEED * (x + 19) <= self.cptr {
                        self.textset.get_rect(self.rows[self.rptr][x - 1])
                    } else {
                        self.base[0]
                    }
                } else {
                    self.base[0]
                };
                proof {
                    lemma_grid_index(22, 6, x as int, y as int);
                    assert(frame == self.spec_cell_frame(x as int, y as int));
                }
                screen.bitblt(&self.textset.image, frame, Vec2i { x: xpx, y: ypx });
                proof {
                    assert(screen.buffer@ == spec_draw_box(
                        *self,
                        old(screen).buffer@,
                        sw,
                        sh,
                        22 * y + x + 1,
                    ));
                }
                x = x + 1;
            }
            y = y + 1;
        }
    }
}


/// The pure effect of drawing the first `n` cells of the textbox (row-major
/// over its 22-by-6 grid) onto a `dw`-by-`dh` buffer.
pub open spec fn spec_draw_box(t: Textbox, dst: Seq<Color>, dw: int, dh: int, n: int) -> Seq<Color>
    decreases n,
{
    if n <= 0 {
        dst
    } else {
        let k = n - 1;
        let x = k % 22;
        let y = k / 22;
        spec_blit(
            spec_draw_box(t, dst, dw, dh, k),
            dw,
            dh,
            t.textset.image,
            t.spec_cell_frame(x, y),
            Vec2i { x: (8 * x + t.position.x) as i32, y: (8 * y + t.position.y) as i32 },
        )
    }
}


/// The pure effect of the first `n` wipe cells (column-major over the
/// 22-by-22 tile grid): every tile whose wipe order has been reached by
/// `animc` is overwritten with transparent black.
pub open spec fn spec_wipe(animc: int, dst: Seq<Color>, dw: int, dh: int, n: int) -> Seq<Color>
    decreases n,
{
    if n <= 0 {
        dst
    } else {
        let k = n - 1;
        let x = k / 22;
        let y = k % 22;
        let base = spec_wipe(animc, dst, dw, dh, k);
        if WIPENUM - (22 * y + x) < animc {
            spec_fill_rect(
                base,
                dw,
                dh,
                Rect { pos: Vec2i { x: (8 * x) as i32, y: (8 * y) as i32 }, sz: Vec2i { x: 8, y: 8 } },
                (0u8, 0u8, 0u8, 0u8),
            )
        } else {
            base
        }
    }
}

/// The pure effect of the text screen's first `n` columns on a cleared
/// buffer: per column, the reveal-gated glyph of the upper row at y = 80
/// and of the lower row at y = 88.
pub open spec fn spec_screen_cols(t: Textscreen, dst: Seq<Color>, dw: int, dh: int, n: int) -> Seq<
    Color,
>
    decreases n,
{
    if n <= 0 {
        dst
    } else {
        let base = spec_screen_cols(t, dst, dw, dh, n - 1);
        let xpx = (8 * n + t.position.x) as i32;
        let top = if TSPEED * (n - 1) <= t.cptr {
            spec_blit(
                base,
                dw,
                dh,
                t.textset.image,
                t.textset.spec_rect(t.rows@[t.rptr - 1]@[n - 1] as int),
                Vec2i { x: xpx, y: 80 },
            )
        } else {
            base
        };
        if TSPEED * (n + 19) <= t.cptr {
            spec_blit(
                top,
                dw,
                dh,
                t.textset.image,
                t.textset.spec_rect(t.rows@[t.rptr as int]@[n - 1] as int),
                Vec2i { x: xpx, y: 88 },
            )
        } else {
            top
        }
    }
}

/// A full-screen text display with a tile-wipe transition animation.
pub struct Textscreen {
    pub position: Vec2i,
    pub textset: Textset,
    pub rows: Vec<[usize; 20]>,
    pub rptr: usize,
    pub cptr: usize,
    /// Wipe animation counter; the wipe runs while `0 < animc < WIPENUM`.
    pub animc: i32,
}

impl Textscreen {
    pub open spec fn wf(self) -> bool {
        self.textset.wf() && -100000 <= self.position.x <= 100000 && -100000 <= self.position.y
            <= 100000
    }

    pub open spec fn can_draw(self) -> bool {
        self.rows.len() >= 2 && 1 <= self.rptr < self.rows.len()
    }

    pub fn new(textset: Textset, text: &str) -> (r: Textscreen)
        requires
            textset.wf(),
            text@.len() <= 100000,
        ensures
            r.wf(),
            r.can_draw(),
            r.textset == textset,
            r.rptr == 1,
            r.cptr == 0,
            r.animc == 242,
            r.rows.len() <= 2 * text@.len() + 4,
    {
        let rows = parse(text);
        Textscreen {
            position: Vec2i { x: 0, y: (HEIGHT as i32) - 48 },
            textset,
            rows,
            rptr: 1,
            cptr: 0,
            animc: 242,
        }
    }

    /// Load a new text: parse it and reset both reveal pointers.
    pub fn set_text(&mut self, text: &str)
        requires
            old(self).wf(),
            text@.len() <= 100000,
        ensures
            final(self).wf(),
            final(self).can_draw(),
            final(self).rptr == 1,
            final(self).cptr == 0,
            final(self).rows.len() >= 2,
            final(self).rows.len() % 2 == 0,
            final(self).rows.len() <= 2 * text@.len() + 4,
            final(self).position == old(self).position,
            final(self).textset == old(self).textset,
            final(self).animc == old(self).animc,
    {
        self.cptr = 0;
        self.rows = parse(text);
        self.rptr = 1;
    }

    /// Advance to the next pair of rows; true iff more text remains.
    pub fn scroll(&mut self) -> (r: bool)
        requires
            old(self).rptr + 2 <= usize::MAX,
        ensures
            final(self).rptr == old(self).rptr + 2,
            final(self).cptr == 0,
            final(self).rows == old(self).rows,
            final(self).position == old(self).position,
            final(self).textset == old(self).textset,
            final(self).animc == old(self).animc,
            r == (final(self).rptr < final(self).rows.len()),
    {
        self.cptr = 0;
        self.rptr = self.rptr + 2;
        self.rptr < self.rows.len()
    }

    /// Paint the wipe: every tile of the 22-by-22 grid whose wipe order has
    /// been reached by `animc` is blacked out.
    #[verifier::loop_isolation(false)]
    pub fn anim(&self, screen: &mut Image)
        requires
            old(screen).wf(),
        ensures
            final(screen).wf(),
            final(screen).sz == old(screen).sz,
            final(screen).buffer@ == spec_wipe(
                self.animc as int,
                old(screen).buffer@,
                old(screen).sz.x as int,
                old(screen).sz.y as int,
                484,
            ),
    {
        let ghost sw = screen.sz.x as int;
        let ghost sh = screen.sz.y as int;
        let mut x: i32 = 0;
        while x < 22
            invariant
                screen.wf(),
                screen.sz == old(screen).sz,
                0 <= x <= 22,
                screen.buffer@ == spec_wipe(
                    self.animc as int,
                    old(screen).buffer@,
                    sw,
                    sh,
                    22 * x,
                ),
            decreases 22 - x,
        {
            let mut y: i32 = 0;
            while y < 22
                invariant
                    screen.wf(),
                    screen.sz == old(screen).sz,
                    0 <= x <= 22,
                    0 <= y <= 22,
                    screen.buffer@ == spec_wipe(
                        self.animc as int,
                        old(screen).buffer@,
                        sw,
                        sh,
                        22 * x + y,
                    ),
                decreases 22 - y,
            {
                proof {
                    lemma_grid_index(22, 22, y as int, x as int);
                }
                if WIPENUM - (22 * y + x) < self.animc {
                    screen.draw_rect(
                        &(Rect { pos: Vec2i { x: 8 * x, y: 8 * y }, sz: Vec2i { x: 8, y: 8 } }),
                        (0, 0, 0, 0),
                    );
                }
                proof {
                    assert(screen.buffer@ == spec_wipe(
                        self.animc as int,
                        old(screen).buffer@,
                        sw,
                        sh,
                        22 * x + y + 1,
                    ));
                }
                y = y + 1;
            }
            x = x + 1;
        }
    }

    /// Clear the screen and draw the revealed prefix of the current row
    /// pair.
    #[verifier::loop_isolation(false)]
    pub fn draw(&self, screen: &mut Image)
        requires
            self.wf(),
            self.can_draw(),
            old(screen).wf(),
        ensures
            final(screen).wf(),
            final(screen).sz == old(screen).sz,
            final(screen).buffer@ == spec_screen_cols(
                *self,
                Seq::new(old(screen).buffer@.len(), |i: int| (0u8, 0u8, 0u8, 0u8)),
                old(screen).sz.x as int,
                old(screen).sz.y as int,
                20,
            ),
    {
        let ghost sw = screen.sz.x as int;
        let ghost sh = screen.sz.y as int;
        let ghost cleared = Seq::new(
            old(screen).buffer@.len(),
            |i: int| (0u8, 0u8, 0u8, 0u8),
        );
        screen.clear((0, 0, 0, 0));
        proof {
            assert(screen.buffer@ =~= cleared);
        }
        let mut x: usize = 1;
        while x <= 20
            invariant
                screen.wf(),
                screen.sz == old(screen).sz,
                1 <= x <= 21,
                screen.buffer@ == spec_screen_cols(*self, cleared, sw, sh, x - 1),
            decreases 21 - x,
        {
            let xpx = (x as i32) * TILE_SZ + self.position.x;
            if TSPEED * (x - 1) <= self.cptr {
                screen.bitblt(
                    &self.textset.image,
                    self.textset.get_rect(self.rows[self.rptr - 1][x - 1]),
                    Vec2i { x: xpx, y: 80 },
                );
            }
            if TSPEED * (x + 19) <= self.cptr {
                screen.bitblt(
                    &self.textset.image,
                    self.textset.get_rect(self.rows[self.rptr][x - 1]),
                    Vec2i { x: xpx, y: 88 },
                );
            }
            proof {
                assert(screen.buffer@ == spec_screen_cols(*self, cleared, sw, sh, x as int));
            }
            x = x + 1;
        }
    }
}

} // verus!
