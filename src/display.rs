use vstd::prelude::*;

use crate::data::Datum;

verus! {

pub const DISPLAY_WIDTH: usize = 64;

pub const DISPLAY_HEIGHT: usize = 32;

/// How many pixels the display has.
pub const DISPLAY_PIXELS: usize = 2048;

/// Bit `c` of `b`, counting from the most significant bit.
pub open spec fn bit_of(b: u8, c: int) -> bool {
    (b >> ((7 - c) as u8)) & 1u8 == 1u8
}

/// The sprite row that pixel `p` falls in, for a sprite whose top is `y`.
pub open spec fn row_of(y: u8, p: int) -> int {
    (p / 64 + 32 - (y as int) % 32) % 32
}

/// The sprite column that pixel `p` falls in, for a sprite whose left is `x`.
pub open spec fn col_of(x: u8, p: int) -> int {
    (p % 64 + 64 - (x as int) % 64) % 64
}

/// Whether the sprite `data` drawn at `(x, y)`, wrapping at the edges, has a
/// set bit over pixel `p`.
pub open spec fn sprite_hits(data: Seq<Datum>, x: u8, y: u8, p: int) -> bool {
    row_of(y, p) < data.len() && col_of(x, p) < 8 && bit_of(data[row_of(y, p)].0, col_of(x, p))
}

/// The pixels after drawing: each pixel the sprite hits is flipped.
pub open spec fn spec_draw(pixels: Seq<bool>, data: Seq<Datum>, x: u8, y: u8) -> Seq<bool> {
    Seq::new(pixels.len(), |p: int| pixels[p] != sprite_hits(data, x, y, p))
}

/// Whether drawing turns off a pixel that was on.
pub open spec fn spec_collides(pixels: Seq<bool>, data: Seq<Datum>, x: u8, y: u8) -> bool {
    exists|p: int| 0 <= p < pixels.len() && pixels[p] && sprite_hits(data, x, y, p)
}

/// Whether the sprite hits any pixel.
pub open spec fn spec_touches(data: Seq<Datum>, x: u8, y: u8) -> bool {
    exists|p: int| 0 <= p < DISPLAY_PIXELS && sprite_hits(data, x, y, p)
}

/// What a sprite did to the screen.
#[derive(Debug, Copy, Clone, PartialEq, Eq, Structural)]
pub enum ScreenModification {
    /// The sprite has no set bit.
    Nothing,
    /// Pixels were turned on and none off.
    Sets,
    /// At least one pixel was turned off.
    Clears,
}

impl ScreenModification {
    /// The outcome of a draw over `pixels`.
    pub open spec fn of_draw(pixels: Seq<bool>, data: Seq<Datum>, x: u8, y: u8) -> Self {
        if spec_collides(pixels, data, x, y) {
            ScreenModification::Clears
        } else if spec_touches(data, x, y) {
            ScreenModification::Sets
        } else {
            ScreenModification::Nothing
        }
    }

    /// Records that a pixel was set.
    pub fn set(&mut self)
        ensures
            *final(self) == if *old(self) == ScreenModification::Nothing {
                ScreenModification::Sets
            } else {
                *old(self)
            },
    {
        if *self == ScreenModification::Nothing {
            *self = ScreenModification::Sets;
        }
    }

    /// Records that a pixel was cleared.
    pub fn clear(&mut self)
        ensures
            *final(self) == ScreenModification::Clears,
    {
        *self = ScreenModification::Clears;
    }
}

/// The pixel that sprite row `r`, column `c` lands on, for a sprite at
/// `(x, y)`, is the one whose `row_of`/`col_of` are `r` and `c`.
#[verifier::rlimit(50)]
pub proof fn lemma_pixel_of(x: u8, y: u8, r: int, c: int, p: int)
    requires
        0 <= r < 32,
        0 <= c < 64,
        0 <= p < DISPLAY_PIXELS,
    ensures
        (p == ((y as int + r) % 32) * 64 + (x as int + c) % 64) <==> (row_of(y, p) == r && col_of(
            x,
            p,
        ) == c),
{
    let py = p / 64;
    let px = p % 64;
    assert(p == py * 64 + px);
    assert(0 <= py < 32);
    let ty = (y as int + r) % 32;
    let tx = (x as int + c) % 64;
    assert((py + 32 - (y as int) % 32) % 32 == r <==> py == ty) by {
        assert((y as int) % 32 + (y as int) / 32 * 32 == y as int);
    }
    assert((px + 64 - (x as int) % 64) % 64 == c <==> px == tx) by {
        assert((x as int) % 64 + (x as int) / 64 * 64 == x as int);
    }
    if py == ty && px == tx {
        assert(p == ty * 64 + tx);
    }
    if p == ty * 64 + tx {
        assert(0 <= tx < 64);
        assert(p / 64 == ty) by (nonlinear_arith)
            requires
                p == ty * 64 + tx,
                0 <= tx < 64,
        ;
        assert(p % 64 == tx) by (nonlinear_arith)
            requires
                p == ty * 64 + tx,
                0 <= tx < 64,
        ;
    }
}

/// Drawing the same sprite twice at the same place restores every pixel; the
/// second draw reports a collision exactly where the sprite covers a pixel that
/// was off before the first, so always on a blank screen if the sprite has a
/// set bit where every pixel it covers was off (as on a blank screen), while
/// that first draw only sets pixels.
pub proof fn lemma_draw_twice(pixels: Seq<bool>, data: Seq<Datum>, x: u8, y: u8)
    requires
        pixels.len() == DISPLAY_PIXELS,
    ensures
        spec_draw(spec_draw(pixels, data, x, y), data, x, y) == pixels,
        spec_collides(spec_draw(pixels, data, x, y), data, x, y) <==> exists|p: int|
            0 <= p < DISPLAY_PIXELS && !pixels[p] && sprite_hits(data, x, y, p),
        (forall|p: int| 0 <= p < DISPLAY_PIXELS && #[trigger] sprite_hits(data, x, y, p) ==> !pixels[p])
            ==> (spec_touches(data, x, y) <==> ScreenModification::of_draw(
            spec_draw(pixels, data, x, y),
            data,
            x,
            y,
        ) == ScreenModification::Clears),
        (forall|p: int| 0 <= p < DISPLAY_PIXELS && #[trigger] sprite_hits(data, x, y, p) ==> !pixels[p])
            && spec_touches(data, x, y) ==> ScreenModification::of_draw(pixels, data, x, y)
            == ScreenModification::Sets,
{
    let once = spec_draw(pixels, data, x, y);
    assert(spec_draw(once, data, x, y) =~= pixels);
    if spec_collides(once, data, x, y) {
        let p = choose|p: int| 0 <= p < once.len() && once[p] && sprite_hits(data, x, y, p);
        assert(0 <= p < DISPLAY_PIXELS && !pixels[p] && sprite_hits(data, x, y, p));
    }
    if exists|p: int| 0 <= p < DISPLAY_PIXELS && !pixels[p] && sprite_hits(data, x, y, p) {
        let p = choose|p: int| 0 <= p < DISPLAY_PIXELS && !pixels[p] && sprite_hits(data, x, y, p);
        assert(once[p]);
    }
    if forall|p: int| 0 <= p < DISPLAY_PIXELS && #[trigger] sprite_hits(data, x, y, p) ==> !pixels[p] {
        if spec_touches(data, x, y) {
            let p = choose|p: int| 0 <= p < DISPLAY_PIXELS && sprite_hits(data, x, y, p);
            assert(once[p]);
        }
        if spec_collides(once, data, x, y) {
            let p = choose|p: int| 0 <= p < once.len() && once[p] && sprite_hits(data, x, y, p);
            assert(0 <= p < DISPLAY_PIXELS && sprite_hits(data, x, y, p));
        }
    }
}

/// The monochrome screen: `DISPLAY_HEIGHT` rows of `DISPLAY_WIDTH` pixels,
/// row by row, `true` for a lit pixel.
#[derive(Debug, Clone)]
pub struct Display(Vec<bool>);

impl Display {
    pub closed spec fn view(&self) -> Seq<bool> {
        self.0@
    }

    /// One entry per pixel.
    pub open spec fn wf(&self) -> bool {
        self@.len() == DISPLAY_PIXELS
    }

    /// A screen with every pixel off.
    pub fn blank() -> (r: Self)
        ensures
            r@ == Seq::new(DISPLAY_PIXELS as nat, |p: int| false),
            r.wf(),
    {
        let mut v: Vec<bool> = Vec::new();
        let mut i: usize = 0;
        while i < DISPLAY_PIXELS
            invariant
                i <= DISPLAY_PIXELS,
                v@ == Seq::new(i as nat, |p: int| false),
            decreases DISPLAY_PIXELS - i,
        {
            v.push(false);
            i = i + 1;
        }
        Display(v)
    }

    /// The pixels, row by row.
    pub fn raw(&self) -> (r: &Vec<bool>)
        ensures
            r@ == self@,
    {
        &self.0
    }

    /// A copy of the screen.
    pub fn snapshot(&self) -> (r: Display)
        ensures
            r@ == self@,
    {
        let mut v: Vec<bool> = Vec::new();
        let mut i: usize = 0;
        while i < self.0.len()
            invariant
                i <= self@.len(),
                v@ == self@.take(i as int),
            decreases self@.len() - i,
        {
            v.push(self.0[i]);
            proof {
                assert(self@.take(i + 1) == self@.take(i as int).push(self@[i as int]));
            }
            i = i + 1;
        }
        proof {
            assert(self@.take(self@.len() as int) == self@);
        }
        Display(v)
    }

    /// Whether the pixel at column `x`, row `y` is lit.
    pub fn pixel_at(&self, x: usize, y: usize) -> (r: bool)
        requires
            self.wf(),
            x < DISPLAY_WIDTH,
            y < DISPLAY_HEIGHT,
        ensures
            r == self@[y * 64 + x],
    {
        self.0[y * DISPLAY_WIDTH + x]
    }

    /// Turns every pixel off.
    pub fn clear(&mut self)
        ensures
            final(self)@ == Seq::new(DISPLAY_PIXELS as nat, |p: int| false),
            final(self).wf(),
    {
        *self = Self::blank();
    }

    /// XORs the sprite `data` onto the screen with its top left at `(x, y)`,
    /// wrapping at the edges; tells whether a lit pixel was turned off. A
    /// sprite has at most as many rows as the screen (the instruction encodes
    /// at most fifteen), so no row wraps onto another.
    pub fn sprite(&mut self, x: Datum, y: Datum, data: &Vec<Datum>) -> (r: ScreenModification)
        requires
            old(self).wf(),
            data@.len() <= DISPLAY_HEIGHT,
        ensures
            final(self).wf(),
            final(self)@ == spec_draw(old(self)@, data@, x.0, y.0),
            r == ScreenModification::of_draw(old(self)@, data@, x.0, y.0),
    {
        let ghost start = self@;
        let mut modified = ScreenModification::Nothing;
        let mut collided = false;
        let mut row: usize = 0;
        while row < data.len()
            invariant
                start.len() == DISPLAY_PIXELS,
                self.wf(),
                row <= data@.len(),
                data@.len() <= DISPLAY_HEIGHT,
                forall|p: int|
                    0 <= p < DISPLAY_PIXELS ==> #[trigger] self@[p] == (start[p] != (sprite_hits(
                        data@,
                        x.0,
                        y.0,
                        p,
                    ) && row_of(y.0, p) < row)),
                collided == exists|p: int|
                    0 <= p < DISPLAY_PIXELS && start[p] && sprite_hits(data@, x.0, y.0, p)
                        && row_of(y.0, p) < row,
                (modified == ScreenModification::Nothing) == !exists|p: int|
                    0 <= p < DISPLAY_PIXELS && sprite_hits(data@, x.0, y.0, p) && row_of(y.0, p)
                        < row,
                (modified == ScreenModification::Clears) == collided,
            decreases data@.len() - row,
        {
            let byte = data[row].0;
            let mut col: usize = 0;
            while col < 8
                invariant
                    start.len() == DISPLAY_PIXELS,
                    self.wf(),
                    row < data@.len(),
                    data@.len() <= DISPLAY_HEIGHT,
                    byte == data@[row as int].0,
                    col <= 8,
                    forall|p: int|
                        0 <= p < DISPLAY_PIXELS ==> #[trigger] self@[p] == (start[p] != (
                        sprite_hits(data@, x.0, y.0, p) && (row_of(y.0, p) < row || (row_of(
                            y.0,
                            p,
                        ) == row && col_of(x.0, p) < col)))),
                    collided == exists|p: int|
                        0 <= p < DISPLAY_PIXELS && start[p] && sprite_hits(data@, x.0, y.0, p) && (
                        row_of(y.0, p) < row || (row_of(y.0, p) == row && col_of(x.0, p) < col)),
                    (modified == ScreenModification::Nothing) == !exists|p: int|
                        0 <= p < DISPLAY_PIXELS && sprite_hits(data@, x.0, y.0, p) && (row_of(
                            y.0,
                            p,
                        ) < row || (row_of(y.0, p) == row && col_of(x.0, p) < col)),
                    (modified == ScreenModification::Clears) == collided,
                decreases 8 - col,
            {
                let bit = (byte >> ((7 - col) as u8)) & 1u8 == 1u8;
                let py = (y.0 as usize + row) % DISPLAY_HEIGHT;
                let px = (x.0 as usize + col) % DISPLAY_WIDTH;
                let q = py * DISPLAY_WIDTH + px;
                proof {
                    assert forall|p: int| 0 <= p < DISPLAY_PIXELS implies (p == q) <==> (row_of(
                        y.0,
                        p,
                    ) == row && col_of(x.0, p) == col) by {
                        lemma_pixel_of(x.0, y.0, row as int, col as int, p);
                    }
                    assert(row_of(y.0, q as int) == row && col_of(x.0, q as int) == col);
                    assert(sprite_hits(data@, x.0, y.0, q as int) == bit);
                }
                if bit {
                    modified.set();
                    let was = self.0[q];
                    self.0.set(q, !was);
                    if was {
                        modified.clear();
                        collided = true;
                    }
                }
                col = col + 1;
            }
            row = row + 1;
        }
        proof {
            assert(self@ =~= spec_draw(start, data@, x.0, y.0));
        }
        modified
    }
}

} // verus!
