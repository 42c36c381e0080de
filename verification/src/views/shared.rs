//! Scrolling background layers.

use vstd::prelude::*;
use vstd::arithmetic::div_mod::{
    lemma_fundamental_div_mod, lemma_fundamental_div_mod_converse, lemma_mod_bound,
    lemma_mod_pos_bound, lemma_small_mod,
};
use crate::phi::arith::modulo;
use crate::phi::data::Rectangle;
use crate::phi::gfx::Sprite;

verus! {

/// Thousandths of a pixel in a pixel: moving entities are placed in
/// thousandths of a pixel, so that a speed in pixels a second times a time
/// in milliseconds is a distance with nothing rounded away.
pub const SUBPIXELS: i64 = 1000;

/// The image of the farthest layer of the star field.
pub const BACK_PATH: &'static str = "assets/starBG.png";

/// The image of the middle layer of the star field.
pub const MIDDLE_PATH: &'static str = "assets/starMG.png";

/// The image of the nearest layer of the star field.
pub const FRONT_PATH: &'static str = "assets/starFG.png";

/// A layer that scrolls to the left. `pos` is how far it has scrolled, in
/// thousandths of a pixel of the sprite; `vel` is its speed in pixels of the
/// sprite a second, negative to scroll to the right.
#[derive(Clone, Copy, Debug)]
pub struct Background {
    pub pos: i64,
    pub vel: i32,
    pub sprite: Sprite,
}

/// The offset after `elapsed` milliseconds: the layer moves on, and the
/// offset wraps round the sprite's width.
pub open spec fn spec_advance(pos: int, vel: int, elapsed: int, sprite_w: int) -> int
    recommends
        sprite_w > 0,
{
    (pos + vel * elapsed) % (sprite_w * SUBPIXELS)
}

/// The width on screen, in pixels, of one copy of a sprite `sprite_w` by
/// `sprite_h` that is scaled to the height `win_h`, rounded down.
pub open spec fn spec_tile_width(sprite_w: int, sprite_h: int, win_h: int) -> int
    recommends
        sprite_h > 0,
{
    (sprite_w * win_h) / sprite_h
}

/// The left edge on screen, in pixels, of the first copy of a layer that has
/// scrolled by `pos`: the offset scaled as the sprite is, rounded down, to
/// the left of the screen's edge.
pub open spec fn spec_first_left(pos: int, sprite_h: int, win_h: int) -> int
    recommends
        sprite_h > 0,
        pos >= 0,
{
    -((pos * win_h) / (sprite_h * SUBPIXELS))
}

/// The left edge of the `k`-th copy of the layer on a screen `win_h` high:
/// the copies lie side by side.
pub open spec fn spec_tile_left(bg: Background, win_h: int, k: int) -> int {
    spec_first_left(bg.pos as int, bg.sprite.src.h as int, win_h) + k * spec_tile_width(
        bg.sprite.src.w as int,
        bg.sprite.src.h as int,
        win_h,
    )
}

/// The `k`-th copy of the layer on a screen `win_h` high.
pub open spec fn spec_tile(bg: Background, win_h: int, k: int) -> Rectangle {
    Rectangle {
        x: spec_tile_left(bg, win_h, k) as i64,
        y: 0,
        w: spec_tile_width(bg.sprite.src.w as int, bg.sprite.src.h as int, win_h) as u64,
        h: win_h as u64,
    }
}

/// Whether one of the rectangles lies over the column `column` of the
/// screen.
pub open spec fn spec_covers(tiles: Seq<Rectangle>, column: int) -> bool {
    exists|k: int| 0 <= k < tiles.len() && (#[trigger] tiles[k]).x <= column < tiles[k].x + tiles[k].w
}

impl Background {
    /// The sprite lies in a texture and is not empty, and the offset is
    /// within the sprite's width.
    pub open spec fn wf(self) -> bool {
        &&& self.sprite.wf()
        &&& self.sprite.src.w > 0
        &&& self.sprite.src.h > 0
        &&& 0 <= self.pos < self.sprite.src.w * SUBPIXELS
    }

    /// A copy of the sprite scaled to the height `win_h` is at least a
    /// pixel wide, and its width can be counted in an `i64`.
    pub open spec fn fits(self, win_h: u32) -> bool {
        1 <= spec_tile_width(self.sprite.src.w as int, self.sprite.src.h as int, win_h as int)
            <= i64::MAX
    }

    /// Scrolls the layer by the distance it covers in `elapsed`
    /// milliseconds.
    pub fn advance(&mut self, elapsed: u32)
        requires
            old(self).sprite.wf(),
            old(self).sprite.src.w > 0,
        ensures
            final(self).pos == spec_advance(
                old(self).pos as int,
                old(self).vel as int,
                elapsed as int,
                old(self).sprite.src.w as int,
            ),
            0 <= final(self).pos < old(self).sprite.src.w * SUBPIXELS,
            final(self).vel == old(self).vel,
            final(self).sprite == old(self).sprite,
    {
        assert(-0x8000_0000_0000_0000 < (self.vel as int) * (elapsed as int)
            < 0x7fff_ffff_ffff_ffff) by (nonlinear_arith)
            requires
                -0x8000_0000 <= (self.vel as int) < 0x8000_0000,
                0 <= (elapsed as int) < 0x1_0000_0000,
        ;
        let moved: i128 = self.pos as i128 + (self.vel as i128) * (elapsed as i128);
        let width: i128 = (self.sprite.src.w as i128) * 1000;
        self.pos = modulo(moved, width) as i64;
    }

    /// The places on a screen `win_w` by `win_h` pixels at which the layer's
    /// sprite is drawn, from left to right: copies side by side, scaled to
    /// the screen's height, from the first one's left edge on, as many as
    /// begin to the left of the screen's right edge. Together they cover the
    /// screen from side to side.
    pub fn tiles(&self, win_w: u32, win_h: u32) -> (r: Vec<Rectangle>)
        requires
            self.wf(),
            self.fits(win_h),
        ensures
            forall|k: int| 0 <= k < r@.len() ==> r@[k] == spec_tile(*self, win_h as int, k),
            forall|k: int|
                0 <= k < r@.len() ==> (#[trigger] r@[k]).x == spec_tile_left(*self, win_h as int, k),
            forall|k: int| 0 <= k < r@.len() ==> (#[trigger] r@[k]).x < win_w,
            spec_tile_left(*self, win_h as int, r@.len() as int) >= win_w,
            forall|column: int| 0 <= column < win_w ==> #[trigger] spec_covers(r@, column),
    {
        let sprite_w: u64 = self.sprite.src.w;
        let sprite_h: u64 = self.sprite.src.h;
        assert(0 <= sprite_w * win_h < 0x1_0000_0000_0000_0000) by (nonlinear_arith)
            requires
                0 <= sprite_w < 0x1_0000_0000,
                0 <= win_h < 0x1_0000_0000,
        ;
        let tile_w: u64 = (sprite_w * (win_h as u64)) / sprite_h;
        let left: i64 = first_left(self.pos, sprite_w, sprite_h, win_h);
        let ghost left0: int = left as int;
        let mut tiles: Vec<Rectangle> = Vec::new();
        let mut x: i128 = left as i128;
        assert(tiles@.len() * tile_w == 0) by (nonlinear_arith)
            requires
                tiles@.len() == 0,
        ;
        while x < win_w as i128
            invariant
                self.wf(),
                1 <= tile_w <= i64::MAX,
                tile_w == spec_tile_width(
                    self.sprite.src.w as int,
                    self.sprite.src.h as int,
                    win_h as int,
                ),
                left0 == spec_first_left(self.pos as int, self.sprite.src.h as int, win_h as int),
                i64::MIN <= left0 <= 0,
                x == left0 + tiles@.len() * tile_w,
                x == spec_tile_left(*self, win_h as int, tiles@.len() as int),
                forall|k: int| 0 <= k < tiles@.len() ==> tiles@[k] == spec_tile(*self, win_h as int, k),
                forall|k: int|
                    0 <= k < tiles@.len() ==> (#[trigger] tiles@[k]).x == spec_tile_left(
                        *self,
                        win_h as int,
                        k,
                    ),
                forall|k: int| 0 <= k < tiles@.len() ==> (#[trigger] tiles@[k]).x < win_w,
            decreases (if x < win_w { win_w - x } else { 0 }),
        {
            let ghost n = tiles@.len() as int;
            assert((n + 1) * tile_w == n * tile_w + tile_w) by (nonlinear_arith);
            assert(n * tile_w >= 0) by (nonlinear_arith)
                requires
                    n >= 0,
                    tile_w >= 0,
            ;
            tiles.push(Rectangle { x: x as i64, y: 0, w: tile_w, h: win_h as u64 });
            x = x + tile_w as i128;
        }
        proof {
            let n = tiles@.len() as int;
            assert forall|column: int| 0 <= column < win_w implies #[trigger] spec_covers(
                tiles@,
                column,
            ) by {
                lemma_tiles_cover(*self, win_w as int, win_h as int, n, column);
                let k = choose|k: int|
                    0 <= k < n && #[trigger] spec_tile_left(*self, win_h as int, k) <= column
                        < spec_tile_left(*self, win_h as int, k + 1);
                assert((k + 1) * tile_w == k * tile_w + tile_w) by (nonlinear_arith);
                assert(tiles@[k].x == spec_tile_left(*self, win_h as int, k));
                assert(tiles@[k].w == tile_w);
            }
        }
        tiles
    }

    /// Scrolls the layer by `elapsed` milliseconds, then says where on a
    /// screen `win_w` by `win_h` pixels its sprite is to be drawn: see
    /// `advance` and `tiles`.
    pub fn render(&mut self, elapsed: u32, win_w: u32, win_h: u32) -> (r: Vec<Rectangle>)
        requires
            old(self).sprite.wf(),
            old(self).sprite.src.w > 0,
            old(self).sprite.src.h > 0,
            old(self).fits(win_h),
        ensures
            final(self).wf(),
            final(self).pos == spec_advance(
                old(self).pos as int,
                old(self).vel as int,
                elapsed as int,
                old(self).sprite.src.w as int,
            ),
            final(self).vel == old(self).vel,
            final(self).sprite == old(self).sprite,
            forall|k: int| 0 <= k < r@.len() ==> r@[k] == spec_tile(*final(self), win_h as int, k),
            forall|k: int| 0 <= k < r@.len() ==> (#[trigger] r@[k]).x < win_w,
            spec_tile_left(*final(self), win_h as int, r@.len() as int) >= win_w,
            forall|column: int| 0 <= column < win_w ==> #[trigger] spec_covers(r@, column),
    {
        self.advance(elapsed);
        self.tiles(win_w, win_h)
    }
}

/// The first copy's left edge, see `spec_first_left`. It lies less than a
/// copy's width to the left of the screen's edge.
fn first_left(pos: i64, sprite_w: u64, sprite_h: u64, win_h: u32) -> (left: i64)
    requires
        0 < sprite_w <= u32::MAX,
        0 < sprite_h <= u32::MAX,
        0 <= pos < sprite_w * SUBPIXELS,
        spec_tile_width(sprite_w as int, sprite_h as int, win_h as int) <= i64::MAX,
    ensures
        left == spec_first_left(pos as int, sprite_h as int, win_h as int),
        -spec_tile_width(sprite_w as int, sprite_h as int, win_h as int) <= left <= 0,
{
    let scale: u128 = (sprite_h as u128) * 1000;
    let p: u128 = pos as u128;
    assert(0 <= p * win_h <= sprite_w * 1000 * win_h && sprite_w * 1000 * win_h
        < 0x1_0000_0000_0000_0000_0000) by (nonlinear_arith)
        requires
            0 <= p < sprite_w * 1000,
            0 < sprite_w < 0x1_0000_0000,
            0 <= win_h < 0x1_0000_0000,
    ;
    let q: u128 = (p * (win_h as u128)) / scale;
    proof {
        let a: int = p * win_h;
        let whole: int = sprite_w * win_h;
        let tile_w: int = whole / (sprite_h as int);
        lemma_fundamental_div_mod(a, scale as int);
        lemma_mod_pos_bound(a, scale as int);
        lemma_fundamental_div_mod(whole, sprite_h as int);
        lemma_mod_pos_bound(whole, sprite_h as int);
        assert(sprite_w * 1000 * win_h == whole * 1000) by (nonlinear_arith)
            requires
                whole == sprite_w * win_h,
        ;
        assert(q * sprite_h <= whole) by (nonlinear_arith)
            requires
                a == scale * q + a % (scale as int),
                0 <= a % (scale as int),
                scale == sprite_h * 1000,
                a <= whole * 1000,
                whole == sprite_w * win_h,
                a <= sprite_w * 1000 * win_h,
        ;
        assert(q <= tile_w) by (nonlinear_arith)
            requires
                q * sprite_h <= whole,
                whole == sprite_h * tile_w + whole % (sprite_h as int),
                0 <= whole % (sprite_h as int) < sprite_h,
                sprite_h > 0,
                q >= 0,
        ;
    }
    -(q as i64)
}

/// The copies cover the screen: where the first `count` copies of a layer
/// reach the screen's right edge, every column of the screen lies in one of
/// them.
pub proof fn lemma_tiles_cover(bg: Background, win_w: int, win_h: int, count: int, column: int)
    requires
        bg.sprite.src.h > 0,
        bg.pos >= 0,
        win_h >= 0,
        spec_tile_width(bg.sprite.src.w as int, bg.sprite.src.h as int, win_h) >= 1,
        spec_tile_left(bg, win_h, count) >= win_w,
        0 <= column < win_w,
    ensures
        exists|k: int|
            0 <= k < count && #[trigger] spec_tile_left(bg, win_h, k) <= column < spec_tile_left(
                bg,
                win_h,
                k + 1,
            ),
{
    let tile_w = spec_tile_width(bg.sprite.src.w as int, bg.sprite.src.h as int, win_h);
    let left = spec_first_left(bg.pos as int, bg.sprite.src.h as int, win_h);
    let scale = bg.sprite.src.h * SUBPIXELS;
    assert(left <= 0) by (nonlinear_arith)
        requires
            left == -((bg.pos * win_h) / scale),
            bg.pos >= 0,
            win_h >= 0,
            scale > 0,
    ;
    let offset = column - left;
    let k = offset / tile_w;
    assert(0 <= k && k * tile_w <= offset < (k + 1) * tile_w) by (nonlinear_arith)
        requires
            k == offset / tile_w,
            offset >= 0,
            tile_w >= 1,
    ;
    assert(k < count) by (nonlinear_arith)
        requires
            k * tile_w <= offset,
            offset < count * tile_w,
            tile_w >= 1,
    ;
    assert(spec_tile_left(bg, win_h, k) <= column < spec_tile_left(bg, win_h, k + 1));
}

/// The offset of a layer stays within its sprite's width, however far and
/// in whichever direction the layer scrolls; and scrolling by a whole width
/// more leaves it where it would have been.
pub proof fn lemma_advance_wraps(pos: int, vel: int, elapsed: int, sprite_w: int)
    requires
        sprite_w > 0,
    ensures
        0 <= spec_advance(pos, vel, elapsed, sprite_w) < sprite_w * SUBPIXELS,
        spec_advance(pos + sprite_w * SUBPIXELS, vel, elapsed, sprite_w) == spec_advance(
            pos,
            vel,
            elapsed,
            sprite_w,
        ),
        0 <= pos + vel * elapsed < sprite_w * SUBPIXELS ==> spec_advance(
            pos,
            vel,
            elapsed,
            sprite_w,
        ) == pos + vel * elapsed,
{
    let width = sprite_w * SUBPIXELS;
    let moved = pos + vel * elapsed;
    lemma_mod_bound(moved, width);
    lemma_fundamental_div_mod(moved, width);
    assert(moved + width == (moved / width + 1) * width + moved % width) by (nonlinear_arith)
        requires
            moved == width * (moved / width) + moved % width,
    ;
    lemma_fundamental_div_mod_converse(moved + width, width, moved / width + 1, moved % width);
    if 0 <= moved < width {
        lemma_small_mod(moved as nat, width as nat);
    }
}

/// The three layers of the star field, back to front.
#[derive(Clone, Copy, Debug)]
pub struct BgSet {
    pub back: Background,
    pub middle: Background,
    pub front: Background,
}

impl BgSet {
    /// The star field at rest, from the sprites of its three layers. The
    /// nearer a layer, the faster it scrolls: 20, 40 and 80 pixels a second.
    pub fn new(back: Sprite, middle: Sprite, front: Sprite) -> (r: BgSet)
        ensures
            r.back == (Background { pos: 0, vel: 20, sprite: back }),
            r.middle == (Background { pos: 0, vel: 40, sprite: middle }),
            r.front == (Background { pos: 0, vel: 80, sprite: front }),
    {
        BgSet {
            back: Background { pos: 0, vel: 20, sprite: back },
            middle: Background { pos: 0, vel: 40, sprite: middle },
            front: Background { pos: 0, vel: 80, sprite: front },
        }
    }
}

} // verus!
