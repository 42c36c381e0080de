//! The game screen: the player's ship, an asteroid, the star field.

use vstd::prelude::*;
use crate::phi::data::Rectangle;
use crate::phi::events::Events;
use crate::phi::gfx::{AnimatedSprite, Sprite, spec_delay_of_fps};
use crate::views::shared::BgSet;

verus! {

/// Pixels the ship covers in a second while it moves.
pub const PLAYER_SPEED: u64 = 180;

/// The ship's width in pixels.
pub const SHIP_W: u32 = 43;

/// The ship's height in pixels.
pub const SHIP_H: u32 = 39;

/// The image that holds the ship's pictures.
pub const SHIP_PATH: &'static str = "assets/spaceship.png";

/// The image that holds the asteroid's frames.
pub const ASTEROID_PATH: &'static str = "assets/asteroid.png";

/// Columns of the asteroid's sprite sheet.
pub const ASTEROIDS_W: u16 = 21;

/// Rows of the asteroid's sprite sheet.
pub const ASTEROIDS_H: u16 = 7;

/// Frames on the asteroid's sprite sheet: the last four cells are empty.
pub const ASTEROIDS_TOTAL: u16 = 143;

/// The side of an asteroid in pixels.
pub const ASTEROID_SIDE: u32 = 96;

/// The part of a straight step that a diagonal step covers on each axis,
/// in millionths: one over the square root of two.
pub const DIAGONAL_PPM: u64 = 707_107;

/// Cell `k` of a sprite sheet whose cells are `cell_w` by `cell_h` and lie
/// in rows of `columns`, counted row by row.
pub open spec fn spec_cell(cell_w: u32, cell_h: u32, columns: u16, k: int) -> Rectangle
    recommends
        columns > 0,
        0 <= k <= u16::MAX,
{
    Rectangle {
        x: (cell_w * (k % (columns as int))) as i64,
        y: (cell_h * (k / (columns as int))) as i64,
        w: cell_w as u64,
        h: cell_h as u64,
    }
}

/// Cuts the first `count` cells out of a sprite sheet. `None` where a cell
/// does not lie on the sheet.
pub fn sheet_cells(sheet: &Sprite, cell_w: u32, cell_h: u32, columns: u16, count: u16) -> (r:
    Option<Vec<Sprite>>)
    requires
        sheet.wf(),
        columns > 0,
    ensures
        r.is_some() <==> (forall|k: int|
            0 <= k < count ==> (#[trigger] sheet.spec_region(
                spec_cell(cell_w, cell_h, columns, k),
            )).is_some()),
        r.is_some() ==> r.unwrap()@.len() == count && (forall|k: int|
            0 <= k < count ==> Some(#[trigger] r.unwrap()@[k]) == sheet.spec_region(
                spec_cell(cell_w, cell_h, columns, k),
            )),
        r.is_some() ==> (forall|k: int| 0 <= k < count ==> (#[trigger] r.unwrap()@[k]).wf()),
{
    let mut cells: Vec<Sprite> = Vec::new();
    let mut k: u16 = 0;
    while k < count
        invariant
            k <= count,
            columns > 0,
            sheet.wf(),
            cells@.len() == k,
            forall|j: int|
                0 <= j < k ==> Some(#[trigger] cells@[j]) == sheet.spec_region(
                    spec_cell(cell_w, cell_h, columns, j),
                ),
            forall|j: int| 0 <= j < k ==> (#[trigger] cells@[j]).wf(),
            forall|j: int|
                0 <= j < k ==> (#[trigger] sheet.spec_region(
                    spec_cell(cell_w, cell_h, columns, j),
                )).is_some(),
        decreases count - k,
    {
        let col: u64 = (k % columns) as u64;
        let row: u64 = (k / columns) as u64;
        assert(0 <= cell_w * col < 0x1_0000_0000_0000 && 0 <= cell_h * row < 0x1_0000_0000_0000)
            by (nonlinear_arith)
            requires
                0 <= cell_w < 0x1_0000_0000,
                0 <= cell_h < 0x1_0000_0000,
                0 <= col < 0x1_0000,
                0 <= row < 0x1_0000,
        ;
        let cell = Rectangle {
            x: ((cell_w as u64) * col) as i64,
            y: ((cell_h as u64) * row) as i64,
            w: cell_w as u64,
            h: cell_h as u64,
        };
        assert(cell == spec_cell(cell_w, cell_h, columns, k as int));
        match sheet.region(cell) {
            Some(sprite) => {
                cells.push(sprite);
            },
            None => {
                assert(sheet.spec_region(spec_cell(cell_w, cell_h, columns, k as int)).is_none());
                return None;
            },
        }
        k += 1;
    }
    Some(cells)
}

/// The pictures of the ship: three rows for moving up, not at all, down;
/// in each row three columns for moving neither way, right, left.
#[derive(Clone, Copy, Debug, PartialEq, Eq, Structural)]
pub enum ShipFrame {
    UpNorm,
    UpFast,
    UpSlow,
    MidNorm,
    MidFast,
    MidSlow,
    DownNorm,
    DownFast,
    DownSlow,
}

/// The picture for a step of `dx` to the right and `dy` down.
pub open spec fn spec_ship_frame(dx: int, dy: int) -> ShipFrame {
    if dy < 0 {
        if dx == 0 {
            ShipFrame::UpNorm
        } else if dx > 0 {
            ShipFrame::UpFast
        } else {
            ShipFrame::UpSlow
        }
    } else if dy == 0 {
        if dx == 0 {
            ShipFrame::MidNorm
        } else if dx > 0 {
            ShipFrame::MidFast
        } else {
            ShipFrame::MidSlow
        }
    } else {
        if dx == 0 {
            ShipFrame::DownNorm
        } else if dx > 0 {
            ShipFrame::DownFast
        } else {
            ShipFrame::DownSlow
        }
    }
}

impl ShipFrame {
    /// The picture's place on the sprite sheet, counted row by row.
    pub open spec fn spec_index(self) -> int {
        match self {
            ShipFrame::UpNorm => 0,
            ShipFrame::UpFast => 1,
            ShipFrame::UpSlow => 2,
            ShipFrame::MidNorm => 3,
            ShipFrame::MidFast => 4,
            ShipFrame::MidSlow => 5,
            ShipFrame::DownNorm => 6,
            ShipFrame::DownFast => 7,
            ShipFrame::DownSlow => 8,
        }
    }

    /// The picture's place on the sprite sheet.
    pub fn index(self) -> (i: usize)
        ensures
            i == self.spec_index(),
            i < 9,
    {
        match self {
            ShipFrame::UpNorm => 0,
            ShipFrame::UpFast => 1,
            ShipFrame::UpSlow => 2,
            ShipFrame::MidNorm => 3,
            ShipFrame::MidFast => 4,
            ShipFrame::MidSlow => 5,
            ShipFrame::DownNorm => 6,
            ShipFrame::DownFast => 7,
            ShipFrame::DownSlow => 8,
        }
    }

    /// Chooses the picture for a step of `dx` to the right and `dy` down.
    pub fn select(dx: i64, dy: i64) -> (f: ShipFrame)
        ensures
            f == spec_ship_frame(dx as int, dy as int),
    {
        if dy < 0 {
            if dx == 0 {
                ShipFrame::UpNorm
            } else if dx > 0 {
                ShipFrame::UpFast
            } else {
                ShipFrame::UpSlow
            }
        } else if dy == 0 {
            if dx == 0 {
                ShipFrame::MidNorm
            } else if dx > 0 {
                ShipFrame::MidFast
            } else {
                ShipFrame::MidSlow
            }
        } else {
            if dx == 0 {
                ShipFrame::DownNorm
            } else if dx > 0 {
                ShipFrame::DownFast
            } else {
                ShipFrame::DownSlow
            }
        }
    }
}

/// The length of a step in `elapsed` milliseconds, in thousandths of a
/// pixel, on each axis on which the ship moves. A diagonal step is as long
/// as a straight one, so it covers less on each axis.
pub open spec fn spec_step_length(diagonal: bool, elapsed: int) -> int {
    if diagonal {
        (PLAYER_SPEED * elapsed * DIAGONAL_PPM) / 1_000_000
    } else {
        PLAYER_SPEED * elapsed
    }
}

/// The step on one axis: none where both keys or neither are held.
pub open spec fn spec_axis_step(back: bool, forth: bool, length: int) -> int {
    if back == forth {
        0
    } else if back {
        -length
    } else {
        length
    }
}

/// The ship's step for the keys held: to the right and down.
pub open spec fn spec_ship_motion(keys: Events, elapsed: int) -> (int, int) {
    let diagonal = (keys.key_up != keys.key_down) && (keys.key_left != keys.key_right);
    let length = spec_step_length(diagonal, elapsed);
    (
        spec_axis_step(keys.key_left, keys.key_right, length),
        spec_axis_step(keys.key_up, keys.key_down, length),
    )
}

/// The region the ship may move in, in thousandths of a pixel: the left
/// seven tenths of the window.
pub open spec fn spec_movable_region(win_w: u32, win_h: u32) -> Rectangle {
    Rectangle { x: 0, y: 0, w: (win_w * 700) as u64, h: (win_h * 1000) as u64 }
}

/// The ship's step for the keys held, in thousandths of a pixel.
pub fn ship_motion(keys: &Events, elapsed: u32) -> (d: (i64, i64))
    ensures
        d.0 == spec_ship_motion(*keys, elapsed as int).0,
        d.1 == spec_ship_motion(*keys, elapsed as int).1,
        -0x100_0000_0000 < d.0 < 0x100_0000_0000,
        -0x100_0000_0000 < d.1 < 0x100_0000_0000,
{
    let diagonal: bool = (keys.key_up != keys.key_down) && (keys.key_left != keys.key_right);
    let straight: u64 = PLAYER_SPEED * (elapsed as u64);
    let length: u64 = if diagonal {
        assert(0 <= straight * DIAGONAL_PPM < 0x7fff_ffff_ffff_ffff) by (nonlinear_arith)
            requires
                0 <= straight <= 180 * 0xffff_ffff,
                DIAGONAL_PPM == 707_107,
        ;
        (straight * DIAGONAL_PPM) / 1_000_000
    } else {
        straight
    };
    let length: i64 = length as i64;
    let dx: i64 = if keys.key_left == keys.key_right {
        0
    } else if keys.key_left {
        -length
    } else {
        length
    };
    let dy: i64 = if keys.key_up == keys.key_down {
        0
    } else if keys.key_up {
        -length
    } else {
        length
    };
    (dx, dy)
}

/// The region the ship may move in.
pub fn movable_region(win_w: u32, win_h: u32) -> (r: Rectangle)
    ensures
        r == spec_movable_region(win_w, win_h),
{
    Rectangle { x: 0, y: 0, w: (win_w as u64) * 700, h: (win_h as u64) * 1000 }
}

/// The player's ship. `rect` is in thousandths of a pixel.
#[derive(Clone, Debug)]
pub struct Ship {
    pub rect: Rectangle,
    pub sprites: Vec<Sprite>,
    pub current: ShipFrame,
}

impl Ship {
    /// The ship has its nine pictures and is not out of all bounds.
    pub open spec fn wf(&self) -> bool {
        &&& self.sprites@.len() == 9
        &&& -0x4000_0000_0000_0000 <= self.rect.x <= 0x4000_0000_0000_0000
        &&& -0x4000_0000_0000_0000 <= self.rect.y <= 0x4000_0000_0000_0000
    }

    /// The ship's rectangle after a frame: stepped as the keys say, then
    /// moved into the region it may move in. `None` where the ship is too
    /// large for that region.
    pub open spec fn spec_moved(&self, keys: Events, elapsed: u32, win_w: u32, win_h: u32)
        -> Option<Rectangle> {
        let d = spec_ship_motion(keys, elapsed as int);
        (Rectangle {
            x: (self.rect.x + d.0) as i64,
            y: (self.rect.y + d.1) as i64,
            ..self.rect
        }).spec_move_inside(spec_movable_region(win_w, win_h))
    }

    /// The ship at rest near the window's corner. `sheet` holds its nine
    /// pictures, three by three. `None` where the sheet is too small.
    pub fn new(sheet: &Sprite) -> (r: Option<Ship>)
        requires
            sheet.wf(),
        ensures
            r.is_some() <==> (forall|k: int|
                0 <= k < 9 ==> (#[trigger] sheet.spec_region(
                    spec_cell(SHIP_W, SHIP_H, 3, k),
                )).is_some()),
            r.is_some() ==> {
                let ship = r.unwrap();
                &&& ship.wf()
                &&& ship.rect == (Rectangle { x: 64_000, y: 64_000, w: 43_000, h: 39_000 })
                &&& ship.current == ShipFrame::MidNorm
                &&& forall|k: int|
                    0 <= k < 9 ==> Some(#[trigger] ship.sprites@[k]) == sheet.spec_region(
                        spec_cell(SHIP_W, SHIP_H, 3, k),
                    )
            },
    {
        match sheet_cells(sheet, SHIP_W, SHIP_H, 3, 9) {
            Some(sprites) => Some(
                Ship {
                    rect: Rectangle { x: 64_000, y: 64_000, w: 43_000, h: 39_000 },
                    sprites,
                    current: ShipFrame::MidNorm,
                },
            ),
            None => None,
        }
    }

    /// Moves the ship for one frame and chooses its picture. Returns
    /// whether the ship has room; where it has none, it is left as it was.
    pub fn step(&mut self, keys: &Events, elapsed: u32, win_w: u32, win_h: u32) -> (ok: bool)
        requires
            old(self).wf(),
        ensures
            final(self).wf(),
            final(self).sprites == old(self).sprites,
            ok == old(self).spec_moved(*keys, elapsed, win_w, win_h).is_some(),
            ok <==> (old(self).rect.w <= win_w * 700 && old(self).rect.h <= win_h * 1000),
            ok ==> final(self).rect == old(self).spec_moved(*keys, elapsed, win_w, win_h).unwrap(),
            ok ==> spec_movable_region(win_w, win_h).spec_contains(final(self).rect),
            ok ==> final(self).current == spec_ship_frame(
                spec_ship_motion(*keys, elapsed as int).0,
                spec_ship_motion(*keys, elapsed as int).1,
            ),
            !ok ==> *final(self) == *old(self),
    {
        let step: (i64, i64) = ship_motion(keys, elapsed);
        let dx: i64 = step.0;
        let dy: i64 = step.1;
        let stepped = Rectangle { x: self.rect.x + dx, y: self.rect.y + dy, ..self.rect };
        match stepped.move_inside(movable_region(win_w, win_h)) {
            Some(rect) => {
                self.rect = rect;
                self.current = ShipFrame::select(dx, dy);
                true
            },
            None => false,
        }
    }

    /// The picture to draw and the place to draw it, in pixels.
    pub fn sprite(&self) -> (r: (Sprite, Rectangle))
        requires
            self.wf(),
        ensures
            r.0 == self.sprites@[self.current.spec_index()],
            r.1 == spec_to_pixels(self.rect),
    {
        (self.sprites[self.current.index()], to_pixels(self.rect))
    }
}

/// A rectangle given in thousandths of a pixel, in pixels: each field
/// divided by a thousand and rounded towards zero.
pub open spec fn spec_to_pixels(rect: Rectangle) -> Rectangle {
    Rectangle {
        x: if rect.x >= 0 {
            rect.x / 1000
        } else {
            -((-rect.x) / 1000)
        } as i64,
        y: if rect.y >= 0 {
            rect.y / 1000
        } else {
            -((-rect.y) / 1000)
        } as i64,
        w: rect.w / 1000,
        h: rect.h / 1000,
    }
}

/// Thousandths of a pixel to pixels, rounded towards zero.
fn pixels(a: i64) -> (r: i64)
    ensures
        r == (if a >= 0 {
            a / 1000
        } else {
            -((-a) / 1000)
        }),
{
    if a >= 0 {
        a / 1000
    } else {
        let b: u64 = (-(a as i128)) as u64;
        -((b / 1000) as i64)
    }
}

/// Converts a rectangle from thousandths of a pixel to pixels.
pub fn to_pixels(rect: Rectangle) -> (r: Rectangle)
    ensures
        r == spec_to_pixels(rect),
{
    Rectangle { x: pixels(rect.x), y: pixels(rect.y), w: rect.w / 1000, h: rect.h / 1000 }
}

/// A draw `roll` out of `2^32` taken as a fraction of `range`, rounded
/// towards zero: at least 0 and less than `range` where `range` is positive,
/// at most 0 and more than `range` where it is negative.
pub open spec fn spec_span(roll: u32, range: int) -> int {
    if range >= 0 {
        (roll * range) / 0x1_0000_0000
    } else {
        -((roll * (-range)) / 0x1_0000_0000)
    }
}

/// A draw taken as a fraction of `range`.
pub fn span(roll: u32, range: i64) -> (r: i64)
    requires
        -0x1_0000_0000_0000 < range < 0x1_0000_0000_0000,
    ensures
        r == spec_span(roll, range as int),
        range > 0 ==> 0 <= r < range,
        range < 0 ==> range < r <= 0,
        range == 0 ==> r == 0,
{
    if range >= 0 {
        assert(0 <= (roll as int) * (range as int) <= 0xffff_ffff * (range as int))
            by (nonlinear_arith)
            requires
                0 <= roll <= 0xffff_ffff,
                range >= 0,
        ;
        let m: u128 = (roll as u128) * (range as u128);
        (m / 0x1_0000_0000) as i64
    } else {
        let width: u128 = (-range) as u128;
        assert(0 <= (roll as int) * (width as int) <= 0xffff_ffff * (width as int))
            by (nonlinear_arith)
            requires
                0 <= roll <= 0xffff_ffff,
                width > 0,
        ;
        let m: u128 = (roll as u128) * width;
        -((m / 0x1_0000_0000) as i64)
    }
}

/// A draw taken as a fraction of a range lies in that range, at its
/// near end for the least draw; so an asteroid is started with between 10
/// and 30 frames a second, at 50 to 150 pixels a second, and, in a window at
/// least as high as itself, at a height at which all of it is on screen.
pub proof fn lemma_asteroid_ranges(win_w: u32, win_h: u32, roll: u32)
    ensures
        10 <= spec_asteroid_fps(roll) < 30,
        50 <= spec_asteroid_vel(roll) < 150,
        spec_asteroid_fps(0) == 10,
        spec_asteroid_vel(0) == 50,
        win_h >= ASTEROID_SIDE ==> 0 <= spec_asteroid_start(win_w, win_h, roll).y <= (win_h
            - ASTEROID_SIDE) * 1000,
        spec_asteroid_start(win_w, win_h, roll).x == win_w * 1000,
{
    lemma_span_in_range(roll, 20);
    lemma_span_in_range(roll, 100);
    lemma_span_in_range(roll, (win_h - ASTEROID_SIDE) * 1000);
}

/// A draw taken as a fraction of `range` lies between zero and `range`:
/// zero included, `range` not, unless it is zero.
pub proof fn lemma_span_in_range(roll: u32, range: int)
    ensures
        range > 0 ==> 0 <= spec_span(roll, range) < range,
        range < 0 ==> range < spec_span(roll, range) <= 0,
        range == 0 ==> spec_span(roll, range) == 0,
        spec_span(0, range) == 0,
{
    if range >= 0 {
        assert(0 <= roll * range <= 0xffff_ffff * range) by (nonlinear_arith)
            requires
                0 <= roll <= 0xffff_ffff,
                range >= 0,
        ;
    } else {
        assert(0 <= roll * (-range) <= 0xffff_ffff * (-range)) by (nonlinear_arith)
            requires
                0 <= roll <= 0xffff_ffff,
                range < 0,
        ;
    }
    assert(0int * range == 0) by (nonlinear_arith);
    assert(0int * (-range) == 0) by (nonlinear_arith);
}

/// A number drawn at random.
///
/// Calls `rand::random::<u32>()`, which draws from the thread's generator.
/// Nothing is claimed of the number drawn: it may be any `u32`, and two
/// calls may differ.
#[verifier::external_body]
fn random_u32() -> (r: u32) {
    rand::random::<u32>()
}

/// An asteroid that drifts to the left. `rect` is in thousandths of a
/// pixel, `vel` in pixels a second.
#[derive(Clone, Debug)]
pub struct Asteroid {
    pub sprite: AnimatedSprite,
    pub rect: Rectangle,
    pub vel: i32,
}

/// The frames shown a second by an asteroid started with the draw `roll`:
/// from 10 up to, not including, 30.
pub open spec fn spec_asteroid_fps(roll: u32) -> int {
    10 + spec_span(roll, 20)
}

/// The place of an asteroid started with the draw `roll` in a window
/// `win_w` by `win_h`: at the right edge, at a height at which it is on
/// the screen if the window is high enough for it.
pub open spec fn spec_asteroid_start(win_w: u32, win_h: u32, roll: u32) -> Rectangle {
    Rectangle {
        x: (win_w * 1000) as i64,
        y: spec_span(roll, (win_h - ASTEROID_SIDE) * 1000) as i64,
        w: (ASTEROID_SIDE * 1000) as u64,
        h: (ASTEROID_SIDE * 1000) as u64,
    }
}

/// The speed of an asteroid started with the draw `roll`: from 50 up to,
/// not including, 150 pixels a second.
pub open spec fn spec_asteroid_vel(roll: u32) -> int {
    50 + spec_span(roll, 100)
}

impl Asteroid {
    /// The asteroid has frames, its clock is not negative, its speed is
    /// not negative, and it is not out of all bounds.
    pub open spec fn wf(&self) -> bool {
        &&& self.animated()
        &&& 0 <= self.vel < 150
        &&& -0x4000_0000_0000_0000 <= self.rect.x <= 0x4000_0000_0000_0000
    }

    /// The asteroid has frames, and its clock is not negative.
    pub open spec fn animated(&self) -> bool {
        &&& self.sprite.wf()
        &&& self.sprite.sprites@.len() > 0
        &&& self.sprite.current_time >= 0
    }

    /// The asteroid as a restart with the three draws leaves it: the clock
    /// and the frames stay, speed of animation, place and speed are drawn.
    pub open spec fn spec_reset(
        &self,
        after: &Asteroid,
        win_w: u32,
        win_h: u32,
        fps_roll: u32,
        y_roll: u32,
        vel_roll: u32,
    ) -> bool {
        &&& after.sprite.sprites == self.sprite.sprites
        &&& after.sprite.current_time == self.sprite.current_time
        &&& after.sprite.frame_delay == spec_delay_of_fps(spec_asteroid_fps(fps_roll) as i16)
        &&& after.rect == spec_asteroid_start(win_w, win_h, y_roll)
        &&& after.vel == spec_asteroid_vel(vel_roll)
    }

    /// The asteroid after `dt` milliseconds, before any restart: moved to
    /// the left, its clock advanced.
    pub open spec fn spec_drift(&self, after: &Asteroid, dt: u32) -> bool {
        &&& after.sprite.sprites == self.sprite.sprites
        &&& after.sprite.frame_delay == self.sprite.frame_delay
        &&& after.sprite.current_time == self.sprite.current_time + dt * 1000
        &&& after.rect == (Rectangle { x: (self.rect.x - dt * self.vel) as i64, ..self.rect })
        &&& after.vel == self.vel
    }

    /// Whether the asteroid has left the screen on the left.
    pub open spec fn spec_gone(&self) -> bool {
        self.rect.x <= -(ASTEROID_SIDE * 1000)
    }

    /// Restarts the asteroid at the right edge of the window, with the
    /// three draws deciding its speed of animation, height and speed.
    pub fn reset_with(&mut self, win_w: u32, win_h: u32, fps_roll: u32, y_roll: u32, vel_roll: u32)
        requires
            old(self).animated(),
        ensures
            final(self).wf(),
            old(self).spec_reset(final(self), win_w, win_h, fps_roll, y_roll, vel_roll),
    {
        let fps: i16 = (10 + span(fps_roll, 20)) as i16;
        self.sprite.set_fps(fps);
        self.rect = Rectangle {
            x: (win_w as i64) * 1000,
            y: span(y_roll, (win_h as i64 - ASTEROID_SIDE as i64) * 1000),
            w: (ASTEROID_SIDE as u64) * 1000,
            h: (ASTEROID_SIDE as u64) * 1000,
        };
        self.vel = (50 + span(vel_roll, 100)) as i32;
    }

    /// Restarts the asteroid with three numbers drawn at random. Whatever
    /// is drawn, it starts at the window's right edge.
    pub fn reset(&mut self, win_w: u32, win_h: u32)
        requires
            old(self).animated(),
        ensures
            final(self).wf(),
            exists|fps_roll: u32, y_roll: u32, vel_roll: u32|
                old(self).spec_reset(final(self), win_w, win_h, fps_roll, y_roll, vel_roll),
    {
        let fps_roll: u32 = random_u32();
        let y_roll: u32 = random_u32();
        let vel_roll: u32 = random_u32();
        self.reset_with(win_w, win_h, fps_roll, y_roll, vel_roll);
    }

    /// An asteroid with the given frames, started with the three draws.
    pub fn with_rolls(
        frames: Vec<Sprite>,
        win_w: u32,
        win_h: u32,
        fps_roll: u32,
        y_roll: u32,
        vel_roll: u32,
    ) -> (r: Asteroid)
        requires
            0 < frames@.len() <= u32::MAX,
        ensures
            r.wf(),
            r.sprite.sprites@ == frames@,
            r.sprite.current_time == 0,
            r.sprite.frame_delay == spec_delay_of_fps(spec_asteroid_fps(fps_roll) as i16),
            r.rect == spec_asteroid_start(win_w, win_h, y_roll),
            r.vel == spec_asteroid_vel(vel_roll),
    {
        let mut asteroid = Asteroid {
            sprite: AnimatedSprite::with_fps(frames, 15),
            rect: Rectangle {
                x: 128_000,
                y: 128_000,
                w: (ASTEROID_SIDE as u64) * 1000,
                h: (ASTEROID_SIDE as u64) * 1000,
            },
            vel: 0,
        };
        asteroid.reset_with(win_w, win_h, fps_roll, y_roll, vel_roll);
        asteroid
    }

    /// An asteroid with the given frames, started at random.
    pub fn new(frames: Vec<Sprite>, win_w: u32, win_h: u32) -> (r: Asteroid)
        requires
            0 < frames@.len() <= u32::MAX,
        ensures
            r.wf(),
            r.sprite.sprites@ == frames@,
            r.sprite.current_time == 0,
            exists|fps_roll: u32, y_roll: u32, vel_roll: u32|
                {
                    &&& r.sprite.frame_delay == spec_delay_of_fps(
                        #[trigger] spec_asteroid_fps(fps_roll) as i16,
                    )
                    &&& r.rect == #[trigger] spec_asteroid_start(win_w, win_h, y_roll)
                    &&& r.vel == #[trigger] spec_asteroid_vel(vel_roll)
                },
    {
        let fps_roll: u32 = random_u32();
        let y_roll: u32 = random_u32();
        let vel_roll: u32 = random_u32();
        Asteroid::with_rolls(frames, win_w, win_h, fps_roll, y_roll, vel_roll)
    }

    /// The frames of an asteroid, cut from its sprite sheet. `None` where
    /// the sheet is too small.
    pub fn get_sprite(sheet: &Sprite) -> (r: Option<Vec<Sprite>>)
        requires
            sheet.wf(),
        ensures
            r.is_some() <==> (forall|k: int|
                0 <= k < ASTEROIDS_TOTAL ==> (#[trigger] sheet.spec_region(
                    spec_cell(ASTEROID_SIDE, ASTEROID_SIDE, ASTEROIDS_W, k),
                )).is_some()),
            r.is_some() ==> r.unwrap()@.len() == ASTEROIDS_TOTAL && (forall|k: int|
                0 <= k < ASTEROIDS_TOTAL ==> Some(#[trigger] r.unwrap()@[k]) == sheet.spec_region(
                    spec_cell(ASTEROID_SIDE, ASTEROID_SIDE, ASTEROIDS_W, k),
                )),
    {
        sheet_cells(sheet, ASTEROID_SIDE, ASTEROID_SIDE, ASTEROIDS_W, ASTEROIDS_TOTAL)
    }

    /// Lets `dt` milliseconds pass: the asteroid moves to the left and its
    /// animation runs on. Returns whether it has left the screen, in which
    /// case it is to be restarted.
    pub fn drift(&mut self, dt: u32) -> (gone: bool)
        requires
            old(self).wf(),
            old(self).sprite.current_time + dt * 1000 <= i64::MAX,
        ensures
            old(self).spec_drift(final(self), dt),
            gone == final(self).spec_gone(),
            final(self).animated(),
            !gone ==> final(self).wf(),
    {
        assert(0 <= dt * self.vel < 0x100_0000_0000) by (nonlinear_arith)
            requires
                0 <= dt < 0x1_0000_0000,
                0 <= self.vel < 150,
        ;
        self.rect.x = (self.rect.x as i128 - (dt as i128) * (self.vel as i128)) as i64;
        self.sprite.add_time((dt as i64) * 1000);
        self.rect.x <= -((ASTEROID_SIDE as i64) * 1000)
    }

    /// Lets `dt` milliseconds pass, and restarts the asteroid at random
    /// once it has left the screen.
    pub fn update(&mut self, win_w: u32, win_h: u32, dt: u32)
        requires
            old(self).wf(),
            old(self).sprite.current_time + dt * 1000 <= i64::MAX,
        ensures
            final(self).wf(),
            exists|drifted: Asteroid|
                {
                    &&& #[trigger] old(self).spec_drift(&drifted, dt)
                    &&& if drifted.spec_gone() {
                        exists|fps_roll: u32, y_roll: u32, vel_roll: u32|
                            drifted.spec_reset(final(self), win_w, win_h, fps_roll, y_roll, vel_roll)
                    } else {
                        *final(self) == drifted
                    }
                },
    {
        let gone: bool = self.drift(dt);
        let ghost drifted: Asteroid = *self;
        if gone {
            self.reset(win_w, win_h);
        }
        assert(old(self).spec_drift(&drifted, dt));
    }
}

/// What the game screen asks for after a frame.
#[derive(Clone, Copy, Debug, PartialEq, Eq, Structural)]
pub enum GameOutcome {
    /// Leave the program.
    Quit,
    /// Go back to the main menu, with the game's backgrounds carried over.
    MainMenu,
    /// Draw the game and go on.
    Continue,
    /// The window has become too small for the ship.
    OutOfRoom,
}

/// The game screen.
#[derive(Clone, Debug)]
pub struct ShipView {
    pub player: Ship,
    pub asteroid: Asteroid,
    pub backgrounds: BgSet,
}

impl ShipView {
    /// The ship and the asteroid are well-formed.
    pub open spec fn wf(&self) -> bool {
        self.player.wf() && self.asteroid.wf()
    }

    /// What the screen asks for, given the input: to quit on a close
    /// request; else, on an "escape" edge, to go to the menu; else to go
    /// on, if the ship has room.
    pub open spec fn spec_outcome(&self, keys: Events, elapsed: u32, win_w: u32, win_h: u32)
        -> GameOutcome {
        if keys.now.quit {
            GameOutcome::Quit
        } else if keys.now.key_escape == Some(true) {
            GameOutcome::MainMenu
        } else if self.player.spec_moved(keys, elapsed, win_w, win_h).is_none() {
            GameOutcome::OutOfRoom
        } else {
            GameOutcome::Continue
        }
    }

    /// A game with the ship at rest and an asteroid started at random.
    /// `None` where a sprite sheet is too small.
    pub fn with_backgrounds(
        ship_sheet: &Sprite,
        asteroid_sheet: &Sprite,
        backgrounds: BgSet,
        win_w: u32,
        win_h: u32,
    ) -> (r: Option<ShipView>)
        requires
            ship_sheet.wf(),
            asteroid_sheet.wf(),
        ensures
            r.is_some() <==> ((forall|k: int|
                0 <= k < 9 ==> (#[trigger] ship_sheet.spec_region(
                    spec_cell(SHIP_W, SHIP_H, 3, k),
                )).is_some()) && (forall|k: int|
                0 <= k < ASTEROIDS_TOTAL ==> (#[trigger] asteroid_sheet.spec_region(
                    spec_cell(ASTEROID_SIDE, ASTEROID_SIDE, ASTEROIDS_W, k),
                )).is_some())),
            r.is_some() ==> {
                let view = r.unwrap();
                &&& view.wf()
                &&& view.backgrounds == backgrounds
                &&& view.player.rect == (Rectangle { x: 64_000, y: 64_000, w: 43_000, h: 39_000 })
                &&& view.player.current == ShipFrame::MidNorm
                &&& forall|k: int|
                    0 <= k < 9 ==> Some(#[trigger] view.player.sprites@[k])
                        == ship_sheet.spec_region(spec_cell(SHIP_W, SHIP_H, 3, k))
                &&& view.asteroid.sprite.sprites@.len() == ASTEROIDS_TOTAL
                &&& forall|k: int|
                    0 <= k < ASTEROIDS_TOTAL ==> Some(#[trigger] view.asteroid.sprite.sprites@[k])
                        == asteroid_sheet.spec_region(
                        spec_cell(ASTEROID_SIDE, ASTEROID_SIDE, ASTEROIDS_W, k),
                    )
                &&& view.asteroid.sprite.current_time == 0
                &&& exists|fps_roll: u32, y_roll: u32, vel_roll: u32|
                    {
                        &&& view.asteroid.sprite.frame_delay == spec_delay_of_fps(
                            #[trigger] spec_asteroid_fps(fps_roll) as i16,
                        )
                        &&& view.asteroid.rect == #[trigger] spec_asteroid_start(
                            win_w,
                            win_h,
                            y_roll,
                        )
                        &&& view.asteroid.vel == #[trigger] spec_asteroid_vel(vel_roll)
                    }
            },
    {
        let player = match Ship::new(ship_sheet) {
            Some(ship) => ship,
            None => {
                return None;
            },
        };
        let frames = match Asteroid::get_sprite(asteroid_sheet) {
            Some(frames) => frames,
            None => {
                return None;
            },
        };
        Some(ShipView { player, asteroid: Asteroid::new(frames, win_w, win_h), backgrounds })
    }

    /// Runs the rules of one frame: looks at the input, moves the ship and
    /// the asteroid. Where the screen does not go on, nothing has changed.
    pub fn update(&mut self, keys: &Events, elapsed: u32, win_w: u32, win_h: u32) -> (r:
        GameOutcome)
        requires
            old(self).wf(),
            old(self).asteroid.sprite.current_time + elapsed * 1000 <= i64::MAX,
        ensures
            final(self).wf(),
            r == old(self).spec_outcome(*keys, elapsed, win_w, win_h),
            final(self).backgrounds == old(self).backgrounds,
            r != GameOutcome::Continue ==> *final(self) == *old(self),
            r == GameOutcome::Continue ==> {
                &&& final(self).player.sprites == old(self).player.sprites
                &&& final(self).player.rect == old(self).player.spec_moved(
                    *keys,
                    elapsed,
                    win_w,
                    win_h,
                ).unwrap()
                &&& final(self).player.current == spec_ship_frame(
                    spec_ship_motion(*keys, elapsed as int).0,
                    spec_ship_motion(*keys, elapsed as int).1,
                )
                &&& exists|drifted: Asteroid|
                    {
                        &&& #[trigger] old(self).asteroid.spec_drift(&drifted, elapsed)
                        &&& if drifted.spec_gone() {
                            exists|fps_roll: u32, y_roll: u32, vel_roll: u32|
                                drifted.spec_reset(
                                    &final(self).asteroid,
                                    win_w,
                                    win_h,
                                    fps_roll,
                                    y_roll,
                                    vel_roll,
                                )
                        } else {
                            final(self).asteroid == drifted
                        }
                    }
            },
    {
        if keys.now.quit {
            return GameOutcome::Quit;
        }
        if keys.now.pressed(crate::phi::events::Key::Escape) {
            return GameOutcome::MainMenu;
        }
        if !self.player.step(keys, elapsed, win_w, win_h) {
            return GameOutcome::OutOfRoom;
        }
        self.asteroid.update(win_w, win_h, elapsed);
        GameOutcome::Continue
    }
}

} // verus!
