//! Sprites: regions of a texture, and sequences of them played by a clock.

use vstd::prelude::*;
use vstd::arithmetic::div_mod::{
    lemma_add_mod_noop, lemma_fundamental_div_mod, lemma_fundamental_div_mod_converse,
    lemma_mod_bound, lemma_small_mod,
};
use crate::phi::arith::{floor_div, modulo, spec_floor_div};
use crate::phi::data::Rectangle;

verus! {

/// A region of a texture. The texture itself lives with whoever draws; a
/// sprite names it by a handle, which all the regions cut from one sprite
/// share. `src` is in the texture's pixels.
#[derive(Clone, Copy, Debug, PartialEq, Eq, Structural)]
pub struct Sprite {
    pub tex: usize,
    pub src: Rectangle,
}

impl Sprite {
    /// The region lies within a texture, whose sides are at most
    /// `u32::MAX` long.
    pub open spec fn wf(self) -> bool {
        &&& 0 <= self.src.x
        &&& 0 <= self.src.y
        &&& self.src.right() <= u32::MAX
        &&& self.src.bottom() <= u32::MAX
    }

    /// The region `rect`, given relative to this sprite's region, as a
    /// sprite of the same texture; `None` where it is not within this
    /// sprite's region.
    pub open spec fn spec_region(self, rect: Rectangle) -> Option<Sprite> {
        let x = rect.x + self.src.x;
        let y = rect.y + self.src.y;
        if self.src.x <= x && x + rect.w <= self.src.right() && self.src.y <= y && y + rect.h
            <= self.src.bottom() {
            Some(Sprite { tex: self.tex, src: Rectangle { x: x as i64, y: y as i64, ..rect } })
        } else {
            None
        }
    }

    /// The sprite that shows the whole of a texture of the given size.
    pub fn new(texture: usize, width: u32, height: u32) -> (r: Sprite)
        ensures
            r.wf(),
            r == (Sprite {
                tex: texture,
                src: Rectangle { x: 0, y: 0, w: width as u64, h: height as u64 },
            }),
    {
        Sprite { tex: texture, src: Rectangle { x: 0, y: 0, w: width as u64, h: height as u64 } }
    }

    /// Cuts a region out of this sprite. `rect` is relative to the region
    /// that the sprite holds now.
    pub fn region(&self, rect: Rectangle) -> (r: Option<Sprite>)
        requires
            self.wf(),
        ensures
            r == self.spec_region(rect),
            r.is_some() ==> r.unwrap().wf() && r.unwrap().tex == self.tex && self.src.spec_contains(
                r.unwrap().src,
            ),
    {
        let x: i128 = rect.x as i128 + self.src.x as i128;
        let y: i128 = rect.y as i128 + self.src.y as i128;
        let right: i128 = self.src.x as i128 + self.src.w as i128;
        let bottom: i128 = self.src.y as i128 + self.src.h as i128;
        if self.src.x as i128 <= x && x + rect.w as i128 <= right && self.src.y as i128 <= y && y
            + rect.h as i128 <= bottom {
            Some(Sprite { tex: self.tex, src: Rectangle { x: x as i64, y: y as i64, ..rect } })
        } else {
            None
        }
    }

    /// The width and height of the region.
    pub fn size(&self) -> (r: (u64, u64))
        ensures
            r == (self.src.w, self.src.h),
    {
        (self.src.w, self.src.h)
    }
}

/// Microseconds in a second: animation time is counted in microseconds.
pub const MICROS_PER_SECOND: i32 = 1_000_000;

/// The clock after `dt` is added at `time`: the sum, or, where the sum is
/// negative, the time at which the last of `frames` frames begins.
pub open spec fn spec_add_time(time: int, dt: int, frames: int, frame_delay: int) -> int {
    if time + dt < 0 {
        (frames - 1) * frame_delay
    } else {
        time + dt
    }
}

/// The frame shown at `time`: the number of whole frame delays in `time`,
/// rounded down, counted round the `frames` frames. With a negative delay
/// the count falls as time goes on, and the frames are shown in reverse.
pub open spec fn spec_frame_index(time: int, frame_delay: int, frames: int) -> int
    recommends
        frame_delay != 0,
        frames > 0,
{
    spec_floor_div(time, frame_delay) % frames
}

/// A sequence of sprites shown one after the other. `frame_delay` is the
/// time each frame stays, in microseconds; negative plays in reverse.
/// `current_time` is the time the animation has run, in microseconds.
#[derive(Clone, Debug)]
pub struct AnimatedSprite {
    pub sprites: Vec<Sprite>,
    pub frame_delay: i32,
    pub current_time: i64,
}

impl AnimatedSprite {
    /// The delay is not zero, and there are at most `u32::MAX` frames.
    pub open spec fn wf(&self) -> bool {
        &&& self.frame_delay != 0
        &&& self.sprites@.len() <= u32::MAX
    }

    /// An animation at time 0.
    pub fn new(sprites: Vec<Sprite>, frame_delay: i32) -> (r: AnimatedSprite)
        requires
            frame_delay != 0,
            sprites@.len() <= u32::MAX,
        ensures
            r.wf(),
            r.sprites@ == sprites@,
            r.frame_delay == frame_delay,
            r.current_time == 0,
    {
        AnimatedSprite { sprites, frame_delay, current_time: 0 }
    }

    /// An animation at time 0 that shows `fps` frames a second.
    pub fn with_fps(sprites: Vec<Sprite>, fps: i16) -> (r: AnimatedSprite)
        requires
            fps != 0,
            sprites@.len() <= u32::MAX,
        ensures
            r.wf(),
            r.sprites@ == sprites@,
            r.frame_delay == spec_delay_of_fps(fps),
            r.current_time == 0,
    {
        AnimatedSprite::new(sprites, delay_of_fps(fps))
    }

    /// The number of frames.
    pub fn frames(&self) -> (n: usize)
        ensures
            n == self.sprites@.len(),
    {
        self.sprites.len()
    }

    /// Sets the time each frame stays, in microseconds.
    pub fn set_frame_delay(&mut self, frame_delay: i32)
        requires
            frame_delay != 0,
        ensures
            final(self).frame_delay == frame_delay,
            final(self).sprites == old(self).sprites,
            final(self).current_time == old(self).current_time,
    {
        self.frame_delay = frame_delay;
    }

    /// Sets the number of frames shown a second.
    pub fn set_fps(&mut self, fps: i16)
        requires
            fps != 0,
        ensures
            final(self).frame_delay == spec_delay_of_fps(fps),
            final(self).frame_delay != 0,
            final(self).sprites == old(self).sprites,
            final(self).current_time == old(self).current_time,
    {
        let frame_delay: i32 = delay_of_fps(fps);
        self.set_frame_delay(frame_delay);
    }

    /// Adds `dt` microseconds to the animation's time. Where the time would
    /// become negative it becomes the time at which the last frame begins.
    pub fn add_time(&mut self, dt: i64)
        requires
            old(self).wf(),
            i64::MIN <= old(self).current_time + dt <= i64::MAX,
            old(self).sprites@.len() > 0 || old(self).current_time + dt >= 0,
        ensures
            final(self).current_time == spec_add_time(
                old(self).current_time as int,
                dt as int,
                old(self).sprites@.len() as int,
                old(self).frame_delay as int,
            ),
            final(self).sprites == old(self).sprites,
            final(self).frame_delay == old(self).frame_delay,
    {
        self.current_time = self.current_time + dt;
        if self.current_time < 0 {
            let last: i64 = (self.sprites.len() - 1) as i64;
            assert(-0x8000_0000_0000_0000 < last * self.frame_delay < 0x7fff_ffff_ffff_ffff)
                by (nonlinear_arith)
                requires
                    0 <= last < 0x1_0000_0000,
                    -0x8000_0000 <= self.frame_delay < 0x8000_0000,
            ;
            self.current_time = last * (self.frame_delay as i64);
        }
    }

    /// The place of the frame shown now.
    pub fn current_frame(&self) -> (i: usize)
        requires
            self.wf(),
            self.sprites@.len() > 0,
        ensures
            i == spec_frame_index(
                self.current_time as int,
                self.frame_delay as int,
                self.sprites@.len() as int,
            ),
            i < self.sprites@.len(),
    {
        let n: i128 = self.sprites.len() as i128;
        let whole: i128 = if self.frame_delay > 0 {
            floor_div(self.current_time as i128, self.frame_delay as i128)
        } else {
            floor_div(-(self.current_time as i128), -(self.frame_delay as i128))
        };
        modulo(whole, n) as usize
    }

    /// The frame shown now.
    pub fn current(&self) -> (s: Sprite)
        requires
            self.wf(),
            self.sprites@.len() > 0,
        ensures
            s == self.sprites@[spec_frame_index(
                self.current_time as int,
                self.frame_delay as int,
                self.sprites@.len() as int,
            )],
    {
        self.sprites[self.current_frame()]
    }
}

/// The frame delay, in microseconds, at `fps` frames a second.
pub open spec fn spec_delay_of_fps(fps: i16) -> int
    recommends
        fps != 0,
{
    if fps > 0 {
        (MICROS_PER_SECOND as int) / (fps as int)
    } else {
        -((MICROS_PER_SECOND as int) / (-(fps as int)))
    }
}

/// The frame delay at `fps` frames a second, rounded towards zero.
pub fn delay_of_fps(fps: i16) -> (d: i32)
    requires
        fps != 0,
    ensures
        d == spec_delay_of_fps(fps),
        d != 0,
        fps > 0 <==> d > 0,
{
    if fps > 0 {
        let f: u32 = fps as u32;
        let d: u32 = 1_000_000u32 / f;
        assert(d >= 1 && d <= 1_000_000) by (nonlinear_arith)
            requires
                d == 1_000_000int / (f as int),
                0 < f <= 32767,
        ;
        d as i32
    } else {
        let f: u32 = (-(fps as i32)) as u32;
        let d: u32 = 1_000_000u32 / f;
        assert(d >= 1 && d <= 1_000_000) by (nonlinear_arith)
            requires
                d == 1_000_000int / (f as int),
                0 < f <= 32768,
        ;
        -(d as i32)
    }
}

/// Adding time in two steps leaves the clock where adding the sum in one
/// step leaves it, provided the first step does not take it below zero.
/// Where it does, the second step starts from the last frame's time.
pub proof fn lemma_add_time_additive(time: int, a: int, b: int, frames: int, frame_delay: int)
    ensures
        time + a >= 0 ==> spec_add_time(
            spec_add_time(time, a, frames, frame_delay),
            b,
            frames,
            frame_delay,
        ) == spec_add_time(time, a + b, frames, frame_delay),
        time + a < 0 ==> spec_add_time(
            spec_add_time(time, a, frames, frame_delay),
            b,
            frames,
            frame_delay,
        ) == spec_add_time((frames - 1) * frame_delay, b, frames, frame_delay),
{
}

/// The frame shown is one of the frames. While time and delay are not
/// negative it is the quotient of time by delay, counted round the frames;
/// and a whole delay later the next frame is shown, the first one after the
/// last.
pub proof fn lemma_frame_index_in_range(time: int, frame_delay: int, frames: int)
    requires
        frame_delay != 0,
        frames > 0,
    ensures
        0 <= spec_frame_index(time, frame_delay, frames) < frames,
        frame_delay > 0 ==> spec_frame_index(time, frame_delay, frames) == (time / frame_delay)
            % frames,
        spec_frame_index(time + frame_delay, frame_delay, frames) == (spec_frame_index(
            time,
            frame_delay,
            frames,
        ) + 1) % frames,
{
    lemma_mod_bound(spec_floor_div(time, frame_delay), frames);
    let d = if frame_delay > 0 {
        frame_delay
    } else {
        -frame_delay
    };
    let t = if frame_delay > 0 {
        time
    } else {
        -time
    };
    let q = t / d;
    lemma_fundamental_div_mod(t, d);
    lemma_mod_bound(t, d);
    assert(t + d == (q + 1) * d + t % d) by (nonlinear_arith)
        requires
            t == d * q + t % d,
    ;
    lemma_fundamental_div_mod_converse(t + d, d, q + 1, t % d);
    assert(spec_floor_div(time + frame_delay, frame_delay) == q + 1);
    lemma_mod_bound(q, frames);
    lemma_add_mod_noop(q, 1, frames);
    if frames == 1 {
        assert((q % frames + 1int % frames) % frames == (q % frames + 1) % frames);
    } else {
        lemma_small_mod(1, frames as nat);
    }
}

} // verus!
