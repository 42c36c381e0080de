//! The engine: geometry, sprites, input sampling, the font cache, frame
//! pacing and the rule by which one view hands over to the next.

pub mod arith;
pub mod data;
pub mod events;
pub mod gfx;

use vstd::prelude::*;
use crate::phi::events::Events;

verus! {

/// What the running view asks of the frame loop at the end of a frame.
pub enum ViewAction<V> {
    /// Go on: show this frame and call the same view again.
    Continue,
    /// Stop the program.
    Quit,
    /// Make this view the running one. The frame is not shown: the new view
    /// has drawn nothing yet.
    ChangeView(V),
}

/// The frame loop's state: a view is running, or the loop has ended.
pub enum LoopState<V> {
    Running(V),
    Terminated,
}

/// The state after a frame in which `view` ran and returned `action`.
pub open spec fn spec_next_state<V>(view: V, action: ViewAction<V>) -> LoopState<V> {
    match action {
        ViewAction::Continue => LoopState::Running(view),
        ViewAction::Quit => LoopState::Terminated,
        ViewAction::ChangeView(next) => LoopState::Running(next),
    }
}

/// Whether the frame is shown after `action`: only when the view goes on.
pub open spec fn spec_presents<V>(action: ViewAction<V>) -> bool {
    action is Continue
}

/// Applies the action that `view` returned for this frame. Returns the
/// loop's next state and whether the frame buffer is to be shown.
pub fn apply_action<V>(view: V, action: ViewAction<V>) -> (r: (LoopState<V>, bool))
    ensures
        r.0 == spec_next_state(view, action),
        r.1 == spec_presents(action),
{
    match action {
        ViewAction::Continue => (LoopState::Running(view), true),
        ViewAction::Quit => (LoopState::Terminated, false),
        ViewAction::ChangeView(next) => (LoopState::Running(next), false),
    }
}

/// The shortest time between two frames, in milliseconds: a sixtieth of a
/// second, rounded down.
pub const FRAME_INTERVAL: u32 = 16;

/// What the frame loop does at one reading of the clock.
#[derive(Clone, Copy, Debug, PartialEq, Eq, Structural)]
pub enum Tick {
    /// Too early for a frame: sleep this many milliseconds and read the
    /// clock again. No view runs.
    Wait(u32),
    /// Run a frame. `elapsed` is the time since the last frame in
    /// milliseconds. `report` is the number of frames counted since the last
    /// report, this one included, when more than a second has passed since;
    /// it is for display only.
    Frame { elapsed: u32, report: Option<u16> },
}

/// Frame pacing. `before` is the clock at the last frame, `last_second` the
/// clock at the last report, `fps` the frames counted since then.
#[derive(Clone, Copy, Debug)]
pub struct FrameClock {
    pub before: u32,
    pub last_second: u32,
    pub fps: u16,
}

impl FrameClock {
    /// Frames are at least an interval apart, so the count of frames since
    /// the last report is bounded by the time since then, which is at most a
    /// second.
    pub open spec fn wf(self) -> bool {
        &&& self.last_second <= self.before
        &&& self.before - self.last_second <= 1000
        &&& self.fps * FRAME_INTERVAL <= self.before - self.last_second
    }

    /// What a reading `now` of the clock leads to.
    pub open spec fn spec_tick(self, now: u32) -> Tick {
        let dt = now - self.before;
        if dt < FRAME_INTERVAL {
            Tick::Wait((FRAME_INTERVAL - dt) as u32)
        } else {
            Tick::Frame {
                elapsed: dt as u32,
                report: if now - self.last_second > 1000 {
                    Some((self.fps + 1) as u16)
                } else {
                    None
                },
            }
        }
    }

    /// The clock's state after a reading `now`.
    pub open spec fn spec_after(self, now: u32) -> FrameClock {
        if now - self.before < FRAME_INTERVAL {
            self
        } else if now - self.last_second > 1000 {
            FrameClock { before: now, last_second: now, fps: 0 }
        } else {
            FrameClock { before: now, last_second: self.last_second, fps: (self.fps + 1) as u16 }
        }
    }

    /// A clock started at the reading `now`.
    pub fn new(now: u32) -> (r: FrameClock)
        ensures
            r.wf(),
            r == (FrameClock { before: now, last_second: now, fps: 0 }),
    {
        FrameClock { before: now, last_second: now, fps: 0 }
    }

    /// Decides, at the reading `now`, between waiting and running a frame,
    /// and keeps the count of frames.
    pub fn tick(&mut self, now: u32) -> (r: Tick)
        requires
            old(self).wf(),
            now >= old(self).before,
        ensures
            final(self).wf(),
            r == old(self).spec_tick(now),
            *final(self) == old(self).spec_after(now),
    {
        let dt: u32 = now - self.before;
        if dt < FRAME_INTERVAL {
            return Tick::Wait(FRAME_INTERVAL - dt);
        }
        self.before = now;
        self.fps = self.fps + 1;
        let mut report: Option<u16> = None;
        if now - self.last_second > 1000 {
            report = Some(self.fps);
            self.last_second = now;
            self.fps = 0;
        }
        Tick::Frame { elapsed: dt, report }
    }
}

/// Frames are at least an interval apart: a frame runs only once the
/// interval has passed since the last one, and its elapsed time is the time
/// since then. Before that the clock is left as it was, and the wait that is
/// asked for ends exactly when the interval does. No more than 62 frames are
/// ever counted between two reports.
pub proof fn lemma_frame_pacing(clock: FrameClock, now: u32)
    requires
        clock.wf(),
        now >= clock.before,
    ensures
        clock.fps <= 62,
        clock.spec_after(now).wf(),
        match clock.spec_tick(now) {
            Tick::Wait(rest) => {
                &&& 0 < rest <= FRAME_INTERVAL
                &&& now + rest == clock.before + FRAME_INTERVAL
                &&& clock.spec_after(now) == clock
            },
            Tick::Frame { elapsed, report } => {
                &&& elapsed >= FRAME_INTERVAL
                &&& elapsed == now - clock.before
                &&& clock.spec_after(now).before == now
                &&& report.is_some() <==> now - clock.last_second > 1000
                &&& report.is_some() ==> clock.spec_after(now).fps == 0
            },
        },
{
}

/// One loaded font as the cache knows it: the file it came from, its point
/// size, nothing of the font itself.
pub struct FontKey {
    pub path: String,
    pub size: i32,
}

impl View for FontKey {
    type V = (Seq<char>, i32);

    open spec fn view(&self) -> (Seq<char>, i32) {
        (self.path@, self.size)
    }
}

/// The fonts loaded so far, by file and point size. The font that was
/// loaded for the key at place `i` is the `i`-th that was loaded: whoever
/// loads the fonts keeps them in that order. Nothing ever leaves the cache.
pub struct FontCache {
    pub keys: Vec<FontKey>,
}

impl View for FontCache {
    type V = Seq<(Seq<char>, i32)>;

    open spec fn view(&self) -> Seq<(Seq<char>, i32)> {
        Seq::new(self.keys@.len(), |i: int| self.keys@[i]@)
    }
}

impl FontCache {
    /// No key occurs twice.
    pub open spec fn wf(&self) -> bool {
        forall|i: int, j: int| 0 <= i < j < self@.len() ==> self@[i] != self@[j]
    }

    /// Whether a font of this file and size was loaded.
    pub open spec fn has(&self, path: Seq<char>, size: i32) -> bool {
        self@.contains((path, size))
    }

    /// A cache with no font in it.
    pub fn new() -> (r: FontCache)
        ensures
            r.wf(),
            r@.len() == 0,
    {
        FontCache { keys: Vec::new() }
    }

    /// The number of fonts loaded so far.
    pub fn len(&self) -> (n: usize)
        ensures
            n == self@.len(),
    {
        self.keys.len()
    }

    /// The place of the font of this file and size, if it was loaded.
    pub fn lookup(&self, path: &str, size: i32) -> (r: Option<usize>)
        ensures
            r.is_some() <==> self.has(path@, size),
            r.is_some() ==> r.unwrap() < self@.len() && self@[r.unwrap() as int] == (path@, size),
            r.is_some() ==> forall|j: int| 0 <= j < r.unwrap() ==> self@[j] != (path@, size),
    {
        let wanted: String = path.to_owned();
        let mut i: usize = 0;
        while i < self.keys.len()
            invariant
                i <= self.keys.len(),
                wanted@ == path@,
                forall|j: int| 0 <= j < i ==> self@[j] != (path@, size),
            decreases self.keys.len() - i,
        {
            if self.keys[i].size == size && self.keys[i].path == wanted {
                assert(self@[i as int] == (path@, size));
                return Some(i);
            }
            i += 1;
        }
        None
    }

    /// Records that the font of this file and size was loaded, and returns
    /// its place: the number of fonts loaded before it.
    pub fn insert(&mut self, path: &str, size: i32) -> (slot: usize)
        requires
            old(self).wf(),
            !old(self).has(path@, size),
        ensures
            final(self).wf(),
            final(self)@ == old(self)@.push((path@, size)),
            slot == old(self)@.len(),
    {
        let slot: usize = self.keys.len();
        self.keys.push(FontKey { path: path.to_owned(), size });
        assert(self@ =~= old(self)@.push((path@, size)));
        slot
    }
}

/// What to do for a request for text in a given font.
#[derive(Clone, Copy, Debug, PartialEq, Eq, Structural)]
pub enum FontRequest {
    /// The font is loaded: render with the font at this place.
    Cached(usize),
    /// The font is not loaded: load it from its file. If that fails the
    /// request fails. If it succeeds, record it and render with it.
    Load,
}

/// What every view is handed each frame, as far as rules go: the input
/// sampler and the font cache.
pub struct Phi {
    pub events: Events,
    pub cached_fonts: FontCache,
}

impl Phi {
    /// The font cache holds no key twice.
    pub open spec fn wf(&self) -> bool {
        self.cached_fonts.wf()
    }

    /// A context with the given input sampler and no font loaded.
    pub fn new(events: Events) -> (r: Phi)
        ensures
            r.wf(),
            r.events == events,
            r.cached_fonts@.len() == 0,
    {
        Phi { events, cached_fonts: FontCache::new() }
    }

    /// Decides how a request for text in the font of this file and size is
    /// served: from the cache where the font is in it, by loading where not.
    pub fn font_request(&self, path: &str, size: i32) -> (r: FontRequest)
        ensures
            self.cached_fonts.has(path@, size) ==> (r matches FontRequest::Cached(slot) && slot
                < self.cached_fonts@.len() && self.cached_fonts@[slot as int] == (path@, size)),
            !self.cached_fonts.has(path@, size) ==> r == FontRequest::Load,
    {
        match self.cached_fonts.lookup(path, size) {
            Some(slot) => FontRequest::Cached(slot),
            None => FontRequest::Load,
        }
    }

    /// Records a font that was just loaded, and returns its place. The same
    /// request is served from the cache from now on.
    pub fn font_loaded(&mut self, path: &str, size: i32) -> (slot: usize)
        requires
            old(self).wf(),
            !old(self).cached_fonts.has(path@, size),
        ensures
            final(self).wf(),
            final(self).events == old(self).events,
            final(self).cached_fonts@ == old(self).cached_fonts@.push((path@, size)),
            slot == old(self).cached_fonts@.len(),
            final(self).cached_fonts.has(path@, size),
    {
        let slot: usize = self.cached_fonts.insert(path, size);
        assert(self.cached_fonts@[slot as int] == (path@, size));
        slot
    }
}

/// The cache only grows: a font that was loaded stays loaded, at its place,
/// whatever is loaded after it.
pub proof fn lemma_font_cache_keeps(
    cache: Seq<(Seq<char>, i32)>,
    added: (Seq<char>, i32),
    slot: int,
)
    requires
        0 <= slot < cache.len(),
    ensures
        cache.push(added)[slot] == cache[slot],
        cache.push(added).contains(cache[slot]),
        cache.push(added).contains(added),
{
    assert(cache.push(added)[slot] == cache[slot]);
    assert(cache.push(added)[cache.len() as int] == added);
}

/// After a view asks for another view, the loop runs that one: the old view
/// is gone from the state and the frame is not shown. After a view asks to
/// go on, the loop runs the same view and shows the frame. After a view asks
/// to quit, the loop has ended.
pub proof fn lemma_view_switch<V>(view: V, next: V)
    ensures
        spec_next_state(view, ViewAction::ChangeView(next)) == LoopState::Running(next),
        !spec_presents(ViewAction::ChangeView(next)),
        spec_next_state(view, ViewAction::<V>::Continue) == LoopState::Running(view),
        spec_presents(ViewAction::<V>::Continue),
        spec_next_state(view, ViewAction::<V>::Quit) == LoopState::<V>::Terminated,
        !spec_presents(ViewAction::<V>::Quit),
{
}

} // verus!
