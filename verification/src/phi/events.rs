//! Input sampling: from a frame's raw events to the held state of each
//! tracked key and the edges of this frame.

use vstd::prelude::*;

verus! {

/// The keys the game listens to. Every other key is invisible to it.
#[derive(Clone, Copy, Debug, PartialEq, Eq, Structural)]
pub enum Key {
    Escape,
    Up,
    Down,
    Left,
    Right,
    Space,
    Return,
}

/// One event as the platform reports it. Key events carry the platform's
/// key code.
#[derive(Clone, Copy, Debug)]
pub enum RawEvent {
    KeyDown(i32),
    KeyUp(i32),
    /// The window was asked to close.
    Quit,
    /// The window was resized; the drawable area is now this large.
    Resized(u32, u32),
    /// Anything else.
    Other,
}

/// The tracked key that a platform key code stands for, if any.
pub open spec fn spec_key_of(code: i32) -> Option<Key> {
    if code == 27 {
        Some(Key::Escape)
    } else if code == 0x4000_0052 {
        Some(Key::Up)
    } else if code == 0x4000_0051 {
        Some(Key::Down)
    } else if code == 0x4000_0050 {
        Some(Key::Left)
    } else if code == 0x4000_004f {
        Some(Key::Right)
    } else if code == 32 {
        Some(Key::Space)
    } else if code == 13 {
        Some(Key::Return)
    } else {
        None
    }
}

impl Key {
    /// Looks a platform key code up in the table of tracked keys.
    pub fn from_keycode(code: i32) -> (r: Option<Key>)
        ensures
            r == spec_key_of(code),
    {
        if code == 27 {
            Some(Key::Escape)
        } else if code == 0x4000_0052 {
            Some(Key::Up)
        } else if code == 0x4000_0051 {
            Some(Key::Down)
        } else if code == 0x4000_0050 {
            Some(Key::Left)
        } else if code == 0x4000_004f {
            Some(Key::Right)
        } else if code == 32 {
            Some(Key::Space)
        } else if code == 13 {
            Some(Key::Return)
        } else {
            None
        }
    }

    /// The platform key code of a tracked key.
    pub fn keycode(self) -> (code: i32)
        ensures
            spec_key_of(code) == Some(self),
    {
        match self {
            Key::Escape => 27,
            Key::Up => 0x4000_0052,
            Key::Down => 0x4000_0051,
            Key::Left => 0x4000_0050,
            Key::Right => 0x4000_004f,
            Key::Space => 32,
            Key::Return => 13,
        }
    }
}

/// What happened during one frame. For each tracked key: `Some(true)` if it
/// went down this frame, `Some(false)` if it came up, `None` if neither.
#[derive(Clone, Copy, Debug)]
pub struct ImmediateEvents {
    pub key_escape: Option<bool>,
    pub key_up: Option<bool>,
    pub key_down: Option<bool>,
    pub key_left: Option<bool>,
    pub key_right: Option<bool>,
    pub key_space: Option<bool>,
    pub key_return: Option<bool>,
    pub quit: bool,
    pub resize: Option<(u32, u32)>,
}

impl ImmediateEvents {
    /// The snapshot of a frame in which nothing happened.
    pub open spec fn spec_new() -> ImmediateEvents {
        ImmediateEvents {
            key_escape: None,
            key_up: None,
            key_down: None,
            key_left: None,
            key_right: None,
            key_space: None,
            key_return: None,
            quit: false,
            resize: None,
        }
    }

    /// The edge recorded for `key`.
    pub open spec fn spec_edge(self, key: Key) -> Option<bool> {
        match key {
            Key::Escape => self.key_escape,
            Key::Up => self.key_up,
            Key::Down => self.key_down,
            Key::Left => self.key_left,
            Key::Right => self.key_right,
            Key::Space => self.key_space,
            Key::Return => self.key_return,
        }
    }

    /// The snapshot with the edge of `key` replaced.
    pub open spec fn spec_with_edge(self, key: Key, edge: Option<bool>) -> ImmediateEvents {
        match key {
            Key::Escape => ImmediateEvents { key_escape: edge, ..self },
            Key::Up => ImmediateEvents { key_up: edge, ..self },
            Key::Down => ImmediateEvents { key_down: edge, ..self },
            Key::Left => ImmediateEvents { key_left: edge, ..self },
            Key::Right => ImmediateEvents { key_right: edge, ..self },
            Key::Space => ImmediateEvents { key_space: edge, ..self },
            Key::Return => ImmediateEvents { key_return: edge, ..self },
        }
    }

    /// The snapshot of a frame in which nothing happened.
    pub fn new() -> (r: ImmediateEvents)
        ensures
            r == ImmediateEvents::spec_new(),
    {
        ImmediateEvents {
            key_escape: None,
            key_up: None,
            key_down: None,
            key_left: None,
            key_right: None,
            key_space: None,
            key_return: None,
            quit: false,
            resize: None,
        }
    }

    /// The edge recorded for `key` this frame.
    pub fn edge(&self, key: Key) -> (r: Option<bool>)
        ensures
            r == self.spec_edge(key),
    {
        match key {
            Key::Escape => self.key_escape,
            Key::Up => self.key_up,
            Key::Down => self.key_down,
            Key::Left => self.key_left,
            Key::Right => self.key_right,
            Key::Space => self.key_space,
            Key::Return => self.key_return,
        }
    }

    /// Whether `key` went down this frame.
    pub fn pressed(&self, key: Key) -> (r: bool)
        ensures
            r == (self.spec_edge(key) == Some(true)),
    {
        match self.edge(key) {
            Some(down) => down,
            None => false,
        }
    }
}

/// The input sampler's state: which tracked keys are held, and the snapshot
/// of the current frame.
#[derive(Clone, Copy, Debug)]
pub struct Events {
    pub now: ImmediateEvents,
    pub key_escape: bool,
    pub key_up: bool,
    pub key_down: bool,
    pub key_left: bool,
    pub key_right: bool,
    pub key_space: bool,
    pub key_return: bool,
}

impl Events {
    /// No key held, nothing happened.
    pub open spec fn spec_new() -> Events {
        Events {
            now: ImmediateEvents::spec_new(),
            key_escape: false,
            key_up: false,
            key_down: false,
            key_left: false,
            key_right: false,
            key_space: false,
            key_return: false,
        }
    }

    /// Whether `key` is held.
    pub open spec fn spec_held(self, key: Key) -> bool {
        match key {
            Key::Escape => self.key_escape,
            Key::Up => self.key_up,
            Key::Down => self.key_down,
            Key::Left => self.key_left,
            Key::Right => self.key_right,
            Key::Space => self.key_space,
            Key::Return => self.key_return,
        }
    }

    /// The state with the held flag of `key` replaced.
    pub open spec fn spec_with_held(self, key: Key, held: bool) -> Events {
        match key {
            Key::Escape => Events { key_escape: held, ..self },
            Key::Up => Events { key_up: held, ..self },
            Key::Down => Events { key_down: held, ..self },
            Key::Left => Events { key_left: held, ..self },
            Key::Right => Events { key_right: held, ..self },
            Key::Space => Events { key_space: held, ..self },
            Key::Return => Events { key_return: held, ..self },
        }
    }

    /// The state at the start of a frame: held keys kept, snapshot emptied.
    pub open spec fn spec_cleared(self) -> Events {
        Events { now: ImmediateEvents::spec_new(), ..self }
    }

    /// The state with `key` held and, in the snapshot, pressed this frame.
    pub open spec fn spec_press(self, key: Key) -> Events {
        Events { now: self.now.spec_with_edge(key, Some(true)), ..self }.spec_with_held(key, true)
    }

    /// The state with `key` not held and, in the snapshot, released this
    /// frame.
    pub open spec fn spec_release(self, key: Key) -> Events {
        Events { now: self.now.spec_with_edge(key, Some(false)), ..self }.spec_with_held(
            key,
            false,
        )
    }

    /// The state after one raw event. A key-down of a tracked key that is
    /// not held presses it; one of a key already held changes nothing. A
    /// key-up of a tracked key releases it, held or not. A close request
    /// raises the quit flag, a resize records the new size. Events of keys
    /// that are not tracked, and all other events, change nothing.
    pub open spec fn spec_apply(self, event: RawEvent) -> Events {
        match event {
            RawEvent::KeyDown(code) => match spec_key_of(code) {
                Some(key) => if self.spec_held(key) {
                    self
                } else {
                    self.spec_press(key)
                },
                None => self,
            },
            RawEvent::KeyUp(code) => match spec_key_of(code) {
                Some(key) => self.spec_release(key),
                None => self,
            },
            RawEvent::Quit => Events { now: ImmediateEvents { quit: true, ..self.now }, ..self },
            RawEvent::Resized(w, h) => Events {
                now: ImmediateEvents { resize: Some((w, h)), ..self.now },
                ..self
            },
            RawEvent::Other => self,
        }
    }

    /// The state after a sequence of raw events, applied in order.
    pub open spec fn spec_feed(self, events: Seq<RawEvent>) -> Events
        decreases events.len(),
    {
        if events.len() == 0 {
            self
        } else {
            self.spec_feed(events.drop_last()).spec_apply(events.last())
        }
    }

    /// The state after a frame whose raw events were `events`: the snapshot
    /// starts empty, then every event is applied in order.
    pub open spec fn spec_pump(self, events: Seq<RawEvent>) -> Events {
        self.spec_cleared().spec_feed(events)
    }

    /// A sampler with no key held and an empty snapshot.
    pub fn new() -> (r: Events)
        ensures
            r == Events::spec_new(),
    {
        Events {
            now: ImmediateEvents::new(),
            key_escape: false,
            key_up: false,
            key_down: false,
            key_left: false,
            key_right: false,
            key_space: false,
            key_return: false,
        }
    }

    /// Whether `key` is held.
    pub fn held(&self, key: Key) -> (r: bool)
        ensures
            r == self.spec_held(key),
    {
        match key {
            Key::Escape => self.key_escape,
            Key::Up => self.key_up,
            Key::Down => self.key_down,
            Key::Left => self.key_left,
            Key::Right => self.key_right,
            Key::Space => self.key_space,
            Key::Return => self.key_return,
        }
    }

    /// Sets the held flag of `key` and records `edge` for it in the
    /// snapshot.
    fn set_key(&mut self, key: Key, held: bool, edge: Option<bool>)
        ensures
            *final(self) == (Events {
                now: old(self).now.spec_with_edge(key, edge),
                ..*old(self)
            }).spec_with_held(key, held),
    {
        match key {
            Key::Escape => {
                self.key_escape = held;
                self.now.key_escape = edge;
            },
            Key::Up => {
                self.key_up = held;
                self.now.key_up = edge;
            },
            Key::Down => {
                self.key_down = held;
                self.now.key_down = edge;
            },
            Key::Left => {
                self.key_left = held;
                self.now.key_left = edge;
            },
            Key::Right => {
                self.key_right = held;
                self.now.key_right = edge;
            },
            Key::Space => {
                self.key_space = held;
                self.now.key_space = edge;
            },
            Key::Return => {
                self.key_return = held;
                self.now.key_return = edge;
            },
        }
    }

    /// Takes one raw event into account.
    pub fn apply(&mut self, event: RawEvent)
        ensures
            *final(self) == old(self).spec_apply(event),
    {
        match event {
            RawEvent::KeyDown(code) => {
                if let Some(key) = Key::from_keycode(code) {
                    if !self.held(key) {
                        self.set_key(key, true, Some(true));
                    }
                }
            },
            RawEvent::KeyUp(code) => {
                if let Some(key) = Key::from_keycode(code) {
                    self.set_key(key, false, Some(false));
                }
            },
            RawEvent::Quit => {
                self.now.quit = true;
            },
            RawEvent::Resized(w, h) => {
                self.now.resize = Some((w, h));
            },
            RawEvent::Other => {},
        }
    }

    /// Starts a frame and takes in the raw events that were queued for it,
    /// in order.
    pub fn pump(&mut self, events: &Vec<RawEvent>)
        ensures
            *final(self) == old(self).spec_pump(events@),
    {
        self.now = ImmediateEvents::new();
        let mut i: usize = 0;
        while i < events.len()
            invariant
                i <= events.len(),
                *self == old(self).spec_cleared().spec_feed(events@.take(i as int)),
            decreases events.len() - i,
        {
            proof {
                assert(events@.take(i + 1).drop_last() =~= events@.take(i as int));
            }
            self.apply(events[i]);
            i += 1;
        }
        proof {
            assert(events@.take(i as int) =~= events@);
        }
    }
}

/// A key-down of a tracked key that is not held gives that key the edge
/// `Some(true)` and holds it; a second key-down of the same key, with no
/// key-up between them, changes nothing more.
pub proof fn lemma_repeated_key_down(s: Events, code: i32)
    requires
        spec_key_of(code).is_some(),
    ensures
        ({
            let key = spec_key_of(code).unwrap();
            let once = s.spec_apply(RawEvent::KeyDown(code));
            &&& once.spec_held(key)
            &&& !s.spec_held(key) ==> once.now.spec_edge(key) == Some(true)
            &&& s.spec_held(key) ==> once == s
            &&& once.spec_apply(RawEvent::KeyDown(code)) == once
        }),
{
}

/// Two key-downs of one tracked key in a frame leave what one leaves: a
/// single pressed edge where the key was not held before.
pub proof fn lemma_key_down_twice_in_frame(s: Events, code: i32)
    requires
        spec_key_of(code).is_some(),
    ensures
        s.spec_pump(seq![RawEvent::KeyDown(code), RawEvent::KeyDown(code)]) == s.spec_pump(
            seq![RawEvent::KeyDown(code)],
        ),
        !s.spec_held(spec_key_of(code).unwrap()) ==> s.spec_pump(
            seq![RawEvent::KeyDown(code)],
        ).now.spec_edge(spec_key_of(code).unwrap()) == Some(true),
{
    let down = RawEvent::KeyDown(code);
    let c = s.spec_cleared();
    assert(seq![down].drop_last() =~= Seq::<RawEvent>::empty());
    assert(seq![down, down].drop_last() =~= seq![down]);
    assert(c.spec_feed(Seq::<RawEvent>::empty()) == c);
    assert(c.spec_feed(seq![down]) == c.spec_apply(down));
    assert(c.spec_feed(seq![down, down]) == c.spec_apply(down).spec_apply(down));
    lemma_repeated_key_down(c, code);
}

/// A key that went down in one frame and is still held gives no edge in the
/// next frame, though the platform repeats its key-down there.
pub proof fn lemma_held_key_gives_no_edge(s: Events, code: i32)
    requires
        spec_key_of(code).is_some(),
        s.spec_held(spec_key_of(code).unwrap()),
    ensures
        s.spec_pump(seq![RawEvent::KeyDown(code)]).now.spec_edge(spec_key_of(code).unwrap())
            == None::<bool>,
        s.spec_pump(seq![RawEvent::KeyDown(code)]).spec_held(spec_key_of(code).unwrap()),
{
    let down = RawEvent::KeyDown(code);
    let c = s.spec_cleared();
    assert(seq![down].drop_last() =~= Seq::<RawEvent>::empty());
    assert(c.spec_feed(Seq::<RawEvent>::empty()) == c);
    assert(c.spec_feed(seq![down]) == c.spec_apply(down));
}

/// Keys that are not tracked are invisible: their events change neither
/// the held keys nor the snapshot.
pub proof fn lemma_untracked_key_invisible(s: Events, code: i32)
    requires
        spec_key_of(code).is_none(),
    ensures
        s.spec_apply(RawEvent::KeyDown(code)) == s,
        s.spec_apply(RawEvent::KeyUp(code)) == s,
{
}

/// A key-up of a tracked key gives the edge `Some(false)` and leaves the
/// key not held, whether it was held or not.
pub proof fn lemma_key_up_releases(s: Events, code: i32)
    requires
        spec_key_of(code).is_some(),
    ensures
        s.spec_apply(RawEvent::KeyUp(code)).now.spec_edge(spec_key_of(code).unwrap()) == Some(
            false,
        ),
        !s.spec_apply(RawEvent::KeyUp(code)).spec_held(spec_key_of(code).unwrap()),
{
}

/// An event of one tracked key leaves every other key as it was, held
/// state and edge.
pub proof fn lemma_keys_are_independent(s: Events, code: i32, other: Key, down: bool)
    requires
        spec_key_of(code) != Some(other),
    ensures
        ({
            let event = if down {
                RawEvent::KeyDown(code)
            } else {
                RawEvent::KeyUp(code)
            };
            &&& s.spec_apply(event).spec_held(other) == s.spec_held(other)
            &&& s.spec_apply(event).now.spec_edge(other) == s.now.spec_edge(other)
        }),
{
}

/// A frame keeps no edge of the frame before it: with no raw events the
/// snapshot is empty and the held keys are as they were.
pub proof fn lemma_empty_frame(s: Events)
    ensures
        s.spec_pump(Seq::<RawEvent>::empty()) == s.spec_cleared(),
        s.spec_pump(Seq::<RawEvent>::empty()).now == ImmediateEvents::spec_new(),
{
}

} // verus!
