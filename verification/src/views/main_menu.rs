//! The main menu: a list of actions, one of them selected.

use vstd::prelude::*;
use crate::phi::data::Rectangle;
use crate::phi::events::ImmediateEvents;
use crate::phi::gfx::Sprite;
use crate::views::shared::BgSet;

verus! {

/// A colour by its red, green and blue parts.
#[derive(Clone, Copy, Debug, PartialEq, Eq, Structural)]
pub struct Color {
    pub r: u8,
    pub g: u8,
    pub b: u8,
}

/// What choosing a menu entry does.
#[derive(Clone, Copy, Debug, PartialEq, Eq, Structural)]
pub enum MenuCommand {
    /// Start a game, with the menu's backgrounds carried over.
    NewGame,
    /// Leave the program.
    Quit,
}

/// What the menu asks for after it has looked at a frame's input.
#[derive(Clone, Copy, Debug, PartialEq, Eq, Structural)]
pub enum MenuOutcome {
    /// Leave the program.
    Quit,
    /// Carry out the selected entry's command.
    Run(MenuCommand),
    /// Draw the menu and go on.
    Continue,
}

/// Label size of an entry at rest, in thousandths of a point.
pub const ACTION_IDLE_SIZE: i64 = 32_000;

/// Label size of the selected entry, in thousandths of a point.
pub const ACTION_FOCUS_SIZE: i64 = 38_000;

/// How fast a label grows and shrinks, in points a second.
pub const ACTION_GROWTH: u64 = 40;

/// The height of one entry, in pixels.
pub const LABEL_H: i64 = 50;

/// The width of the menu box, in pixels.
pub const BOX_W: i64 = 360;

/// The width of the border round the menu box, in pixels.
pub const BORDER_WIDTH: i64 = 3;

/// The font of the labels.
pub const MENU_FONT: &'static str = "assets/belligerent.ttf";

/// The colour of a label at rest.
pub open spec fn idle_color() -> Color {
    Color { r: 200, g: 200, b: 200 }
}

/// The colour of the selected label.
pub open spec fn focus_color() -> Color {
    Color { r: 255, g: 255, b: 255 }
}

/// The colour of the border round the menu box.
pub fn border_color() -> (c: Color)
    ensures
        c == (Color { r: 180, g: 180, b: 255 }),
{
    Color { r: 180, g: 180, b: 255 }
}

/// The colour of the menu box.
pub fn box_color() -> (c: Color)
    ensures
        c == (Color { r: 80, g: 80, b: 200 }),
{
    Color { r: 80, g: 80, b: 200 }
}

/// A value moved from `current` towards `final_state` by `speed`, and not
/// past it. A value that is at or beyond `final_state` moves down.
pub open spec fn spec_linear_transition(current: int, final_state: int, speed: int) -> int {
    if current < final_state {
        if current + speed > final_state {
            final_state
        } else {
            current + speed
        }
    } else {
        if current - speed < final_state {
            final_state
        } else {
            current - speed
        }
    }
}

/// Moves `current` towards `final_state` by `speed`, stopping there.
pub fn linear_transition(current: i64, final_state: i64, speed: u64) -> (r: i64)
    ensures
        r == spec_linear_transition(current as int, final_state as int, speed as int),
        current <= final_state ==> current <= r <= final_state,
        current >= final_state ==> final_state <= r <= current,
{
    if current < final_state {
        let moved: i128 = current as i128 + speed as i128;
        if moved > final_state as i128 {
            final_state
        } else {
            moved as i64
        }
    } else {
        let moved: i128 = current as i128 - speed as i128;
        if moved < final_state as i128 {
            final_state
        } else {
            moved as i64
        }
    }
}

/// One entry of the menu. `size` is the label's size now, in thousandths of
/// a point; `sprite` is the label as it was last rendered.
#[derive(Clone, Copy, Debug)]
pub struct Action {
    pub command: MenuCommand,
    pub label: &'static str,
    pub sprite: Sprite,
    pub size: i64,
    pub color: Color,
}

impl Action {
    /// The label's size is between the size at rest and the size in focus.
    pub open spec fn wf(self) -> bool {
        ACTION_IDLE_SIZE <= self.size <= ACTION_FOCUS_SIZE
    }

    /// The entry after `elapsed` milliseconds in focus.
    pub open spec fn spec_focus(self, elapsed: u32) -> Action {
        Action {
            color: focus_color(),
            size: spec_linear_transition(
                self.size as int,
                ACTION_FOCUS_SIZE as int,
                ACTION_GROWTH * elapsed,
            ) as i64,
            ..self
        }
    }

    /// The entry after `elapsed` milliseconds out of focus.
    pub open spec fn spec_defocus(self, elapsed: u32) -> Action {
        Action {
            color: idle_color(),
            size: spec_linear_transition(
                self.size as int,
                ACTION_IDLE_SIZE as int,
                ACTION_GROWTH * elapsed,
            ) as i64,
            ..self
        }
    }

    /// An entry at rest. `sprite` is its rendered label.
    pub fn new(label: &'static str, command: MenuCommand, sprite: Sprite) -> (r: Action)
        ensures
            r.wf(),
            r == (Action { command, label, sprite, size: ACTION_IDLE_SIZE, color: idle_color() }),
    {
        Action {
            command,
            label,
            sprite,
            size: ACTION_IDLE_SIZE,
            color: Color { r: 200, g: 200, b: 200 },
        }
    }

    /// Brightens the label and lets it grow for `elapsed` milliseconds.
    pub fn focus(&mut self, elapsed: u32)
        requires
            old(self).wf(),
        ensures
            final(self).wf(),
            *final(self) == old(self).spec_focus(elapsed),
    {
        let speed: u64 = ACTION_GROWTH * (elapsed as u64);
        self.color = Color { r: 255, g: 255, b: 255 };
        self.size = linear_transition(self.size, ACTION_FOCUS_SIZE, speed);
    }

    /// Dims the label and lets it shrink for `elapsed` milliseconds.
    pub fn defocus(&mut self, elapsed: u32)
        requires
            old(self).wf(),
        ensures
            final(self).wf(),
            *final(self) == old(self).spec_defocus(elapsed),
    {
        let speed: u64 = ACTION_GROWTH * (elapsed as u64);
        self.color = Color { r: 200, g: 200, b: 200 };
        self.size = linear_transition(self.size, ACTION_IDLE_SIZE, speed);
    }

    /// The point size in which the label is rendered now.
    pub fn font_size(&self) -> (points: i32)
        requires
            self.wf(),
        ensures
            points == self.size / 1000,
            32 <= points <= 38,
    {
        (self.size / 1000) as i32
    }
}

/// The selection after an "up" edge: one entry up, from the first entry to
/// the last.
pub open spec fn spec_select_up(selected: int, count: int) -> int {
    if selected - 1 < 0 {
        count - 1
    } else {
        selected - 1
    }
}

/// The selection after a "down" edge: one entry down, from the last entry
/// to the first.
pub open spec fn spec_select_down(selected: int, count: int) -> int {
    if selected + 1 >= count {
        0
    } else {
        selected + 1
    }
}

/// The selection after a frame's input: an "up" edge, if there is one, is
/// taken before a "down" edge.
pub open spec fn spec_select(selected: int, count: int, now: ImmediateEvents) -> int {
    let after_up = if now.key_up == Some(true) {
        spec_select_up(selected, count)
    } else {
        selected
    };
    if now.key_down == Some(true) {
        spec_select_down(after_up, count)
    } else {
        after_up
    }
}

/// The border of the menu box and the box itself, for `count` entries in a
/// window `win_w` by `win_h` pixels: the box is centred, the border lies
/// round it.
pub open spec fn spec_menu_box(win_w: int, win_h: int, count: int) -> (Rectangle, Rectangle) {
    let box_h = count * LABEL_H;
    (
        Rectangle {
            x: ((win_w - BOX_W) / 2 - BORDER_WIDTH) as i64,
            y: ((win_h - box_h) / 2 - BORDER_WIDTH) as i64,
            w: (BOX_W + 2 * BORDER_WIDTH) as u64,
            h: (box_h + 2 * BORDER_WIDTH) as u64,
        },
        Rectangle {
            x: ((win_w - BOX_W) / 2) as i64,
            y: ((win_h - box_h) / 2) as i64,
            w: BOX_W as u64,
            h: box_h as u64,
        },
    )
}

/// Where the label of entry `i`, `w` by `h` pixels, is drawn: centred in
/// the window from side to side, and centred in its own row of the box.
pub open spec fn spec_label_dest(win_w: int, win_h: int, count: int, i: int, w: int, h: int)
    -> Rectangle {
    Rectangle {
        x: ((win_w - w) / 2) as i64,
        y: (((win_h - count * LABEL_H) + (LABEL_H - h)) / 2 + LABEL_H * i) as i64,
        w: w as u64,
        h: h as u64,
    }
}

/// Half of `a`, rounded down.
fn half(a: i64) -> (r: i64)
    ensures
        r == a / 2,
{
    if a >= 0 {
        a / 2
    } else {
        let b: i64 = -(a + 1);
        -(b / 2) - 1
    }
}

/// The border of the menu box and the box itself.
pub fn menu_box(win_w: u32, win_h: u32, count: u8) -> (r: (Rectangle, Rectangle))
    ensures
        r == spec_menu_box(win_w as int, win_h as int, count as int),
{
    let box_h: i64 = (count as i64) * LABEL_H;
    let x: i64 = half(win_w as i64 - BOX_W);
    let y: i64 = half(win_h as i64 - box_h);
    (
        Rectangle {
            x: x - BORDER_WIDTH,
            y: y - BORDER_WIDTH,
            w: (BOX_W + 2 * BORDER_WIDTH) as u64,
            h: (box_h + 2 * BORDER_WIDTH) as u64,
        },
        Rectangle { x, y, w: BOX_W as u64, h: box_h as u64 },
    )
}

/// Where the label of entry `i` is drawn, given the size `w` by `h` of its
/// rendered sprite.
pub fn label_dest(win_w: u32, win_h: u32, count: u8, i: u8, w: u32, h: u32) -> (r: Rectangle)
    ensures
        r == spec_label_dest(
            win_w as int,
            win_h as int,
            count as int,
            i as int,
            w as int,
            h as int,
        ),
{
    let box_h: i64 = (count as i64) * LABEL_H;
    let x: i64 = half(win_w as i64 - w as i64);
    let y: i64 = half((win_h as i64 - box_h) + (LABEL_H - h as i64)) + LABEL_H * (i as i64);
    Rectangle { x, y, w: w as u64, h: h as u64 }
}

/// The menu screen.
#[derive(Clone, Debug)]
pub struct MainMenuView {
    pub actions: Vec<Action>,
    pub selected: i8,
    pub backgrounds: BgSet,
}

impl MainMenuView {
    /// There is an entry, the entries can be counted in an `i8`, one of
    /// them is selected, and each is well-formed.
    pub open spec fn wf(&self) -> bool {
        &&& 0 < self.actions@.len() <= i8::MAX
        &&& 0 <= self.selected < self.actions@.len()
        &&& forall|i: int| 0 <= i < self.actions@.len() ==> (#[trigger] self.actions@[i]).wf()
    }

    /// What the menu asks for, given the frame's snapshot `now`: to quit on
    /// a close request or an "escape" edge; else, on a "space" or "return"
    /// edge, to run the selected entry's command; else to go on.
    pub open spec fn spec_outcome(&self, now: ImmediateEvents) -> MenuOutcome {
        if now.quit || now.key_escape == Some(true) {
            MenuOutcome::Quit
        } else if now.key_space == Some(true) || now.key_return == Some(true) {
            MenuOutcome::Run(self.actions@[self.selected as int].command)
        } else {
            MenuOutcome::Continue
        }
    }

    /// The menu with its two entries, "New Game" and "Quit", the first one
    /// selected. The sprites are the rendered labels.
    pub fn with_backgrounds(new_game: Sprite, quit: Sprite, backgrounds: BgSet) -> (r:
        MainMenuView)
        ensures
            r.wf(),
            r.selected == 0,
            r.backgrounds == backgrounds,
            r.actions@.len() == 2,
            r.actions@[0] == (Action {
                command: MenuCommand::NewGame,
                label: "New Game",
                sprite: new_game,
                size: ACTION_IDLE_SIZE,
                color: idle_color(),
            }),
            r.actions@[1] == (Action {
                command: MenuCommand::Quit,
                label: "Quit",
                sprite: quit,
                size: ACTION_IDLE_SIZE,
                color: idle_color(),
            }),
    {
        let mut actions: Vec<Action> = Vec::new();
        actions.push(Action::new("New Game", MenuCommand::NewGame, new_game));
        actions.push(Action::new("Quit", MenuCommand::Quit, quit));
        MainMenuView { actions, selected: 0, backgrounds }
    }

    /// Looks at the frame's snapshot. Quitting and running a command leave
    /// the menu as it is; otherwise the selection follows the "up" and
    /// "down" edges.
    pub fn handle_input(&mut self, now: &ImmediateEvents) -> (r: MenuOutcome)
        requires
            old(self).wf(),
        ensures
            final(self).wf(),
            r == old(self).spec_outcome(*now),
            final(self).actions == old(self).actions,
            final(self).backgrounds == old(self).backgrounds,
            r == MenuOutcome::Continue ==> final(self).selected == spec_select(
                old(self).selected as int,
                old(self).actions@.len() as int,
                *now,
            ),
            r != MenuOutcome::Continue ==> final(self).selected == old(self).selected,
    {
        if now.quit || is_pressed(now.key_escape) {
            return MenuOutcome::Quit;
        }
        if is_pressed(now.key_space) || is_pressed(now.key_return) {
            return MenuOutcome::Run(self.actions[self.selected as usize].command);
        }
        let count: i8 = self.actions.len() as i8;
        if is_pressed(now.key_up) {
            if self.selected - 1 < 0 {
                self.selected = count - 1;
            } else {
                self.selected = self.selected - 1;
            }
        }
        if is_pressed(now.key_down) {
            if self.selected as i16 + 1 >= count as i16 {
                self.selected = 0;
            } else {
                self.selected = self.selected + 1;
            }
        }
        MenuOutcome::Continue
    }

    /// Lets `elapsed` milliseconds pass for the labels: the selected entry
    /// is in focus, every other entry is not.
    pub fn animate(&mut self, elapsed: u32)
        requires
            old(self).wf(),
        ensures
            final(self).wf(),
            final(self).selected == old(self).selected,
            final(self).backgrounds == old(self).backgrounds,
            final(self).actions@.len() == old(self).actions@.len(),
            forall|i: int|
                0 <= i < old(self).actions@.len() ==> #[trigger] final(self).actions@[i] == (if i
                    == old(self).selected {
                    old(self).actions@[i].spec_focus(elapsed)
                } else {
                    old(self).actions@[i].spec_defocus(elapsed)
                }),
    {
        let mut i: usize = 0;
        while i < self.actions.len()
            invariant
                i <= self.actions@.len(),
                self.actions@.len() == old(self).actions@.len(),
                self.selected == old(self).selected,
                self.backgrounds == old(self).backgrounds,
                old(self).wf(),
                forall|j: int| 0 <= j < self.actions@.len() ==> (#[trigger] self.actions@[j]).wf(),
                forall|j: int| i <= j < self.actions@.len() ==> self.actions@[j] == old(self).actions@[j],
                forall|j: int|
                    0 <= j < i ==> #[trigger] self.actions@[j] == (if j == old(self).selected {
                        old(self).actions@[j].spec_focus(elapsed)
                    } else {
                        old(self).actions@[j].spec_defocus(elapsed)
                    }),
            decreases self.actions@.len() - i,
        {
            let mut action: Action = self.actions[i];
            if self.selected as usize == i {
                action.focus(elapsed);
            } else {
                action.defocus(elapsed);
            }
            self.actions.set(i, action);
            i += 1;
        }
    }

    /// Replaces the rendered label of entry `i`.
    pub fn set_sprite(&mut self, i: usize, sprite: Sprite)
        requires
            old(self).wf(),
            i < old(self).actions@.len(),
        ensures
            final(self).wf(),
            final(self).selected == old(self).selected,
            final(self).backgrounds == old(self).backgrounds,
            final(self).actions@ == old(self).actions@.update(
                i as int,
                (Action { sprite, ..old(self).actions@[i as int] }),
            ),
    {
        let mut action: Action = self.actions[i];
        action.sprite = sprite;
        self.actions.set(i, action);
    }
}

/// Whether an edge is a press.
fn is_pressed(edge: Option<bool>) -> (r: bool)
    ensures
        r == (edge == Some(true)),
{
    match edge {
        Some(down) => down,
        None => false,
    }
}

/// The selection stays on an entry, whatever the input.
pub proof fn lemma_selection_in_range(selected: int, count: int, now: ImmediateEvents)
    requires
        0 <= selected < count,
    ensures
        0 <= spec_select(selected, count, now) < count,
{
}

/// Going down from the last entry leads to the first, going up from the
/// first to the last, and one step up undoes one step down.
pub proof fn lemma_selection_wraps(selected: int, count: int)
    requires
        0 <= selected < count,
    ensures
        spec_select_down(count - 1, count) == 0,
        spec_select_up(0, count) == count - 1,
        spec_select_up(spec_select_down(selected, count), count) == selected,
        spec_select_down(spec_select_up(selected, count), count) == selected,
{
}

} // verus!
