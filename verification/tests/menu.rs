use arcade_shooter::phi::data::Rectangle;
use arcade_shooter::phi::events::{Events, ImmediateEvents, RawEvent};
use arcade_shooter::phi::gfx::Sprite;
use arcade_shooter::views::main_menu::{
    border_color, box_color, label_dest, linear_transition, menu_box, Action, Color,
    MainMenuView, MenuCommand, MenuOutcome, ACTION_FOCUS_SIZE, ACTION_IDLE_SIZE, MENU_FONT,
};
use arcade_shooter::views::shared::BgSet;

const ESCAPE: i32 = 27;
const RETURN: i32 = 13;
const SPACE: i32 = 32;
const UP: i32 = 0x4000_0052;
const DOWN: i32 = 0x4000_0051;

fn menu() -> MainMenuView {
    let bg = Sprite::new(0, 800, 600);
    MainMenuView::with_backgrounds(
        Sprite::new(1, 120, 30),
        Sprite::new(2, 60, 30),
        BgSet::new(bg, bg, bg),
    )
}

fn frame(raw: Vec<RawEvent>) -> ImmediateEvents {
    let mut events = Events::new();
    events.pump(&raw);
    events.now
}

fn rect(x: i64, y: i64, w: u64, h: u64) -> Rectangle {
    Rectangle { x, y, w, h }
}

#[test]
fn the_menu_has_two_entries() {
    let view = menu();
    assert_eq!(view.selected, 0);
    assert_eq!(view.actions.len(), 2);
    assert_eq!(view.actions[0].label, "New Game");
    assert_eq!(view.actions[0].command, MenuCommand::NewGame);
    assert_eq!(view.actions[0].sprite.tex, 1);
    assert_eq!(view.actions[1].label, "Quit");
    assert_eq!(view.actions[1].command, MenuCommand::Quit);
    assert_eq!(view.actions[1].sprite.tex, 2);
    for action in view.actions.iter() {
        assert_eq!(action.size, ACTION_IDLE_SIZE);
        assert_eq!(action.color, Color { r: 200, g: 200, b: 200 });
    }
}

#[test]
fn menu_navigation() {
    let mut view = menu();
    assert_eq!(view.selected, 0);
    assert_eq!(view.handle_input(&frame(vec![RawEvent::KeyDown(DOWN)])), MenuOutcome::Continue);
    assert_eq!(view.selected, 1);
    assert_eq!(
        view.handle_input(&frame(vec![RawEvent::KeyUp(DOWN), RawEvent::KeyDown(DOWN)])),
        MenuOutcome::Continue
    );
    assert_eq!(view.selected, 0);
}

#[test]
fn up_from_the_first_entry_leads_to_the_last() {
    let mut view = menu();
    assert_eq!(view.handle_input(&frame(vec![RawEvent::KeyDown(UP)])), MenuOutcome::Continue);
    assert_eq!(view.selected, 1);
    assert_eq!(view.handle_input(&frame(vec![RawEvent::KeyDown(UP)])), MenuOutcome::Continue);
    assert_eq!(view.selected, 0);
}

#[test]
fn up_and_down_in_one_frame_cancel() {
    let mut view = menu();
    let both = frame(vec![RawEvent::KeyDown(UP), RawEvent::KeyDown(DOWN)]);
    assert_eq!(view.handle_input(&both), MenuOutcome::Continue);
    assert_eq!(view.selected, 0);
    view.selected = 1;
    assert_eq!(view.handle_input(&both), MenuOutcome::Continue);
    assert_eq!(view.selected, 1);
}

#[test]
fn releases_and_quiet_frames_do_not_move_the_selection() {
    let mut view = menu();
    assert_eq!(view.handle_input(&frame(vec![])), MenuOutcome::Continue);
    assert_eq!(view.handle_input(&frame(vec![RawEvent::KeyUp(DOWN)])), MenuOutcome::Continue);
    assert_eq!(view.handle_input(&frame(vec![RawEvent::KeyUp(SPACE)])), MenuOutcome::Continue);
    assert_eq!(view.selected, 0);
}

#[test]
fn escape_and_close_quit() {
    let mut view = menu();
    assert_eq!(view.handle_input(&frame(vec![RawEvent::KeyDown(ESCAPE)])), MenuOutcome::Quit);
    assert_eq!(view.handle_input(&frame(vec![RawEvent::Quit])), MenuOutcome::Quit);
    assert_eq!(
        view.handle_input(&frame(vec![RawEvent::Quit, RawEvent::KeyDown(DOWN)])),
        MenuOutcome::Quit
    );
    assert_eq!(view.selected, 0);
}

#[test]
fn space_and_return_run_the_selected_entry() {
    let mut view = menu();
    assert_eq!(
        view.handle_input(&frame(vec![RawEvent::KeyDown(SPACE)])),
        MenuOutcome::Run(MenuCommand::NewGame)
    );
    assert_eq!(
        view.handle_input(&frame(vec![RawEvent::KeyDown(RETURN), RawEvent::KeyDown(DOWN)])),
        MenuOutcome::Run(MenuCommand::NewGame)
    );
    assert_eq!(view.selected, 0);
    view.handle_input(&frame(vec![RawEvent::KeyDown(DOWN)]));
    assert_eq!(
        view.handle_input(&frame(vec![RawEvent::KeyDown(RETURN)])),
        MenuOutcome::Run(MenuCommand::Quit)
    );
}

#[test]
fn linear_transition_moves_towards_the_goal_and_stops_there() {
    assert_eq!(linear_transition(32_000, 38_000, 640), 32_640);
    assert_eq!(linear_transition(37_900, 38_000, 640), 38_000);
    assert_eq!(linear_transition(38_000, 32_000, 640), 37_360);
    assert_eq!(linear_transition(32_100, 32_000, 640), 32_000);
    assert_eq!(linear_transition(38_000, 38_000, 640), 38_000);
    assert_eq!(linear_transition(5, 10, 0), 5);
    assert_eq!(linear_transition(10, 5, 0), 10);
    assert_eq!(linear_transition(i64::MIN, i64::MAX, u64::MAX), i64::MAX);
    assert_eq!(linear_transition(i64::MAX, i64::MIN, u64::MAX), i64::MIN);
    assert_eq!(linear_transition(i64::MIN, 0, 1), i64::MIN + 1);
}

#[test]
fn focus_grows_and_brightens_the_label() {
    let mut action = Action::new("Quit", MenuCommand::Quit, Sprite::new(0, 10, 10));
    assert_eq!(action.font_size(), 32);
    action.focus(16);
    assert_eq!(action.size, 32_640);
    assert_eq!(action.color, Color { r: 255, g: 255, b: 255 });
    assert_eq!(action.font_size(), 32);
    action.focus(16);
    action.focus(9);
    assert_eq!(action.size, 33_640);
    assert_eq!(action.font_size(), 33);
    action.focus(1000);
    assert_eq!(action.size, ACTION_FOCUS_SIZE);
    assert_eq!(action.font_size(), 38);
    action.focus(u32::MAX);
    assert_eq!(action.size, ACTION_FOCUS_SIZE);
}

#[test]
fn defocus_shrinks_and_dims_the_label() {
    let mut action = Action::new("Quit", MenuCommand::Quit, Sprite::new(0, 10, 10));
    action.focus(1000);
    action.defocus(17);
    assert_eq!(action.size, 37_320);
    assert_eq!(action.color, Color { r: 200, g: 200, b: 200 });
    action.defocus(1000);
    assert_eq!(action.size, ACTION_IDLE_SIZE);
    action.defocus(1);
    assert_eq!(action.size, ACTION_IDLE_SIZE);
}

#[test]
fn animate_focuses_the_selected_entry_only() {
    let mut view = menu();
    view.animate(16);
    assert_eq!(view.actions[0].size, 32_640);
    assert_eq!(view.actions[0].color, Color { r: 255, g: 255, b: 255 });
    assert_eq!(view.actions[1].size, 32_000);
    assert_eq!(view.actions[1].color, Color { r: 200, g: 200, b: 200 });
    view.handle_input(&frame(vec![RawEvent::KeyDown(DOWN)]));
    view.animate(10);
    assert_eq!(view.actions[0].size, 32_240);
    assert_eq!(view.actions[0].color, Color { r: 200, g: 200, b: 200 });
    assert_eq!(view.actions[1].size, 32_400);
    assert_eq!(view.actions[1].color, Color { r: 255, g: 255, b: 255 });
    assert_eq!(view.selected, 1);
}

#[test]
fn set_sprite_replaces_one_label() {
    let mut view = menu();
    view.set_sprite(1, Sprite::new(9, 70, 35));
    assert_eq!(view.actions[1].sprite, Sprite::new(9, 70, 35));
    assert_eq!(view.actions[1].label, "Quit");
    assert_eq!(view.actions[0].sprite, Sprite::new(1, 120, 30));
}

#[test]
fn the_menu_box_is_centred() {
    let (border, inner) = menu_box(800, 600, 2);
    assert_eq!(border, rect(217, 247, 366, 106));
    assert_eq!(inner, rect(220, 250, 360, 100));
    let (border, inner) = menu_box(801, 601, 3);
    assert_eq!(inner, rect(220, 225, 360, 150));
    assert_eq!(border, rect(217, 222, 366, 156));
}

#[test]
fn the_menu_box_in_a_window_too_small_for_it() {
    let (border, inner) = menu_box(100, 51, 2);
    assert_eq!(inner, rect(-130, -25, 360, 100));
    assert_eq!(border, rect(-133, -28, 366, 106));
    let (_, inner) = menu_box(0, 0, 0);
    assert_eq!(inner, rect(-180, 0, 360, 0));
}

#[test]
fn labels_are_centred_in_their_rows() {
    assert_eq!(label_dest(800, 600, 2, 0, 100, 30), rect(350, 260, 100, 30));
    assert_eq!(label_dest(800, 600, 2, 1, 100, 30), rect(350, 310, 100, 30));
    assert_eq!(label_dest(800, 600, 2, 1, 101, 31), rect(349, 309, 101, 31));
    assert_eq!(label_dest(100, 600, 2, 0, 200, 60), rect(-50, 245, 200, 60));
}

#[test]
fn the_colours_and_the_font_of_the_menu() {
    assert_eq!(border_color(), Color { r: 180, g: 180, b: 255 });
    assert_eq!(box_color(), Color { r: 80, g: 80, b: 200 });
    assert_eq!(MENU_FONT, "assets/belligerent.ttf");
    assert_eq!((ACTION_IDLE_SIZE, ACTION_FOCUS_SIZE), (32_000, 38_000));
}
