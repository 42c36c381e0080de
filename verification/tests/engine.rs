use arcade_shooter::phi::events::Events;
use arcade_shooter::phi::{
    apply_action, FontCache, FontRequest, FrameClock, LoopState, Phi, Tick, ViewAction,
    FRAME_INTERVAL,
};

#[test]
fn the_frame_interval_is_a_sixtieth_of_a_second() {
    assert_eq!(FRAME_INTERVAL, 1000 / 60);
}

#[test]
fn the_clock_waits_for_the_rest_of_the_interval() {
    let mut clock = FrameClock::new(100);
    assert_eq!(clock.tick(100), Tick::Wait(16));
    assert_eq!(clock.tick(105), Tick::Wait(11));
    assert_eq!(clock.tick(115), Tick::Wait(1));
    assert_eq!(clock.before, 100);
    assert_eq!(clock.fps, 0);
}

#[test]
fn the_clock_runs_a_frame_once_the_interval_has_passed() {
    let mut clock = FrameClock::new(100);
    assert_eq!(clock.tick(116), Tick::Frame { elapsed: 16, report: None });
    assert_eq!(clock.before, 116);
    assert_eq!(clock.fps, 1);
    assert_eq!(clock.tick(120), Tick::Wait(12));
    assert_eq!(clock.tick(150), Tick::Frame { elapsed: 34, report: None });
    assert_eq!(clock.fps, 2);
    assert_eq!(clock.last_second, 100);
}

#[test]
fn the_clock_reports_the_frame_count_after_a_second() {
    let mut clock = FrameClock::new(0);
    let mut now: u32 = 0;
    let mut frames: u16 = 0;
    loop {
        now += 17;
        match clock.tick(now) {
            Tick::Frame { elapsed, report: None } => {
                assert_eq!(elapsed, 17);
                frames += 1;
            }
            Tick::Frame { elapsed, report: Some(count) } => {
                assert_eq!(elapsed, 17);
                assert_eq!(now, 1003);
                assert_eq!(count, frames + 1);
                assert_eq!(count, 59);
                break;
            }
            Tick::Wait(_) => panic!("no wait is due"),
        }
    }
    assert_eq!(clock.fps, 0);
    assert_eq!(clock.last_second, 1003);
    assert_eq!(clock.before, 1003);
    assert_eq!(clock.tick(2003), Tick::Frame { elapsed: 1000, report: None });
    assert_eq!(clock.tick(2020), Tick::Frame { elapsed: 17, report: Some(2) });
}

#[test]
fn a_long_pause_is_one_frame() {
    let mut clock = FrameClock::new(5);
    assert_eq!(clock.tick(5005), Tick::Frame { elapsed: 5000, report: Some(1) });
    assert_eq!(clock.fps, 0);
    assert_eq!(clock.last_second, 5005);
}

#[test]
fn continue_keeps_the_view_and_shows_the_frame() {
    let (state, present) = apply_action(1u8, ViewAction::Continue);
    assert!(matches!(state, LoopState::Running(1)));
    assert!(present);
}

#[test]
fn quit_ends_the_loop() {
    let (state, present) = apply_action(1u8, ViewAction::Quit);
    assert!(matches!(state, LoopState::Terminated));
    assert!(!present);
}

#[test]
fn change_view_runs_the_new_view_next() {
    let (state, present) = apply_action(1u8, ViewAction::ChangeView(2u8));
    assert!(matches!(state, LoopState::Running(2)));
    assert!(!present);
}

/// A view that asks for its successor on the third frame and quits on the
/// sixth.
fn render(view: u8, calls: &mut Vec<u8>) -> ViewAction<u8> {
    calls.push(view);
    if calls.len() == 3 {
        ViewAction::ChangeView(view + 1)
    } else if calls.len() == 6 {
        ViewAction::Quit
    } else {
        ViewAction::Continue
    }
}

#[test]
fn view_transition() {
    let mut calls: Vec<u8> = Vec::new();
    let mut presented: Vec<u8> = Vec::new();
    let mut state = LoopState::Running(1u8);
    while let LoopState::Running(view) = state {
        let action = render(view, &mut calls);
        let (next, present) = apply_action(view, action);
        if present {
            presented.push(view);
        }
        state = next;
    }
    assert_eq!(calls, vec![1, 1, 1, 2, 2, 2]);
    assert_eq!(presented, vec![1, 1, 2, 2]);
}

#[test]
fn an_empty_cache_has_nothing() {
    let cache = FontCache::new();
    assert_eq!(cache.len(), 0);
    assert_eq!(cache.lookup("f.ttf", 10), None);
}

#[test]
fn the_cache_keeps_fonts_by_file_and_size() {
    let mut cache = FontCache::new();
    assert_eq!(cache.insert("f.ttf", 10), 0);
    assert_eq!(cache.insert("f.ttf", 12), 1);
    assert_eq!(cache.insert("g.ttf", 10), 2);
    assert_eq!(cache.len(), 3);
    assert_eq!(cache.lookup("f.ttf", 10), Some(0));
    assert_eq!(cache.lookup("f.ttf", 12), Some(1));
    assert_eq!(cache.lookup("g.ttf", 10), Some(2));
    assert_eq!(cache.lookup("g.ttf", 12), None);
    assert_eq!(cache.lookup("f.ttf", -10), None);
    assert_eq!(cache.lookup("", 10), None);
}

/// Serves a request for text the way the drawing side does: from the
/// cache, or by one load.
fn text_sprite(phi: &mut Phi, path: &str, size: i32, loads: &mut u32) -> usize {
    match phi.font_request(path, size) {
        FontRequest::Cached(slot) => slot,
        FontRequest::Load => {
            *loads += 1;
            phi.font_loaded(path, size)
        }
    }
}

#[test]
fn font_cache() {
    let mut phi = Phi::new(Events::new());
    let mut loads = 0;
    let first = text_sprite(&mut phi, "f.ttf", 10, &mut loads);
    let second = text_sprite(&mut phi, "f.ttf", 10, &mut loads);
    assert_eq!(loads, 1);
    assert_eq!(first, second);
    assert_eq!(phi.cached_fonts.len(), 1);
    let other = text_sprite(&mut phi, "f.ttf", 11, &mut loads);
    assert_eq!(loads, 2);
    assert_ne!(other, first);
    assert_eq!(text_sprite(&mut phi, "f.ttf", 10, &mut loads), first);
    assert_eq!(loads, 2);
}

#[test]
fn a_failed_load_leaves_the_cache_as_it_was() {
    let phi = Phi::new(Events::new());
    assert_eq!(phi.font_request("missing.ttf", 10), FontRequest::Load);
    assert_eq!(phi.cached_fonts.len(), 0);
    assert_eq!(phi.font_request("missing.ttf", 10), FontRequest::Load);
}
