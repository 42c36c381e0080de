use arcade_shooter::phi::data::Rectangle;
use arcade_shooter::phi::gfx::{delay_of_fps, AnimatedSprite, Sprite};

fn rect(x: i64, y: i64, w: u64, h: u64) -> Rectangle {
    Rectangle { x, y, w, h }
}

fn frames(n: usize) -> Vec<Sprite> {
    let sheet = Sprite::new(7, 1000, 10);
    (0..n).map(|i| sheet.region(rect(10 * i as i64, 0, 10, 10)).unwrap()).collect()
}

#[test]
fn a_new_sprite_shows_the_whole_texture() {
    let sprite = Sprite::new(3, 129, 117);
    assert_eq!(sprite.tex, 3);
    assert_eq!(sprite.src, rect(0, 0, 129, 117));
    assert_eq!(sprite.size(), (129, 117));
}

#[test]
fn region_is_relative_to_the_current_region() {
    let sheet = Sprite::new(1, 100, 100);
    let quarter = sheet.region(rect(50, 50, 50, 50)).unwrap();
    assert_eq!(quarter.src, rect(50, 50, 50, 50));
    assert_eq!(quarter.tex, 1);
    let inner = quarter.region(rect(10, 20, 30, 30)).unwrap();
    assert_eq!(inner.src, rect(60, 70, 30, 30));
    assert_eq!(inner.size(), (30, 30));
    assert_eq!(inner.tex, 1);
}

#[test]
fn region_outside_the_current_region_fails() {
    let sheet = Sprite::new(1, 100, 100);
    assert_eq!(sheet.region(rect(0, 0, 101, 10)), None);
    assert_eq!(sheet.region(rect(-1, 0, 10, 10)), None);
    assert_eq!(sheet.region(rect(95, 95, 10, 10)), None);
    assert_eq!(sheet.region(rect(i64::MAX, 0, 1, 1)), None);
    assert_eq!(sheet.region(rect(0, i64::MIN, 1, 1)), None);
    assert_eq!(sheet.region(rect(0, 0, u64::MAX, 1)), None);
    let quarter = sheet.region(rect(50, 50, 50, 50)).unwrap();
    assert_eq!(quarter.region(rect(-10, 0, 10, 10)), None);
    assert_eq!(quarter.region(rect(0, 0, 50, 50)), Some(quarter));
    assert_eq!(sheet.region(rect(100, 100, 0, 0)).map(|s| s.src), Some(rect(100, 100, 0, 0)));
}

#[test]
fn frame_delay_from_frames_per_second() {
    assert_eq!(delay_of_fps(10), 100_000);
    assert_eq!(delay_of_fps(15), 66_666);
    assert_eq!(delay_of_fps(60), 16_666);
    assert_eq!(delay_of_fps(1), 1_000_000);
    assert_eq!(delay_of_fps(-10), -100_000);
    assert_eq!(delay_of_fps(-3), -333_333);
    assert_eq!(delay_of_fps(i16::MAX), 30);
    assert_eq!(delay_of_fps(i16::MIN), -30);
}

#[test]
fn a_new_animation_starts_at_zero() {
    let anim = AnimatedSprite::new(frames(3), 100_000);
    assert_eq!(anim.frames(), 3);
    assert_eq!(anim.current_time, 0);
    assert_eq!(anim.frame_delay, 100_000);
    assert_eq!(anim.current_frame(), 0);
    let by_fps = AnimatedSprite::with_fps(frames(4), 20);
    assert_eq!(by_fps.frame_delay, 50_000);
    assert_eq!(by_fps.frames(), 4);
    assert_eq!(by_fps.current_time, 0);
}

#[test]
fn frame_index_is_whole_delays_round_the_frames() {
    let mut anim = AnimatedSprite::new(frames(3), 100_000);
    anim.add_time(250_000);
    assert_eq!(anim.current_frame(), 2);
    assert_eq!(anim.current(), frames(3)[2]);
    anim.add_time(49_999);
    assert_eq!(anim.current_frame(), 2);
    anim.add_time(1);
    assert_eq!(anim.current_frame(), 0);
    anim.add_time(100_000);
    assert_eq!(anim.current_frame(), 1);
    anim.add_time(1_000_000_000_000);
    assert_eq!(anim.current_time, 1_000_000_400_000);
    assert_eq!(anim.current_frame(), (10_000_004u64 % 3) as usize);
}

#[test]
fn add_time_adds_up() {
    let mut split = AnimatedSprite::new(frames(3), 100_000);
    split.add_time(120_000);
    split.add_time(230_000);
    let mut whole = AnimatedSprite::new(frames(3), 100_000);
    whole.add_time(350_000);
    assert_eq!(split.current_time, 350_000);
    assert_eq!(split.current_time, whole.current_time);

    let mut back = AnimatedSprite::new(frames(3), 100_000);
    back.add_time(500_000);
    back.add_time(-200_000);
    assert_eq!(back.current_time, 300_000);
}

#[test]
fn negative_time_wraps_to_the_last_frame() {
    let mut anim = AnimatedSprite::new(frames(3), 100_000);
    anim.add_time(-1);
    assert_eq!(anim.current_time, 200_000);
    assert_eq!(anim.current_frame(), 2);
    anim.add_time(-200_000);
    assert_eq!(anim.current_time, 0);
    anim.add_time(-50);
    assert_eq!(anim.current_time, 200_000);

    let mut one = AnimatedSprite::new(frames(1), 100_000);
    one.add_time(-5);
    assert_eq!(one.current_time, 0);
}

#[test]
fn adding_after_a_wrap_starts_from_the_last_frame() {
    let mut split = AnimatedSprite::new(frames(3), 100_000);
    split.add_time(-1);
    split.add_time(2);
    assert_eq!(split.current_time, 200_002);
    let mut whole = AnimatedSprite::new(frames(3), 100_000);
    whole.add_time(1);
    assert_eq!(whole.current_time, 1);
}

#[test]
fn a_negative_delay_plays_in_reverse() {
    let mut anim = AnimatedSprite::new(frames(4), -100_000);
    assert_eq!(anim.current_frame(), 0);
    anim.add_time(1);
    assert_eq!(anim.current_frame(), 3);
    anim.add_time(99_999);
    assert_eq!(anim.current_frame(), 3);
    anim.add_time(1);
    assert_eq!(anim.current_frame(), 2);
    anim.add_time(149_999);
    assert_eq!(anim.current_time, 250_000);
    assert_eq!(anim.current_frame(), 1);
    anim.add_time(150_000);
    assert_eq!(anim.current_frame(), 0);
    anim.add_time(1);
    assert_eq!(anim.current_frame(), 3);
}

#[test]
fn negative_time_with_a_negative_delay() {
    let mut anim = AnimatedSprite::new(frames(4), -100_000);
    anim.add_time(-1);
    assert_eq!(anim.current_time, -300_000);
    assert_eq!(anim.current_frame(), 3);
}

#[test]
fn a_clock_set_below_zero_counts_round_the_frames() {
    let mut anim = AnimatedSprite::new(frames(3), 100_000);
    anim.current_time = -1;
    assert_eq!(anim.current_frame(), 2);
    anim.current_time = -100_000;
    assert_eq!(anim.current_frame(), 2);
    anim.current_time = -100_001;
    assert_eq!(anim.current_frame(), 1);
    anim.current_time = i64::MIN;
    anim.frame_delay = i32::MAX;
    assert_eq!(anim.current_frame(), 2);
    anim.current_time = i64::MAX;
    anim.frame_delay = i32::MIN;
    assert_eq!(anim.current_frame(), 2);
}

#[test]
fn set_frame_delay_and_fps_keep_the_clock() {
    let mut anim = AnimatedSprite::new(frames(3), 100_000);
    anim.add_time(250_000);
    anim.set_frame_delay(50_000);
    assert_eq!(anim.frame_delay, 50_000);
    assert_eq!(anim.current_time, 250_000);
    assert_eq!(anim.current_frame(), 2);
    anim.set_fps(30);
    assert_eq!(anim.frame_delay, 33_333);
    assert_eq!(anim.current_time, 250_000);
    assert_eq!(anim.current_frame(), 7 % 3);
    anim.set_fps(-4);
    assert_eq!(anim.frame_delay, -250_000);
    assert_eq!(anim.frames(), 3);
}
