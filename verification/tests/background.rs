use arcade_shooter::phi::data::Rectangle;
use arcade_shooter::phi::gfx::Sprite;
use arcade_shooter::views::shared::{Background, BgSet, SUBPIXELS};

fn layer(pos: i64, vel: i32, w: u32, h: u32) -> Background {
    Background { pos, vel, sprite: Sprite::new(0, w, h) }
}

fn rect(x: i64, y: i64, w: u64, h: u64) -> Rectangle {
    Rectangle { x, y, w, h }
}

#[test]
fn positions_are_in_thousandths_of_a_pixel() {
    assert_eq!(SUBPIXELS, 1000);
}

#[test]
fn background_wrap() {
    let mut bg = layer(790_000, 20, 800, 600);
    bg.advance(1000);
    assert_eq!(bg.pos, 10_000);
    assert_eq!(bg.vel, 20);
}

#[test]
fn a_frame_moves_the_layer_by_speed_times_time() {
    let mut bg = layer(0, 40, 800, 600);
    bg.advance(16);
    assert_eq!(bg.pos, 640);
    bg.advance(17);
    assert_eq!(bg.pos, 1320);
    bg.advance(0);
    assert_eq!(bg.pos, 1320);
}

#[test]
fn the_offset_wraps_round_the_width() {
    let mut at_edge = layer(780_000, 20, 800, 600);
    at_edge.advance(1000);
    assert_eq!(at_edge.pos, 0);
    at_edge.advance(1);
    assert_eq!(at_edge.pos, 20);

    let mut just_short = layer(780_000, 20, 800, 600);
    just_short.advance(999);
    assert_eq!(just_short.pos, 799_980);

    let mut far = layer(0, 80, 100, 100);
    far.advance(10_000);
    assert_eq!(far.pos, 0);
    far.advance(10_001);
    assert_eq!(far.pos, 80);

    let mut long = layer(0, i32::MAX, 800, 600);
    long.advance(u32::MAX);
    assert_eq!(long.pos, (i32::MAX as i64 * u32::MAX as i64) % 800_000);
}

#[test]
fn a_layer_scrolling_backwards_wraps_too() {
    let mut backwards = layer(5_000, -20, 800, 600);
    backwards.advance(1000);
    assert_eq!(backwards.pos, 785_000);
    backwards.advance(39_250);
    assert_eq!(backwards.pos, 0);
    backwards.advance(1);
    assert_eq!(backwards.pos, 799_980);
    assert_eq!(backwards.tiles(800, 600), vec![rect(-799, 0, 800, 600), rect(1, 0, 800, 600)]);
}

#[test]
fn one_tile_fills_a_window_of_the_sprites_size() {
    let bg = layer(0, 20, 800, 600);
    assert_eq!(bg.tiles(800, 600), vec![rect(0, 0, 800, 600)]);
}

#[test]
fn a_scrolled_layer_needs_a_second_tile() {
    let bg = layer(10_000, 20, 800, 600);
    assert_eq!(bg.tiles(800, 600), vec![rect(-10, 0, 800, 600), rect(790, 0, 800, 600)]);
    let bg = layer(10_999, 20, 800, 600);
    assert_eq!(bg.tiles(800, 600)[0].x, -10);
}

#[test]
fn tiles_scale_with_the_windows_height() {
    let bg = layer(10_000, 20, 800, 600);
    assert_eq!(bg.tiles(1600, 1200), vec![rect(-20, 0, 1600, 1200), rect(1580, 0, 1600, 1200)]);
    assert_eq!(
        bg.tiles(1000, 300),
        vec![rect(-5, 0, 400, 300), rect(395, 0, 400, 300), rect(795, 0, 400, 300)]
    );
}

#[test]
fn tiles_begin_left_of_the_right_edge() {
    let bg = layer(0, 20, 100, 100);
    let tiles = bg.tiles(250, 100);
    assert_eq!(tiles.len(), 3);
    assert_eq!(tiles[2], rect(200, 0, 100, 100));
    assert_eq!(bg.tiles(200, 100).len(), 2);
    assert_eq!(bg.tiles(201, 100).len(), 3);
    assert_eq!(bg.tiles(0, 100).len(), 0);
}

#[test]
fn the_star_field_has_three_speeds() {
    let set = BgSet::new(Sprite::new(1, 800, 600), Sprite::new(2, 800, 600), Sprite::new(3, 800, 600));
    assert_eq!((set.back.pos, set.back.vel, set.back.sprite.tex), (0, 20, 1));
    assert_eq!((set.middle.pos, set.middle.vel, set.middle.sprite.tex), (0, 40, 2));
    assert_eq!((set.front.pos, set.front.vel, set.front.sprite.tex), (0, 80, 3));
}

#[test]
fn render_scrolls_and_then_places_the_tiles() {
    let mut bg = layer(790_000, 20, 800, 600);
    let tiles = bg.render(1000, 800, 600);
    assert_eq!(bg.pos, 10_000);
    assert_eq!(tiles, vec![rect(-10, 0, 800, 600), rect(790, 0, 800, 600)]);
    let mut still = layer(0, 0, 800, 600);
    assert_eq!(still.render(16, 1600, 600), vec![rect(0, 0, 800, 600), rect(800, 0, 800, 600)]);
    assert_eq!(still.pos, 0);
}

#[test]
fn the_tiles_cover_every_column() {
    let bg = layer(23_456, 20, 37, 11);
    let tiles = bg.tiles(500, 29);
    let width = 37 * 29 / 11;
    assert_eq!(tiles[0].w, width);
    assert_eq!(tiles[0].x, -61);
    for column in 0..500i64 {
        assert!(tiles.iter().any(|t| t.x <= column && column < t.x + t.w as i64));
    }
    for pair in tiles.windows(2) {
        assert_eq!(pair[0].x + pair[0].w as i64, pair[1].x);
    }
    assert!(tiles.last().unwrap().x < 500);
    assert!(tiles.last().unwrap().x + width as i64 >= 500);
}
