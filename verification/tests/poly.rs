use poly::color::{clear_color, parse_hex_color, Rgba};
use poly::ui::hud_config;
use poly::window::{camera_config, render_config, window_config};
use poly::world::{
    cloud_texture, move_clouds, spawn_clouds, world_sprites, Cloud, CloudSprite, CloudTexture,
    Layers, CLOUD_COUNT, CLOUD_HEIGHT, CLOUD_LAYER, CLOUD_SPACING, CLOUD_WIDTH, CLOUD_Y,
    DEFAULT_CLOUD_SPEED, RESPAWN_X, RIGHT_EDGE,
};
use poly::AppState;

fn rgba(r: u8, g: u8, b: u8, a: u8) -> Rgba {
    Rgba { r, g, b, a }
}

#[test]
fn parses_six_digit_hex() {
    assert_eq!(parse_hex_color("5fcde4"), Some(rgba(0x5f, 0xcd, 0xe4, 0xff)));
    assert_eq!(parse_hex_color("000000"), Some(rgba(0, 0, 0, 0xff)));
    assert_eq!(parse_hex_color("ffffff"), Some(rgba(0xff, 0xff, 0xff, 0xff)));
}

#[test]
fn parses_hex_with_leading_hash() {
    assert_eq!(parse_hex_color("#5fcde4"), Some(rgba(0x5f, 0xcd, 0xe4, 0xff)));
    assert_eq!(parse_hex_color("#abc"), Some(rgba(0xaa, 0xbb, 0xcc, 0xff)));
}

#[test]
fn parses_short_hex_by_doubling_digits() {
    assert_eq!(parse_hex_color("abc"), Some(rgba(0xaa, 0xbb, 0xcc, 0xff)));
    assert_eq!(parse_hex_color("1234"), Some(rgba(0x11, 0x22, 0x33, 0x44)));
}

#[test]
fn parses_eight_digit_hex_with_alpha() {
    assert_eq!(parse_hex_color("11223344"), Some(rgba(0x11, 0x22, 0x33, 0x44)));
    assert_eq!(parse_hex_color("5fcde480"), Some(rgba(0x5f, 0xcd, 0xe4, 0x80)));
}

#[test]
fn parses_uppercase_hex() {
    assert_eq!(parse_hex_color("FFA07A"), Some(rgba(0xff, 0xa0, 0x7a, 0xff)));
    assert_eq!(parse_hex_color("#ABCDEF"), Some(rgba(0xab, 0xcd, 0xef, 0xff)));
}

#[test]
fn rejects_bad_hex_lengths() {
    assert_eq!(parse_hex_color(""), None);
    assert_eq!(parse_hex_color("#"), None);
    assert_eq!(parse_hex_color("12"), None);
    assert_eq!(parse_hex_color("12345"), None);
    assert_eq!(parse_hex_color("1234567"), None);
    assert_eq!(parse_hex_color("123456789"), None);
}

#[test]
fn rejects_non_hex_digits() {
    assert_eq!(parse_hex_color("xyzxyz"), None);
    assert_eq!(parse_hex_color("5fcdg4"), None);
    assert_eq!(parse_hex_color("##5fcde4"), None);
    assert_eq!(parse_hex_color("12 456"), None);
}

#[test]
fn clear_color_is_sky_blue() {
    assert_eq!(clear_color(), rgba(0x5f, 0xcd, 0xe4, 0xff));
    assert_eq!(Some(clear_color()), parse_hex_color("5fcde4"));
}

#[test]
fn layer_depths_follow_declaration_order() {
    assert_eq!(Layers::WORLD.depth(), 0);
    assert_eq!(Layers::BACKGROUND.depth(), 1);
    assert_eq!(Layers::DECOR.depth(), 2);
}

#[test]
fn cloud_textures_cycle_by_index() {
    assert_eq!(cloud_texture(0), CloudTexture::Large);
    assert_eq!(cloud_texture(1), CloudTexture::Small);
    assert_eq!(cloud_texture(2), CloudTexture::Medium);
    assert_eq!(cloud_texture(3), CloudTexture::Large);
    assert_eq!(cloud_texture(4), CloudTexture::Medium);
    assert_eq!(cloud_texture(5), CloudTexture::Small);
    assert_eq!(cloud_texture(6), CloudTexture::Large);
}

#[test]
fn cloud_texture_paths() {
    assert_eq!(CloudTexture::Large.path(), "cloud-l.png");
    assert_eq!(CloudTexture::Medium.path(), "cloud-m.png");
    assert_eq!(CloudTexture::Small.path(), "cloud-s.png");
}

#[test]
fn default_cloud_speed() {
    assert_eq!(Cloud::default().speed, DEFAULT_CLOUD_SPEED);
    assert_eq!(Cloud::default().speed, 10);
}

#[test]
fn app_starts_in_game() {
    assert_eq!(AppState::default(), AppState::InGame);
}

#[test]
fn moving_clouds_advances_each_by_speed_times_elapsed() {
    let mut clouds = vec![
        CloudSprite { x: 0, cloud: Cloud { speed: 10 }, texture: CloudTexture::Large },
        CloudSprite { x: -160_000, cloud: Cloud { speed: 25 }, texture: CloudTexture::Small },
        CloudSprite { x: 5_000, cloud: Cloud { speed: 0 }, texture: CloudTexture::Medium },
    ];
    move_clouds(&mut clouds, 16);
    assert_eq!(clouds[0].x, 160);
    assert_eq!(clouds[1].x, -160_000 + 25 * 16);
    assert_eq!(clouds[2].x, 5_000);
    assert_eq!(clouds[0].texture, CloudTexture::Large);
    assert_eq!(clouds[1].cloud.speed, 25);
}

#[test]
fn moving_no_clouds_does_nothing() {
    let mut clouds: Vec<CloudSprite> = Vec::new();
    move_clouds(&mut clouds, 1000);
    assert!(clouds.is_empty());
}

#[test]
fn empty_scene_gets_three_spaced_clouds() {
    let mut clouds: Vec<CloudSprite> = Vec::new();
    spawn_clouds(&mut clouds);
    assert_eq!(clouds.len(), CLOUD_COUNT);
    assert_eq!(clouds[0].x, 0);
    assert_eq!(clouds[1].x, CLOUD_SPACING);
    assert_eq!(clouds[2].x, 2 * CLOUD_SPACING);
    assert_eq!(clouds[0].texture, CloudTexture::Large);
    assert_eq!(clouds[1].texture, CloudTexture::Small);
    assert_eq!(clouds[2].texture, CloudTexture::Medium);
    for c in &clouds {
        assert_eq!(c.cloud.speed, DEFAULT_CLOUD_SPEED);
    }
}

#[test]
fn cloud_past_right_edge_is_recycled() {
    let mut clouds = vec![CloudSprite {
        x: RIGHT_EDGE + 1,
        cloud: Cloud { speed: 99 },
        texture: CloudTexture::Medium,
    }];
    spawn_clouds(&mut clouds);
    assert_eq!(clouds.len(), 1);
    assert_eq!(clouds[0].x, RESPAWN_X);
    assert_eq!(clouds[0].cloud.speed, DEFAULT_CLOUD_SPEED);
    assert_eq!(clouds[0].texture, CloudTexture::Medium);
}

#[test]
fn cloud_at_right_edge_is_untouched() {
    let at_edge = CloudSprite {
        x: RIGHT_EDGE,
        cloud: Cloud { speed: 99 },
        texture: CloudTexture::Small,
    };
    let short = CloudSprite { x: RIGHT_EDGE - 1, ..at_edge };
    let mut clouds = vec![at_edge, short];
    spawn_clouds(&mut clouds);
    assert_eq!(clouds.len(), 2);
    assert_eq!(clouds[0], at_edge);
    assert_eq!(clouds[1], short);
}

#[test]
fn only_clouds_past_the_edge_are_recycled() {
    let near = CloudSprite { x: 100_000, cloud: Cloud { speed: 7 }, texture: CloudTexture::Large };
    let past = CloudSprite { x: 200_000, cloud: Cloud { speed: 7 }, texture: CloudTexture::Small };
    let mut clouds = vec![near, past];
    spawn_clouds(&mut clouds);
    assert_eq!(clouds.len(), 2);
    assert_eq!(clouds[0], near);
    assert_eq!(clouds[1].x, RESPAWN_X);
    assert_eq!(clouds[1].cloud.speed, DEFAULT_CLOUD_SPEED);
    assert_eq!(clouds[1].texture, CloudTexture::Small);
}

#[test]
fn cloud_drifts_right_and_wraps_at_the_edge() {
    // One cloud at the origin, stepped in 16 ms frames: its position grows by
    // speed * elapsed each frame until it exceeds the right edge, then it
    // wraps to the left edge.
    let mut clouds: Vec<CloudSprite> = Vec::new();
    spawn_clouds(&mut clouds);
    let mut clouds = vec![clouds[0]];
    let speed = i64::from(clouds[0].cloud.speed);
    let mut expected: i64 = 0;
    let mut wrapped = false;
    for _frame in 0..1_000_001 {
        spawn_clouds(&mut clouds);
        if expected > RIGHT_EDGE {
            expected = RESPAWN_X;
            wrapped = true;
        }
        assert_eq!(clouds[0].x, expected);
        if wrapped {
            break;
        }
        move_clouds(&mut clouds, 16);
        expected += speed * 16;
        assert_eq!(clouds[0].x, expected);
    }
    assert!(wrapped);
    assert_eq!(clouds[0].x, RESPAWN_X);
}

#[test]
fn window_is_fixed_half_monitor() {
    let w = window_config();
    assert_eq!(w.title, "Poly");
    assert_eq!(w.width, 1280);
    assert_eq!(w.height, 720);
    assert_eq!(w.x, 640);
    assert_eq!(w.y, 144);
    assert!(!w.resizable);
    assert!(w.focused);
}

#[test]
fn camera_shows_whole_scene() {
    let cam = camera_config();
    assert_eq!(cam.name, "Camera");
    assert_eq!(cam.min_width, 160);
    assert_eq!(cam.min_height, 90);
}

#[test]
fn rendering_is_sharp_with_repeating_textures() {
    let r = render_config();
    assert_eq!(r.msaa_samples, 1);
    assert!(r.repeat_address_u);
    assert!(r.repeat_address_v);
    assert!(r.repeat_address_w);
    assert!(r.nearest_filtering);
}

#[test]
fn clouds_are_stretched_over_the_scene() {
    assert_eq!((CLOUD_WIDTH, CLOUD_HEIGHT), (160, 90));
    assert_eq!(CLOUD_LAYER, Layers::WORLD);
    assert_eq!(CLOUD_Y, 0);
}

#[test]
fn hud_is_translucent_bar_with_label() {
    let h = hud_config();
    assert_eq!(h.root_name, "UI Root");
    assert_eq!(h.width_percent, 100);
    assert_eq!(h.height_percent, 10);
    assert!(h.align_center);
    assert_eq!(h.padding_px, 10);
    assert_eq!(h.background_red, 0);
    assert_eq!(h.background_green, 0);
    assert_eq!(h.background_blue, 0);
    assert_eq!(h.background_alpha_percent, 50);
    assert_eq!(h.label, "Money!");
    assert_eq!(h.font_size, 32);
}

#[test]
fn world_has_three_layered_sprites() {
    let sprites = world_sprites();
    assert_eq!(sprites.len(), 3);
    for s in &sprites {
        assert_eq!((s.x, s.y), (0, 0));
    }
    assert_eq!(sprites[0].path, "door.png");
    assert_eq!(sprites[0].layer, Layers::DECOR);
    assert_eq!(sprites[0].size, None);
    assert_eq!(sprites[1].path, "shop.png");
    assert_eq!(sprites[1].layer, Layers::BACKGROUND);
    assert_eq!(sprites[1].size, Some((160, 90)));
    assert_eq!(sprites[2].path, "grass.png");
    assert_eq!(sprites[2].layer, Layers::WORLD);
    assert_eq!(sprites[2].size, Some((160, 90)));
}
