use ballscape::atlas::{AtlasData, AtlasFrame, AtlasFrameRect, AtlasMeta, AtlasSize, SpriteAtlas};
use ballscape::audio::{next_noise_seed, sound_duration_ms};
use ballscape::editor::{bricks_to_save, custom_level_bricks};
use ballscape::entities::{BrickStatus, BrickType};
use ballscape::game::{GameState, SoundEvent};
use ballscape::hud::{boss_bar_color, centered_panel, life_icon_rect, projectile_color, state_overlay, Overlay};

fn frame(x: i32) -> AtlasFrame {
    AtlasFrame { frame: AtlasFrameRect { x, y: 2, w: 30, h: 40 }, rotated: false, trimmed: true }
}

fn data(names: &[&str]) -> AtlasData {
    AtlasData {
        frames: names.iter().enumerate().map(|(i, n)| (n.to_string(), frame(i as i32 + 1))).collect(),
        meta: AtlasMeta { image: "sheet.png".to_string(), size: AtlasSize { w: 512, h: 256 } },
    }
}

#[test]
fn atlas_lookup() {
    let a = SpriteAtlas::from_data(data(&["ball_fire.png", "brick_red.png", "ui_life.png"])).expect("unique names");
    assert_eq!(a.get_frame("brick_red.png"), Some(&frame(2)));
    assert_eq!(a.get_frame("ball_fire.png"), Some(&frame(1)));
    assert_eq!(a.get_frame("ui_life.png"), Some(&frame(3)));
    assert_eq!(a.get_frame("missing.png"), None);
    assert_eq!(a.data().meta.size, AtlasSize { w: 512, h: 256 });
    assert_eq!(a.data().meta.image, "sheet.png");
}

#[test]
fn atlas_refuses_duplicate_names() {
    assert!(SpriteAtlas::from_data(data(&["a.png", "b.png", "a.png"])).is_none());
    assert!(SpriteAtlas::from_data(data(&["a.png", "a.png"])).is_none());
    assert!(SpriteAtlas::from_data(data(&[])).is_some());
}

#[test]
fn sound_durations() {
    assert_eq!(sound_duration_ms(SoundEvent::BouncePaddle), 80);
    assert_eq!(sound_duration_ms(SoundEvent::BounceWall), 80);
    assert_eq!(sound_duration_ms(SoundEvent::LaserFire), 100);
    assert_eq!(sound_duration_ms(SoundEvent::BrickDestroy), 120);
    assert_eq!(sound_duration_ms(SoundEvent::Explosion), 300);
    assert_eq!(sound_duration_ms(SoundEvent::PowerupPickup), 200);
    assert_eq!(sound_duration_ms(SoundEvent::Warp), 350);
    assert_eq!(sound_duration_ms(SoundEvent::GameOver), 600);
    assert_eq!(sound_duration_ms(SoundEvent::Victory), 800);
}

#[test]
fn noise_generator_steps() {
    assert_eq!(next_noise_seed(12345), 12345u32.wrapping_mul(1664525).wrapping_add(1013904223));
    assert_eq!(next_noise_seed(0), 1013904223);
    assert_eq!(next_noise_seed(u32::MAX), u32::MAX.wrapping_mul(1664525).wrapping_add(1013904223));
}

#[test]
fn overlays_by_state() {
    assert_eq!(state_overlay(GameState::Menu), Overlay::Banner(0, 220, 255));
    assert_eq!(state_overlay(GameState::Paused), Overlay::Banner(255, 200, 50));
    assert_eq!(state_overlay(GameState::GameOver), Overlay::Banner(255, 50, 50));
    assert_eq!(state_overlay(GameState::Victory), Overlay::Banner(100, 255, 100));
    assert_eq!(state_overlay(GameState::Shop), Overlay::ShopPanel);
    assert_eq!(state_overlay(GameState::Playing), Overlay::Clear);
}

#[test]
fn hud_geometry_and_colors() {
    assert_eq!(centered_panel(640, 200), (320, 260));
    assert_eq!(centered_panel(700, 450), (290, 135));
    assert_eq!(life_icon_rect(0), (15, 8, 28, 28));
    assert_eq!(life_icon_rect(2), (79, 8, 28, 28));
    assert_eq!(boss_bar_color(2), (255, 40, 40));
    assert_eq!(boss_bar_color(1), (255, 180, 0));
    assert_eq!(projectile_color(true), (100, 220, 255));
    assert_eq!(projectile_color(false), (255, 50, 50));
}

#[test]
fn save_keeps_standing_bricks() {
    let mut bricks = vec![
        BrickStatus::new(0, BrickType::ColorRed),
        BrickStatus::new(1, BrickType::Portal),
        BrickStatus::new(2, BrickType::ArmoredGold),
    ];
    bricks[1].is_destroyed = true;
    assert_eq!(bricks_to_save(&bricks), vec![0, 2]);
    assert!(bricks_to_save(&[]).is_empty());
}

#[test]
fn save_then_load_keeps_kinds() {
    let bricks = vec![
        BrickStatus::new(0, BrickType::Moving),
        BrickStatus::new(1, BrickType::Portal),
        BrickStatus::new(2, BrickType::Unbreakable),
    ];
    let kept = bricks_to_save(&bricks);
    let names: Vec<String> = kept.iter().map(|&i| bricks[i].brick_type.base_sprite_name().to_string()).collect();
    let loaded = custom_level_bricks(&names);
    assert_eq!(loaded, bricks);
}

#[test]
fn load_unknown_names_as_red() {
    let names = vec!["brick_gold.png".to_string(), "brick_explosive.png".to_string()];
    let loaded = custom_level_bricks(&names);
    assert_eq!(loaded[0], BrickStatus::new(0, BrickType::ColorRed));
    assert_eq!(loaded[1], BrickStatus::new(1, BrickType::Explosive));
}
