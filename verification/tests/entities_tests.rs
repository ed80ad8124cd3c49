use ballscape::entities::{
    record_trail_point, BallType, BrickStatus, BrickType, HazardType, PaddleType, PowerUpType,
    TRAIL_LENGTH,
};

const ALL_BRICKS: [BrickType; 13] = [
    BrickType::ColorRed,
    BrickType::ColorOrange,
    BrickType::ColorYellow,
    BrickType::ColorGreen,
    BrickType::ColorBlue,
    BrickType::ColorPurple,
    BrickType::ArmoredDark,
    BrickType::ArmoredGold,
    BrickType::Unbreakable,
    BrickType::Explosive,
    BrickType::Powerup,
    BrickType::Moving,
    BrickType::Portal,
];

#[test]
fn paddle_sprites_and_dimensions() {
    assert_eq!(PaddleType::Normal.sprite_name(), "paddle_normal.png");
    assert_eq!(PaddleType::Laser.sprite_name(), "paddle_laser.png");
    assert_eq!(PaddleType::Normal.dimensions(), (160, 36));
    assert_eq!(PaddleType::Short.dimensions(), (110, 34));
    assert_eq!(PaddleType::Long.dimensions(), (220, 38));
    assert_eq!(PaddleType::Sticky.dimensions(), (170, 42));
    assert_eq!(PaddleType::Shielded.dimensions(), (170, 42));
    assert_eq!(PaddleType::Laser.dimensions(), (165, 48));
}

#[test]
fn ball_kinds() {
    assert_eq!(BallType::Fire.sprite_name(), "ball_fire.png");
    assert_eq!(BallType::Normal.speed_multiplier(), 100);
    assert_eq!(BallType::Fast.speed_multiplier(), 145);
    assert_eq!(BallType::Fire.speed_multiplier(), 110);
    assert_eq!(BallType::Ice.speed_multiplier(), 90);
    assert_eq!(BallType::Electric.speed_multiplier(), 125);
    assert!(BallType::Fire.is_piercing());
    assert!(!BallType::Fast.is_piercing());
    assert!(!BallType::Normal.is_piercing());
}

#[test]
fn brick_tables() {
    assert_eq!(BrickType::ArmoredDark.max_hp(), 2);
    assert_eq!(BrickType::ArmoredGold.max_hp(), 3);
    assert_eq!(BrickType::Unbreakable.max_hp(), 9999);
    assert_eq!(BrickType::ColorRed.max_hp(), 1);
    assert_eq!(BrickType::ArmoredGold.points(), 500);
    assert_eq!(BrickType::Unbreakable.points(), 0);
    assert_eq!(BrickType::Moving.points(), 300);
    assert_eq!(BrickType::Portal.base_sprite_name(), "brick_portal_exit.png");
    assert_eq!(BrickType::ArmoredDark.base_sprite_name(), "brick_armored_dark.png");
}

#[test]
fn sprite_name_round_trip() {
    for t in ALL_BRICKS {
        assert_eq!(BrickType::from_sprite_name(t.base_sprite_name()), t);
    }
}

#[test]
fn unknown_sprite_name_reads_as_red() {
    assert_eq!(BrickType::from_sprite_name("brick_mystery.png"), BrickType::ColorRed);
    assert_eq!(BrickType::from_sprite_name(""), BrickType::ColorRed);
    assert_eq!(BrickType::from_sprite_name("brick_blue.png"), BrickType::ColorBlue);
}

#[test]
fn powerup_and_hazard_names() {
    assert_eq!(PowerUpType::ScoreMultiplier.sprite_name(), "powerup_score_x.png");
    assert_eq!(PowerUpType::Slow.label(), "SLO-MO BALL!");
    assert_eq!(PowerUpType::Multiball.label(), "MULTI-BALL!");
    assert_eq!(HazardType::Turret.sprite_name(), "hazard_turret.png");
    assert_eq!(HazardType::Spikes.sprite_name(), "hazard_spikes.png");
}

#[test]
fn powerup_paddle_shapes() {
    assert_eq!(PowerUpType::Expand.paddle_shape(), Some(PaddleType::Long));
    assert_eq!(PowerUpType::Shrink.paddle_shape(), Some(PaddleType::Short));
    assert_eq!(PowerUpType::Sticky.paddle_shape(), Some(PaddleType::Sticky));
    assert_eq!(PowerUpType::Laser.paddle_shape(), Some(PaddleType::Laser));
    assert_eq!(PowerUpType::Multiball.paddle_shape(), None);
}

#[test]
fn fresh_brick_is_at_full_health() {
    let b = BrickStatus::new(7, BrickType::ArmoredGold);
    assert_eq!(b.id, 7);
    assert_eq!(b.hp, 3);
    assert_eq!(b.max_hp, 3);
    assert!(!b.is_destroyed);
    assert_eq!(b.damage_overlay(), None);
}

#[test]
fn armored_gold_breaks_on_third_hit() {
    let mut b = BrickStatus::new(0, BrickType::ArmoredGold);
    assert!(!b.hit());
    assert_eq!(b.damage_overlay(), Some("brick_damage_2.png"));
    assert!(!b.hit());
    assert_eq!(b.damage_overlay(), Some("brick_damage_3.png"));
    assert!(b.hit());
    assert!(b.is_destroyed);
    assert_eq!(b.hp, 0);
}

#[test]
fn armored_dark_overlay() {
    let mut b = BrickStatus::new(0, BrickType::ArmoredDark);
    assert!(!b.hit());
    assert_eq!(b.damage_overlay(), Some("brick_damage_2.png"));
    assert!(b.hit());
}

#[test]
fn light_damage_overlay() {
    let b = BrickStatus { id: 0, brick_type: BrickType::ColorRed, hp: 9, max_hp: 10, is_destroyed: false };
    assert_eq!(b.damage_overlay(), Some("brick_damage_1.png"));
    let b = BrickStatus { hp: 67, max_hp: 100, ..b };
    assert_eq!(b.damage_overlay(), Some("brick_damage_2.png"));
    let b = BrickStatus { hp: 34, max_hp: 100, ..b };
    assert_eq!(b.damage_overlay(), Some("brick_damage_3.png"));
    let b = BrickStatus { hp: 35, max_hp: 100, ..b };
    assert_eq!(b.damage_overlay(), Some("brick_damage_2.png"));
}

#[test]
fn single_hit_brick_breaks_at_once() {
    let mut b = BrickStatus::new(3, BrickType::Explosive);
    assert!(b.hit());
    assert!(b.is_destroyed);
}

#[test]
fn unbreakable_brick_shrugs_off_hits() {
    let mut b = BrickStatus::new(1, BrickType::Unbreakable);
    for _ in 0..20000 {
        assert!(!b.hit());
    }
    assert_eq!(b.hp, 9999);
    assert!(!b.is_destroyed);
    assert_eq!(b.damage_overlay(), None);
}

#[test]
fn trail_keeps_last_ten_points() {
    let mut trail: Vec<(i32, i32)> = Vec::new();
    for i in 0..25 {
        record_trail_point(&mut trail, (i, -i));
        assert!(trail.len() <= TRAIL_LENGTH);
    }
    assert_eq!(trail.len(), 10);
    assert_eq!(trail[0], (15, -15));
    assert_eq!(trail[9], (24, -24));
}

#[test]
fn trail_grows_until_full() {
    let mut trail: Vec<u8> = Vec::new();
    record_trail_point(&mut trail, 1);
    record_trail_point(&mut trail, 2);
    assert_eq!(trail, vec![1, 2]);
}

#[test]
fn unbreakable_brick_at_lowest_hp_is_untouched() {
    let mut b = BrickStatus { id: 0, brick_type: BrickType::Unbreakable, hp: i32::MIN, max_hp: 9999, is_destroyed: false };
    assert!(!b.hit());
    assert_eq!(b.hp, i32::MIN);
    assert!(!b.is_destroyed);
}

#[test]
fn blasts_destroy_standing_breakable_bricks() {
    let mut b = BrickStatus::new(4, BrickType::ArmoredGold);
    assert!(b.caught_in_blast(9));
    assert!(b.is_destroyed);
    assert_eq!(b.hp, 3);
    assert!(!b.caught_in_blast(9));
    let mut own = BrickStatus::new(9, BrickType::ColorRed);
    assert!(!own.caught_in_blast(9));
    assert!(!own.is_destroyed);
    let mut steel = BrickStatus::new(5, BrickType::Unbreakable);
    assert!(!steel.caught_in_blast(9));
    assert!(!steel.is_destroyed);
}
