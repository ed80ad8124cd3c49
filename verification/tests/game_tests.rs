use ballscape::entities::{BrickStatus, BrickType, PowerUpType};
use ballscape::game::{
    capsule_drop_odds, capsule_from_roll, endless_row_from_picks, endless_wave_row, exit_portal,
    remaining_destructible, roll_capsule_drop, BossHealth, GameMode, GameState, Session,
    SoundEvent, Upgrades, ENDLESS_WAVE_WIDTH,
};

const ENDLESS_KINDS: [BrickType; 8] = [
    BrickType::ColorRed,
    BrickType::ColorOrange,
    BrickType::ColorYellow,
    BrickType::ColorGreen,
    BrickType::ColorBlue,
    BrickType::ArmoredDark,
    BrickType::Explosive,
    BrickType::Powerup,
];

#[test]
fn upgrades_default() {
    let u = Upgrades::default();
    assert_eq!(u.credits, 100);
    assert_eq!(u.paddle_speed_level, 0);
    assert_eq!(u.paddle_speed(), 650);
    assert_eq!(u.starting_lives(), 3);
    assert_eq!(u.magnet_speed(), 0);
}

#[test]
fn upgrade_formulas() {
    let u = Upgrades { paddle_speed_level: 2, laser_rate_level: 1, starting_lives_level: 3, magnet_beam_level: 2, credits: 0 };
    assert_eq!(u.paddle_speed(), 830);
    assert_eq!(u.starting_lives(), 6);
    assert_eq!(u.magnet_speed(), 300);
}

#[test]
fn new_session_is_on_the_menu() {
    let s = Session::new();
    assert_eq!(s.state, GameState::Menu);
    assert_eq!(s.mode, GameMode::Campaign);
    assert_eq!(s.current_level, 1);
    assert_eq!(s.max_levels, 5);
    assert_eq!(s.lives, 3);
    assert_eq!(s.score, 0);
    assert_eq!(s.score_multiplier, 1);
    assert!(s.boss.is_none());
    assert!(s.sound_events.is_empty());
}

#[test]
fn enter_level_five_brings_the_boss() {
    let mut s = Session::new();
    let layout = s.enter_level(5);
    assert_eq!(layout.name, "Stage 5: Master Ballscape Omega");
    assert_eq!(s.level_name, "Stage 5: Master Ballscape Omega");
    assert_eq!(s.boss, Some(BossHealth { hp: 50, max_hp: 50, phase: 1, is_active: true }));
    let layout = s.enter_level(6);
    assert_eq!(layout.name, "Stage 5: Master Ballscape Omega");
    assert!(s.boss.is_none());
    assert_eq!(s.current_level, 6);
}

#[test]
fn start_game_resets_the_run() {
    let mut s = Session::new();
    s.score = 1234;
    s.combo = 7;
    s.score_multiplier = 2;
    s.floor_shield_active = true;
    s.upgrades.starting_lives_level = 2;
    let layout = s.start_game();
    assert_eq!(layout.name, "Stage 1: Neon Genesis Grid");
    assert_eq!(s.state, GameState::Playing);
    assert_eq!(s.mode, GameMode::Campaign);
    assert_eq!(s.score, 0);
    assert_eq!(s.combo, 0);
    assert_eq!(s.score_multiplier, 1);
    assert!(!s.floor_shield_active);
    assert_eq!(s.lives, 5);
    assert_eq!(s.current_level, 1);
}

#[test]
fn start_endless_keeps_combo() {
    let mut s = Session::new();
    s.combo = 4;
    s.score = 99;
    s.start_endless_mode();
    assert_eq!(s.mode, GameMode::Endless);
    assert_eq!(s.state, GameState::Playing);
    assert_eq!(s.level_name, "Endless Horde Mode");
    assert_eq!(s.endless_wave, 1);
    assert_eq!(s.score, 0);
    assert_eq!(s.combo, 4);
}

#[test]
fn scoring_with_combo_and_multiplier() {
    let mut s = Session::new();
    // combo 1..4: plain award
    for _ in 0..4 {
        assert_eq!(s.register_brick_destroyed(BrickType::ColorRed), 100);
    }
    // combo 5: doubled
    assert_eq!(s.register_brick_destroyed(BrickType::ColorRed), 200);
    assert_eq!(s.score, 600);
    assert_eq!(s.upgrades.credits, 100 + 10 * 4 + 20);
    s.score_multiplier = 2;
    // combo 6: 500 * 2 * 2
    assert_eq!(s.register_brick_destroyed(BrickType::ArmoredGold), 2000);
    assert_eq!(s.score, 2600);
    assert_eq!(s.combo, 6);
    assert_eq!(s.sound_events.len(), 6);
}

#[test]
fn explosive_brick_sounds_an_explosion() {
    let mut s = Session::new();
    let p = s.register_brick_destroyed(BrickType::Explosive);
    assert_eq!(p, 200);
    assert_eq!(s.sound_events, vec![SoundEvent::BrickDestroy, SoundEvent::Explosion]);
}

#[test]
fn unbreakable_awards_nothing() {
    let mut s = Session::new();
    assert_eq!(s.register_brick_destroyed(BrickType::Unbreakable), 0);
    assert_eq!(s.combo, 1);
}

#[test]
fn powerups_on_the_session() {
    let mut s = Session::new();
    s.apply_powerup(PowerUpType::ExtraLife);
    assert_eq!(s.lives, 4);
    s.apply_powerup(PowerUpType::Shield);
    assert!(s.floor_shield_active);
    s.apply_powerup(PowerUpType::ScoreMultiplier);
    assert_eq!(s.score_multiplier, 2);
    s.apply_powerup(PowerUpType::Slow);
    assert_eq!(s.lives, 4);
    assert_eq!(s.sound_events, vec![SoundEvent::PowerupPickup; 4]);
}

#[test]
fn losing_the_last_life_ends_the_game() {
    let mut s = Session::new();
    s.state = GameState::Playing;
    assert!(s.lose_life());
    assert!(s.lose_life());
    assert_eq!(s.state, GameState::Playing);
    assert!(!s.lose_life());
    assert_eq!(s.lives, 0);
    assert_eq!(s.state, GameState::GameOver);
    assert_eq!(s.sound_events, vec![SoundEvent::GameOver]);
}

#[test]
fn boss_enrages_and_falls_to_lasers() {
    let mut s = Session::new();
    s.enter_level(5);
    let mut enraged_at = 0;
    for k in 1..=50 {
        let r = s.laser_hits_boss();
        if r.enraged {
            enraged_at = k;
        }
        assert_eq!(r.destroyed, k == 50);
    }
    assert_eq!(enraged_at, 25);
    assert_eq!(s.score, 5000);
    assert!(!s.boss.unwrap().is_active);
}

#[test]
fn boss_falls_to_twenty_five_ball_strikes() {
    let mut b = BossHealth::new();
    for _ in 0..24 {
        assert!(!b.ball_hit());
    }
    assert!(b.ball_hit());
    assert_eq!(b.hp, 0);
    assert_eq!(b.phase, 1);
    assert!(!b.is_active);
}

#[test]
fn boss_ball_then_laser_hits() {
    let mut s = Session::new();
    s.enter_level(5);
    assert!(!s.ball_hits_boss());
    assert_eq!(s.boss.unwrap().hp, 48);
    let r = s.laser_hits_boss();
    assert!(!r.enraged && !r.destroyed);
    assert_eq!(s.boss.unwrap().hp, 47);
}

#[test]
fn clearing_stages_advances_the_campaign() {
    let mut s = Session::new();
    s.start_game();
    assert!(s.check_stage_cleared(3).is_none());
    assert_eq!(s.current_level, 1);
    for level in 2..=5 {
        let next = s.check_stage_cleared(0).expect("next stage");
        assert_eq!(s.current_level, level);
        assert!(!next.bricks.is_empty());
    }
    // the boss still fights
    assert!(s.check_stage_cleared(0).is_none());
    assert_eq!(s.state, GameState::Playing);
    s.boss.as_mut().unwrap().is_active = false;
    assert!(s.check_stage_cleared(0).is_none());
    assert_eq!(s.state, GameState::Victory);
    assert_eq!(s.sound_events, vec![SoundEvent::Victory]);
}

#[test]
fn stage_clear_ignored_outside_campaign() {
    let mut s = Session::new();
    s.start_endless_mode();
    assert!(s.check_stage_cleared(0).is_none());
    assert_eq!(s.state, GameState::Playing);
}

#[test]
fn counting_destructible_bricks() {
    let mut bricks = vec![
        BrickStatus::new(0, BrickType::ColorRed),
        BrickStatus::new(1, BrickType::Unbreakable),
        BrickStatus::new(2, BrickType::Portal),
    ];
    assert_eq!(remaining_destructible(&bricks), 2);
    bricks[0].is_destroyed = true;
    assert_eq!(remaining_destructible(&bricks), 1);
}

#[test]
fn portal_sends_ball_to_another_portal() {
    let mut bricks = vec![
        BrickStatus::new(0, BrickType::Portal),
        BrickStatus::new(1, BrickType::ColorRed),
        BrickStatus::new(2, BrickType::Portal),
        BrickStatus::new(3, BrickType::Portal),
    ];
    assert_eq!(exit_portal(&bricks, 0), Some(2));
    assert_eq!(exit_portal(&bricks, 2), Some(0));
    bricks[0].is_destroyed = true;
    assert_eq!(exit_portal(&bricks, 2), Some(3));
    bricks[3].is_destroyed = true;
    assert_eq!(exit_portal(&bricks, 2), None);
}

#[test]
fn endless_score_scales_with_the_wave() {
    let mut s = Session::new();
    s.start_endless_mode();
    assert_eq!(s.register_brick_destroyed(BrickType::ColorRed), 100);
    s.combo = 0;
    s.endless_wave = 3;
    assert_eq!(s.register_brick_destroyed(BrickType::ColorRed), 300);
    s.combo = 0;
    s.advance_endless_wave(false);
    assert_eq!(s.endless_wave, 4);
    assert_eq!(s.register_brick_destroyed(BrickType::ArmoredGold), 2000);
    // the campaign is not scaled by the endless wave counter
    let mut c = Session::new();
    c.endless_wave = 9;
    assert_eq!(c.register_brick_destroyed(BrickType::ColorRed), 100);
}

#[test]
fn endless_wave_reaching_the_paddle_ends_the_game() {
    let mut s = Session::new();
    s.start_endless_mode();
    s.advance_endless_wave(false);
    assert_eq!(s.state, GameState::Playing);
    s.advance_endless_wave(true);
    assert_eq!(s.state, GameState::GameOver);
    assert_eq!(s.endless_wave, 3);
    assert!(s.sound_events.is_empty());
}

#[test]
fn expired_timers_end_their_effects() {
    let mut s = Session::new();
    s.combo = 6;
    s.score_multiplier = 2;
    s.floor_shield_active = true;
    s.expire_timers(false, false, false);
    assert_eq!((s.combo, s.score_multiplier, s.floor_shield_active), (6, 2, true));
    s.expire_timers(true, false, false);
    assert_eq!(s.combo, 0);
    s.expire_timers(false, true, true);
    assert_eq!((s.score_multiplier, s.floor_shield_active), (1, false));
}

#[test]
fn endless_row_from_given_picks() {
    let picks = [0, 1, 2, 3, 4, 5, 6, 7, 0, 7];
    let row = endless_row_from_picks(40, &picks);
    assert_eq!(row.len(), 10);
    assert_eq!(row[0], BrickStatus::new(40, BrickType::ColorRed));
    assert_eq!(row[5], BrickStatus::new(45, BrickType::ArmoredDark));
    assert_eq!(row[9], BrickStatus::new(49, BrickType::Powerup));
}

#[test]
fn endless_wave_row_is_drawn_from_its_kinds() {
    for _ in 0..20 {
        let row = endless_wave_row(12);
        assert_eq!(row.len(), ENDLESS_WAVE_WIDTH);
        for (c, b) in row.iter().enumerate() {
            assert_eq!(b.id, 12 + c);
            assert!(ENDLESS_KINDS.contains(&b.brick_type));
            assert_eq!(b.hp, b.brick_type.max_hp());
            assert!(!b.is_destroyed);
        }
    }
}

#[test]
fn capsule_from_a_roll() {
    assert_eq!(capsule_from_roll(false, 3), None);
    assert_eq!(capsule_from_roll(true, 0), Some(PowerUpType::Multiball));
    assert_eq!(capsule_from_roll(true, 9), Some(PowerUpType::ScoreMultiplier));
    assert_eq!(capsule_from_roll(true, 5), Some(PowerUpType::Laser));
}

#[test]
fn powerup_bricks_always_drop() {
    for _ in 0..50 {
        assert!(roll_capsule_drop(BrickType::Powerup).is_some());
    }
}

#[test]
fn other_bricks_drop_sometimes() {
    let drops = (0..2000).filter(|_| roll_capsule_drop(BrickType::ColorRed).is_some()).count();
    assert!(drops > 400 && drops < 1000);
}

#[test]
fn capsule_drop_odds_by_kind() {
    assert_eq!(capsule_drop_odds(BrickType::Powerup), (100, 100));
    assert_eq!(capsule_drop_odds(BrickType::ColorRed), (35, 100));
    assert_eq!(capsule_drop_odds(BrickType::Unbreakable), (35, 100));
}

#[test]
fn every_capsule_kind_can_drop() {
    let mut seen = std::collections::HashSet::new();
    for _ in 0..2000 {
        if let Some(p) = roll_capsule_drop(BrickType::Powerup) {
            seen.insert(format!("{:?}", p));
        }
    }
    assert_eq!(seen.len(), 10);
}

#[test]
fn every_endless_kind_can_appear() {
    let mut seen = std::collections::HashSet::new();
    for _ in 0..200 {
        for b in endless_wave_row(0) {
            seen.insert(format!("{:?}", b.brick_type));
        }
    }
    assert_eq!(seen.len(), 8);
}

#[test]
fn huge_upgrade_levels_do_not_overflow() {
    let u = Upgrades { paddle_speed_level: u32::MAX, laser_rate_level: 0, starting_lives_level: 0, magnet_beam_level: u32::MAX, credits: 0 };
    assert_eq!(u.paddle_speed(), 650 + 90 * u32::MAX as u64);
    assert_eq!(u.magnet_speed(), 150 * u32::MAX as u64);
}
