use ballscape::entities::{BrickType, HazardType};
use ballscape::level::{level_layout, HazardAnchor};

#[test]
fn stage_one_layout() {
    let l = level_layout(1);
    assert_eq!(l.name, "Stage 1: Neon Genesis Grid");
    assert_eq!(l.grid.rows, 5);
    assert_eq!(l.grid.cols, 10);
    assert_eq!((l.grid.brick_w, l.grid.brick_h, l.grid.spacing_x, l.grid.spacing_y, l.grid.start_y), (84, 34, 10, 10, 90));
    assert_eq!(l.bricks.len(), 50);
    assert!(l.hazards.is_empty());
    let at = |r: usize, c: usize| l.bricks[r * 10 + c].status.brick_type;
    assert_eq!(at(0, 0), BrickType::ColorRed);
    assert_eq!(at(4, 9), BrickType::ColorBlue);
    assert_eq!(at(1, 2), BrickType::Powerup);
    assert_eq!(at(3, 7), BrickType::Powerup);
    assert_eq!(at(2, 4), BrickType::ArmoredDark);
    assert_eq!(at(2, 5), BrickType::ArmoredDark);
    assert_eq!(at(2, 6), BrickType::ColorYellow);
}

#[test]
fn bricks_are_numbered_in_reading_order() {
    for n in 1..=5 {
        let l = level_layout(n);
        assert_eq!(l.bricks.len(), l.grid.rows * l.grid.cols);
        for (i, slot) in l.bricks.iter().enumerate() {
            assert_eq!(slot.status.id, i);
            assert_eq!(slot.row * l.grid.cols + slot.col, i);
            assert_eq!(slot.status.hp, slot.status.brick_type.max_hp());
            assert!(!slot.status.is_destroyed);
        }
    }
}

#[test]
fn stage_two_layout() {
    let l = level_layout(2);
    assert_eq!(l.bricks.len(), 60);
    let at = |r: usize, c: usize| l.bricks[r * 10 + c].status.brick_type;
    assert_eq!(at(0, 0), BrickType::Unbreakable);
    assert_eq!(at(5, 9), BrickType::Unbreakable);
    assert_eq!(at(0, 1), BrickType::ArmoredGold);
    assert_eq!(at(1, 0), BrickType::ArmoredDark);
    assert_eq!(at(3, 5), BrickType::Explosive);
    assert_eq!(at(2, 1), BrickType::Powerup);
    assert_eq!(at(2, 2), BrickType::ColorPurple);
    assert_eq!(l.hazards.len(), 3);
    assert_eq!(l.hazards[0].anchor, HazardAnchor::ScreenPercent(25));
    assert_eq!(l.hazards[2].hazard_type, HazardType::Mine);
    assert_eq!((l.hazards[2].y, l.hazards[2].w, l.hazards[2].h), (390, 55, 55));
}

#[test]
fn stage_three_layout() {
    let l = level_layout(3);
    assert_eq!(l.bricks.len(), 66);
    let at = |r: usize, c: usize| l.bricks[r * 11 + c].status.brick_type;
    assert_eq!(at(2, 2), BrickType::Portal);
    assert_eq!(at(2, 8), BrickType::Portal);
    assert_eq!(at(1, 1), BrickType::Moving);
    assert_eq!(at(1, 2), BrickType::ColorBlue);
    assert_eq!(at(3, 0), BrickType::ColorOrange);
    assert_eq!(l.hazards.len(), 1);
    assert_eq!((l.hazards[0].w, l.hazards[0].h), (120, 40));
    assert_eq!(l.hazards[0].hazard_type, HazardType::Electric);
}

#[test]
fn stage_four_layout() {
    let l = level_layout(4);
    assert_eq!(l.bricks.len(), 77);
    let at = |r: usize, c: usize| l.bricks[r * 11 + c].status.brick_type;
    assert_eq!(at(1, 5), BrickType::Explosive);
    assert_eq!(at(6, 3), BrickType::ArmoredDark);
    assert_eq!(at(2, 0), BrickType::Unbreakable);
    assert_eq!(at(1, 3), BrickType::Powerup);
    assert_eq!(at(1, 4), BrickType::ColorRed);
    assert_eq!(l.hazards[0].anchor, HazardAnchor::FromLeft(150));
    assert_eq!(l.hazards[1].anchor, HazardAnchor::FromRight(150));
    assert_eq!(l.hazards[0].shoot_delay_tenths, 15);
    assert_eq!(l.hazards[1].shoot_delay_tenths, 30);
}

#[test]
fn stage_five_layout_and_other_numbers() {
    for n in [0u32, 5, 6, 99, u32::MAX] {
        let l = level_layout(n);
        assert_eq!(l.name, "Stage 5: Master Ballscape Omega");
        assert_eq!(l.bricks.len(), 84);
        let at = |r: usize, c: usize| l.bricks[r * 12 + c].status.brick_type;
        assert_eq!(at(2, 2), BrickType::Portal);
        assert_eq!(at(4, 9), BrickType::Portal);
        assert_eq!(at(3, 3), BrickType::Explosive);
        assert_eq!(at(1, 0), BrickType::ArmoredGold);
        assert_eq!(at(2, 1), BrickType::Powerup);
        assert_eq!(at(2, 3), BrickType::ColorPurple);
        assert_eq!(l.hazards.len(), 3);
        assert_eq!(l.hazards[2].shoot_delay_tenths, 20);
    }
}

#[test]
fn no_stage_starts_cleared() {
    for n in 1..=5 {
        let l = level_layout(n);
        let statuses: Vec<_> = l.bricks.iter().map(|b| b.status).collect();
        assert!(ballscape::game::remaining_destructible(&statuses) > 0);
        assert_ne!(l.bricks[1].status.brick_type, BrickType::Unbreakable);
    }
}
