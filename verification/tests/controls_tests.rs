use ballscape::controls::{
    handle_input, palette_brick, snap_to_grid, turn_palette, Action, Input, MouseButtonKind,
    PALETTE_LEN,
};
use ballscape::entities::BrickType;
use ballscape::game::{GameMode, GameState};

#[test]
fn pause_toggles() {
    let r = handle_input(GameState::Playing, GameMode::Campaign, 0, Input::PauseKey);
    assert_eq!(r.state, GameState::Paused);
    let r = handle_input(r.state, r.mode, 0, Input::PauseKey);
    assert_eq!(r.state, GameState::Playing);
    let r = handle_input(GameState::Menu, GameMode::Campaign, 0, Input::PauseKey);
    assert_eq!(r.state, GameState::Menu);
    assert_eq!(r.action, Action::Nothing);
}

#[test]
fn shop_toggles() {
    let r = handle_input(GameState::Menu, GameMode::Campaign, 0, Input::ShopKey);
    assert_eq!(r.state, GameState::Shop);
    let r = handle_input(GameState::Shop, GameMode::Campaign, 0, Input::ShopKey);
    assert_eq!(r.state, GameState::Menu);
    let r = handle_input(GameState::Playing, GameMode::Campaign, 0, Input::ShopKey);
    assert_eq!(r.state, GameState::Playing);
}

#[test]
fn editor_toggles() {
    let r = handle_input(GameState::GameOver, GameMode::Endless, 3, Input::EditorKey);
    assert_eq!((r.state, r.mode, r.action), (GameState::Playing, GameMode::Editor, Action::ClearArena));
    let r = handle_input(r.state, r.mode, 3, Input::EditorKey);
    assert_eq!((r.state, r.mode, r.action), (GameState::Menu, GameMode::Campaign, Action::Nothing));
}

#[test]
fn endless_only_from_menu() {
    assert_eq!(handle_input(GameState::Menu, GameMode::Campaign, 0, Input::EndlessKey).action, Action::StartEndless);
    assert_eq!(handle_input(GameState::Playing, GameMode::Campaign, 0, Input::EndlessKey).action, Action::Nothing);
}

#[test]
fn space_and_clicks() {
    for s in [GameState::Menu, GameState::GameOver, GameState::Victory] {
        assert_eq!(handle_input(s, GameMode::Campaign, 0, Input::Space).action, Action::StartCampaign);
        assert_eq!(
            handle_input(s, GameMode::Campaign, 0, Input::MouseDown(MouseButtonKind::Right, 5, 5)).action,
            Action::StartCampaign
        );
    }
    assert_eq!(handle_input(GameState::Playing, GameMode::Campaign, 0, Input::Space).action, Action::LaunchAndFire);
    assert_eq!(handle_input(GameState::Paused, GameMode::Campaign, 0, Input::Space).action, Action::Nothing);
    assert_eq!(handle_input(GameState::Shop, GameMode::Campaign, 0, Input::Space).action, Action::Nothing);
}

#[test]
fn editor_clicks_place_and_erase_on_the_grid() {
    let r = handle_input(GameState::Playing, GameMode::Editor, 0, Input::MouseDown(MouseButtonKind::Left, 100, 50));
    assert_eq!(r.action, Action::PlaceBrick(134, 104));
    let r = handle_input(GameState::Playing, GameMode::Editor, 0, Input::MouseDown(MouseButtonKind::Right, 93, 43));
    assert_eq!(r.action, Action::EraseBrick(40, 60));
    let r = handle_input(GameState::Playing, GameMode::Editor, 0, Input::MouseDown(MouseButtonKind::Other, 93, 43));
    assert_eq!(r.action, Action::Nothing);
}

#[test]
fn save_and_load_only_in_editor() {
    assert_eq!(handle_input(GameState::Playing, GameMode::Editor, 0, Input::SaveKey).action, Action::SaveLevel);
    assert_eq!(handle_input(GameState::Playing, GameMode::Editor, 0, Input::LoadKey).action, Action::LoadLevel);
    assert_eq!(handle_input(GameState::Playing, GameMode::Campaign, 0, Input::SaveKey).action, Action::Nothing);
}

#[test]
fn wheel_cycles_the_palette() {
    let r = handle_input(GameState::Playing, GameMode::Editor, 12, Input::Wheel(1));
    assert_eq!(r.palette_index, 0);
    assert_eq!(r.action, Action::SelectBrick(BrickType::ColorRed));
    let r = handle_input(GameState::Playing, GameMode::Editor, 0, Input::Wheel(-2));
    assert_eq!(r.palette_index, 12);
    assert_eq!(r.action, Action::SelectBrick(BrickType::Portal));
    let r = handle_input(GameState::Playing, GameMode::Editor, 4, Input::Wheel(0));
    assert_eq!(r.palette_index, 4);
    assert_eq!(r.action, Action::SelectBrick(BrickType::ColorBlue));
    let r = handle_input(GameState::Playing, GameMode::Campaign, 4, Input::Wheel(1));
    assert_eq!(r.palette_index, 4);
    assert_eq!(r.action, Action::Nothing);
}

#[test]
fn wheel_up_then_down_restores() {
    for i in 0..PALETTE_LEN {
        assert_eq!(turn_palette(turn_palette(i, 1), -1), i);
        assert_eq!(turn_palette(turn_palette(i, -3), 3), i);
    }
    assert_eq!(palette_brick(8), BrickType::Unbreakable);
}

#[test]
fn mouse_motion_moves_paddle_only_when_playing() {
    assert_eq!(handle_input(GameState::Playing, GameMode::Campaign, 0, Input::MouseMotion(321)).action, Action::MovePaddle(321));
    assert_eq!(handle_input(GameState::Menu, GameMode::Campaign, 0, Input::MouseMotion(321)).action, Action::Nothing);
    assert_eq!(handle_input(GameState::Menu, GameMode::Campaign, 0, Input::Quit).action, Action::Quit);
}

#[test]
fn snapping() {
    assert_eq!(snap_to_grid(0, 0), (40, 60));
    assert_eq!(snap_to_grid(94, 44), (134, 104));
    assert_eq!(snap_to_grid(-1, -1), (-54, 16));
    assert_eq!(snap_to_grid(1279, 719), (1262, 764));
    // same cell, same point; an x on the grid snaps to itself
    assert_eq!(snap_to_grid(190, 90).0, snap_to_grid(280, 130).0);
    let (x, _) = snap_to_grid(500, 300);
    assert_eq!(snap_to_grid(x as i32, 300).0, x);
    assert_eq!(snap_to_grid(i32::MIN, i32::MAX).0, (i32::MIN as i64).div_euclid(94) * 94 + 40);
}
