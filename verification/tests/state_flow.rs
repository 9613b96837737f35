use tilers_trucking::state::{GameState, Intent};

#[test]
fn levels_follow_each_other() {
    assert_eq!(GameState::MainMenu.next_level(), GameState::Level0);
    assert_eq!(GameState::Level0.next_level(), GameState::Level1);
    assert_eq!(GameState::Level1.next_level(), GameState::Level2);
    assert_eq!(GameState::Level2.next_level(), GameState::Level3);
    assert_eq!(GameState::Level3.next_level(), GameState::Level4);
    assert_eq!(GameState::Level4.next_level(), GameState::Level5);
    assert_eq!(GameState::Level5.next_level(), GameState::Level6);
    assert_eq!(GameState::Level6.next_level(), GameState::Level7);
}

#[test]
fn last_level_leads_back_to_the_menu() {
    assert_eq!(GameState::Level7.next_level(), GameState::MainMenu);
    assert_eq!(GameState::LevelTest.next_level(), GameState::MainMenu);
}

#[test]
fn nine_steps_go_once_round() {
    let mut state = GameState::MainMenu;
    for _ in 0..9 {
        state = state.next_level();
    }
    assert_eq!(state, GameState::MainMenu);
}

#[test]
fn the_game_starts_in_the_menu() {
    assert_eq!(GameState::default(), GameState::MainMenu);
}

#[test]
fn intents_move_the_game() {
    let level = GameState::Level3;
    assert_eq!(level.after(Intent::RestartLevel), GameState::Level3);
    assert_eq!(level.after(Intent::NextLevel), GameState::Level4);
    assert_eq!(level.after(Intent::ToMainMenu), GameState::MainMenu);
    assert_eq!(level.after(Intent::RotateTopOfPile), GameState::Level3);
    assert_eq!(level.after(Intent::DrawNext), GameState::Level3);
    assert_eq!(GameState::Level7.after(Intent::NextLevel), GameState::MainMenu);
}
