use supernova::input::Key;
use supernova::menu::{
    game_menu_input_system, main_menu_input_system, setup, spawn_credits_menu,
    spawn_gameover_menu, spawn_main_menu, spawn_pause_menu, MenuAction, MenuRequests,
};
use supernova::state::{
    apply_transitions, state_transitions, transition_app_setup_to_menu,
    transition_game_setup_to_running, AppState, GameState, Phases, Scope,
};

const NOTHING: MenuRequests = MenuRequests { next_app: None, next_game: None, exit: false };

#[test]
fn menu_bindings() {
    let m = setup();
    assert_eq!(m.len(), 6);
    assert_eq!(m[0], (MenuAction::Accept, Key::Enter));
    assert_eq!(m[1], (MenuAction::PauseUnpause, Key::Escape));
}

#[test]
fn menus_content() {
    let (main, scope) = spawn_main_menu();
    assert_eq!(main.main_text, "Supernova");
    assert_eq!(main.entries, vec!["Play", "Credits", "Exit"]);
    assert_eq!(scope, Scope::App(AppState::Menu));
    let (over, scope) = spawn_gameover_menu();
    assert_eq!(over.main_text, "Game Over");
    assert_eq!(over.entries, vec!["Menu", "Exit"]);
    assert_eq!(scope, Scope::Game(GameState::Over));
    let (pause, scope) = spawn_pause_menu();
    assert!(pause.main_text_blink);
    assert_eq!(pause.entries, vec!["Resume", "Menu", "Exit"]);
    assert_eq!(scope, Scope::Game(GameState::Paused));
    let (credits, lines, scope) = spawn_credits_menu();
    assert_eq!(credits.main_text, "");
    assert_eq!(credits.entries, vec!["Menu", "Exit"]);
    assert_eq!(lines.len(), 6);
    assert_eq!(lines[3], "Assets");
    assert_eq!(scope, Scope::App(AppState::Credits));
}

#[test]
fn main_menu_choices() {
    let r = main_menu_input_system(AppState::Menu, true, Some(0));
    assert_eq!(r.next_app, Some(AppState::Game));
    let r = main_menu_input_system(AppState::Menu, true, Some(1));
    assert_eq!(r.next_app, Some(AppState::Credits));
    assert!(main_menu_input_system(AppState::Menu, true, Some(2)).exit);
    let r = main_menu_input_system(AppState::Credits, true, Some(0));
    assert_eq!(r.next_app, Some(AppState::Menu));
    assert!(main_menu_input_system(AppState::Credits, true, Some(1)).exit);
    assert_eq!(main_menu_input_system(AppState::Menu, false, Some(0)), NOTHING);
    assert_eq!(main_menu_input_system(AppState::Menu, true, None), NOTHING);
    assert_eq!(main_menu_input_system(AppState::Game, true, Some(0)), NOTHING);
}

#[test]
fn game_menu_choices() {
    let r = game_menu_input_system(GameState::Running, true, false, None);
    assert_eq!(r.next_game, Some(GameState::Paused));
    let r = game_menu_input_system(GameState::Paused, true, false, Some(0));
    assert_eq!(r.next_game, Some(GameState::Running));
    let r = game_menu_input_system(GameState::Paused, false, true, Some(0));
    assert_eq!(r.next_game, Some(GameState::Running));
    let r = game_menu_input_system(GameState::Paused, false, true, Some(1));
    assert_eq!(r.next_app, Some(AppState::Menu));
    assert!(game_menu_input_system(GameState::Paused, false, true, Some(2)).exit);
    let r = game_menu_input_system(GameState::Over, false, true, Some(0));
    assert_eq!(r.next_app, Some(AppState::Menu));
    assert!(game_menu_input_system(GameState::Over, false, true, Some(1)).exit);
    assert_eq!(game_menu_input_system(GameState::Over, true, false, Some(0)), NOTHING);
}

#[test]
fn phases_setup_to_menu() {
    let mut p = Phases::new();
    assert_eq!(p.app, AppState::Setup);
    transition_app_setup_to_menu(&mut p);
    assert_eq!(p.app, AppState::Setup);
    let exited = apply_transitions(&mut p);
    assert_eq!(p.app, AppState::Menu);
    assert_eq!(exited, vec![Scope::App(AppState::Setup)]);
    assert!(p.is_alive(Scope::App(AppState::Menu)));
    assert!(!p.time_advances());
}

#[test]
fn phases_game_entry_and_exit() {
    let mut p = Phases::new();
    p.set_app(AppState::Game);
    apply_transitions(&mut p);
    assert_eq!(p.game, Some(GameState::Setup));
    state_transitions(&mut p);
    assert_eq!(p.next_game, Some(GameState::Running));
    apply_transitions(&mut p);
    assert_eq!(p.game, Some(GameState::Running));
    assert!(p.time_advances());
    transition_game_setup_to_running(&mut p);
    p.set_game(GameState::Paused);
    let exited = apply_transitions(&mut p);
    assert_eq!(exited, vec![Scope::Game(GameState::Running)]);
    assert!(!p.time_advances());
    p.set_app(AppState::Menu);
    p.set_game(GameState::Running);
    let exited = apply_transitions(&mut p);
    assert_eq!(p.app, AppState::Menu);
    assert_eq!(p.game, None);
    assert_eq!(exited, vec![Scope::App(AppState::Game), Scope::Game(GameState::Paused)]);
    assert_eq!(p.next_app, None);
    assert_eq!(p.next_game, None);
}
