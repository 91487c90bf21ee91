use vstd::prelude::*;
use crate::input::Key;
use crate::state::{AppState, GameState, Phases, Scope};

verus! {

/// The player's actions in menus.
#[derive(Debug, Clone, Copy, PartialEq, Eq, Structural)]
pub enum MenuAction {
    MenuUp,
    MenuDown,
    Accept,
    PauseUnpause,
}

/// A menu on screen: a title, whether the title blinks, the entries and
/// the one selected.
#[derive(Debug, Clone)]
pub struct MenuHandler {
    pub main_text: String,
    pub main_text_blink: bool,
    pub selected_id: usize,
    pub entries: Vec<String>,
}

/// The view of a string entry list: the character sequences.
pub open spec fn texts(entries: Seq<String>) -> Seq<Seq<char>> {
    entries.map_values(|s: String| s@)
}

/// The keys bound to each menu action.
pub fn setup() -> (r: Vec<(MenuAction, Key)>)
    ensures
        r@ == seq![
            (MenuAction::Accept, Key::Enter),
            (MenuAction::PauseUnpause, Key::Escape),
            (MenuAction::MenuUp, Key::KeyW),
            (MenuAction::MenuUp, Key::ArrowUp),
            (MenuAction::MenuDown, Key::KeyS),
            (MenuAction::MenuDown, Key::ArrowDown),
        ],
{
    let r = vec![
        (MenuAction::Accept, Key::Enter),
        (MenuAction::PauseUnpause, Key::Escape),
        (MenuAction::MenuUp, Key::KeyW),
        (MenuAction::MenuUp, Key::ArrowUp),
        (MenuAction::MenuDown, Key::KeyS),
        (MenuAction::MenuDown, Key::ArrowDown),
    ];
    assert(r@ =~= seq![
        (MenuAction::Accept, Key::Enter),
        (MenuAction::PauseUnpause, Key::Escape),
        (MenuAction::MenuUp, Key::KeyW),
        (MenuAction::MenuUp, Key::ArrowUp),
        (MenuAction::MenuDown, Key::KeyS),
        (MenuAction::MenuDown, Key::ArrowDown),
    ]);
    r
}

/// The main menu: play, credits or exit; it lives while the main menu phase lasts.
pub fn spawn_main_menu() -> (r: (MenuHandler, Scope))
    ensures
        r.0.main_text@ == "Supernova"@,
        !r.0.main_text_blink,
        r.0.selected_id == 0,
        texts(r.0.entries@) == seq!["Play"@, "Credits"@, "Exit"@],
        r.1 == Scope::App(AppState::Menu),
{
    let entries = vec!["Play".to_owned(), "Credits".to_owned(), "Exit".to_owned()];
    assert(texts(entries@) =~= seq!["Play"@, "Credits"@, "Exit"@]);
    (
        MenuHandler {
            main_text: "Supernova".to_owned(),
            main_text_blink: false,
            selected_id: 0,
            entries,
        },
        Scope::App(AppState::Menu),
    )
}

/// The game-over menu: back to the menu or exit.
pub fn spawn_gameover_menu() -> (r: (MenuHandler, Scope))
    ensures
        r.0.main_text@ == "Game Over"@,
        !r.0.main_text_blink,
        r.0.selected_id == 0,
        texts(r.0.entries@) == seq!["Menu"@, "Exit"@],
        r.1 == Scope::Game(GameState::Over),
{
    let entries = vec!["Menu".to_owned(), "Exit".to_owned()];
    assert(texts(entries@) =~= seq!["Menu"@, "Exit"@]);
    (
        MenuHandler {
            main_text: "Game Over".to_owned(),
            main_text_blink: false,
            selected_id: 0,
            entries,
        },
        Scope::Game(GameState::Over),
    )
}

/// The pause menu, with a blinking title: resume, back to the menu, or exit.
pub fn spawn_pause_menu() -> (r: (MenuHandler, Scope))
    ensures
        r.0.main_text@ == "Pause"@,
        r.0.main_text_blink,
        r.0.selected_id == 0,
        texts(r.0.entries@) == seq!["Resume"@, "Menu"@, "Exit"@],
        r.1 == Scope::Game(GameState::Paused),
{
    let entries = vec!["Resume".to_owned(), "Menu".to_owned(), "Exit".to_owned()];
    assert(texts(entries@) =~= seq!["Resume"@, "Menu"@, "Exit"@]);
    (
        MenuHandler {
            main_text: "Pause".to_owned(),
            main_text_blink: true,
            selected_id: 0,
            entries,
        },
        Scope::Game(GameState::Paused),
    )
}

/// The credits screen: an untitled menu (back to the menu, or exit) and the
/// lines of credits shown above it.
pub fn spawn_credits_menu() -> (r: (MenuHandler, Vec<String>, Scope))
    ensures
        r.0.main_text@ == ""@,
        !r.0.main_text_blink,
        r.0.selected_id == 0,
        texts(r.0.entries@) == seq!["Menu"@, "Exit"@],
        texts(r.1@) == seq![
            "Code"@,
            " Group CDLW "@,
            "(https://github.com/fannyycyff471)"@,
            "Assets"@,
            "Kenney Vleugels "@,
            "(www.kenney.nl)"@,
        ],
        r.2 == Scope::App(AppState::Credits),
{
    let entries = vec!["Menu".to_owned(), "Exit".to_owned()];
    assert(texts(entries@) =~= seq!["Menu"@, "Exit"@]);
    let credits = vec![
        "Code".to_owned(),
        " Group CDLW ".to_owned(),
        "(https://github.com/fannyycyff471)".to_owned(),
        "Assets".to_owned(),
        "Kenney Vleugels ".to_owned(),
        "(www.kenney.nl)".to_owned(),
    ];
    assert(texts(credits@) =~= seq![
        "Code"@,
        " Group CDLW "@,
        "(https://github.com/fannyycyff471)"@,
        "Assets"@,
        "Kenney Vleugels "@,
        "(www.kenney.nl)"@,
    ]);
    (
        MenuHandler { main_text: "".to_owned(), main_text_blink: false, selected_id: 0, entries },
        credits,
        Scope::App(AppState::Credits),
    )
}

/// The phase changes and exit that a menu input asks for.
#[derive(Debug, Clone, Copy, PartialEq, Eq, Structural)]
pub struct MenuRequests {
    pub next_app: Option<AppState>,
    pub next_game: Option<GameState>,
    pub exit: bool,
}

/// The main menu and the credits screen. `selected` is the selected entry of
/// the menu on screen, if exactly one is. On accept, the main menu starts a
/// game (entry 0), opens the credits (entry 1) or exits; the credits screen
/// goes back to the menu (entry 0) or exits.
pub fn main_menu_input_system(app_state: AppState, accept: bool, selected: Option<usize>) -> (r:
    MenuRequests)
    ensures
        r.next_game is None,
        !(accept && selected is Some) ==> r == (MenuRequests {
            next_app: None,
            next_game: None,
            exit: false,
        }),
        accept && selected is Some ==> r == match app_state {
            AppState::Menu => if selected->0 == 0 {
                MenuRequests { next_app: Some(AppState::Game), next_game: None, exit: false }
            } else if selected->0 == 1 {
                MenuRequests { next_app: Some(AppState::Credits), next_game: None, exit: false }
            } else {
                MenuRequests { next_app: None, next_game: None, exit: true }
            },
            AppState::Credits => if selected->0 == 0 {
                MenuRequests { next_app: Some(AppState::Menu), next_game: None, exit: false }
            } else {
                MenuRequests { next_app: None, next_game: None, exit: true }
            },
            _ => MenuRequests { next_app: None, next_game: None, exit: false },
        },
{
    let mut r = MenuRequests { next_app: None, next_game: None, exit: false };
    if let Some(id) = selected {
        if accept {
            if app_state == AppState::Menu {
                if id == 0 {
                    r.next_app = Some(AppState::Game);
                } else if id == 1 {
                    r.next_app = Some(AppState::Credits);
                } else {
                    r.exit = true;
                }
            }
            if app_state == AppState::Credits {
                if id == 0 {
                    r.next_app = Some(AppState::Menu);
                } else {
                    r.exit = true;
                }
            }
        }
    }
    r
}

/// The in-game menus. The pause key toggles between running and paused. On
/// accept, the pause menu resumes (entry 0), goes back to the main menu
/// (entry 1) or exits; the game-over menu goes back to the main menu
/// (entry 0) or exits. An accept overrides the pause key's request.
pub fn game_menu_input_system(
    game_state: GameState,
    pause_unpause: bool,
    accept: bool,
    selected: Option<usize>,
) -> (r: MenuRequests)
    ensures
        ({
            let toggled: Option<GameState> = if pause_unpause && game_state == GameState::Running {
                Some(GameState::Paused)
            } else if pause_unpause && game_state == GameState::Paused {
                Some(GameState::Running)
            } else {
                None
            };
            let none = MenuRequests { next_app: None, next_game: toggled, exit: false };
            if accept && selected is Some {
                let id = selected->0;
                r == match game_state {
                    GameState::Paused => if id == 0 {
                        MenuRequests { next_game: Some(GameState::Running), ..none }
                    } else if id == 1 {
                        MenuRequests { next_app: Some(AppState::Menu), ..none }
                    } else {
                        MenuRequests { exit: true, ..none }
                    },
                    GameState::Over => if id == 0 {
                        MenuRequests { next_app: Some(AppState::Menu), ..none }
                    } else {
                        MenuRequests { exit: true, ..none }
                    },
                    _ => none,
                }
            } else {
                r == none
            }
        }),
{
    let mut r = MenuRequests { next_app: None, next_game: None, exit: false };
    if pause_unpause {
        if game_state == GameState::Running {
            r.next_game = Some(GameState::Paused);
        }
        if game_state == GameState::Paused {
            r.next_game = Some(GameState::Running);
        }
    }
    if let Some(id) = selected {
        if accept {
            if game_state == GameState::Paused {
                if id == 0 {
                    r.next_game = Some(GameState::Running);
                } else if id == 1 {
                    r.next_app = Some(AppState::Menu);
                } else {
                    r.exit = true;
                }
            }
            if game_state == GameState::Over {
                if id == 0 {
                    r.next_app = Some(AppState::Menu);
                } else {
                    r.exit = true;
                }
            }
        }
    }
    r
}

/// Stages a menu's phase requests for the next tick; returns whether the
/// player asked to quit.
pub fn apply_menu_requests(phases: &mut Phases, req: &MenuRequests) -> (exit: bool)
    ensures
        exit == req.exit,
        *final(phases) == (Phases {
            next_app: if req.next_app is Some {
                req.next_app
            } else {
                old(phases).next_app
            },
            next_game: if req.next_game is Some {
                req.next_game
            } else {
                old(phases).next_game
            },
            ..*old(phases)
        }),
{
    if let Some(next) = req.next_app {
        phases.set_app(next);
    }
    if let Some(next) = req.next_game {
        phases.set_game(next);
    }
    req.exit
}

} // verus!
