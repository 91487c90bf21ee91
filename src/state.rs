use vstd::prelude::*;

verus! {

/// The top-level phase of the application.
#[derive(Debug, Clone, Copy, PartialEq, Eq, Structural)]
pub enum AppState {
    Setup,
    Menu,
    Game,
    Credits,
}

/// The phase inside a game session; it exists only while the application
/// is in `AppState::Game`.
#[derive(Debug, Clone, Copy, PartialEq, Eq, Structural)]
pub enum GameState {
    Setup,
    Running,
    Paused,
    Over,
}

impl Default for AppState {
    fn default() -> (r: AppState)
        ensures
            r == AppState::Setup,
    {
        AppState::Setup
    }
}

impl Default for GameState {
    fn default() -> (r: GameState)
        ensures
            r == GameState::Setup,
    {
        GameState::Setup
    }
}

/// The lifetime an entity is tied to: it is destroyed when that phase is left.
#[derive(Debug, Clone, Copy, PartialEq, Eq, Structural)]
pub enum Scope {
    App(AppState),
    Game(GameState),
}

/// The two-level phase machine, with the transitions requested during the
/// current tick; they are applied between ticks, never in the middle of one.
#[derive(Debug, Clone, Copy, PartialEq, Eq, Structural)]
pub struct Phases {
    pub app: AppState,
    pub game: Option<GameState>,
    pub next_app: Option<AppState>,
    pub next_game: Option<GameState>,
}

impl Phases {
    /// The game phase exists exactly while the application is in a game.
    pub open spec fn wf(self) -> bool {
        self.game is Some <==> self.app == AppState::Game
    }

    /// Whether an entity of the given scope is still alive in these phases.
    pub open spec fn scope_alive(self, scope: Scope) -> bool {
        match scope {
            Scope::App(a) => self.app == a,
            Scope::Game(g) => self.game == Some(g),
        }
    }

    /// The phases at start-up: application setup, nothing requested.
    pub fn new() -> (r: Phases)
        ensures
            r == (Phases { app: AppState::Setup, game: None, next_app: None, next_game: None }),
            r.wf(),
    {
        Phases { app: AppState::Setup, game: None, next_app: None, next_game: None }
    }

    /// Requests a change of the application phase for the next tick.
    pub fn set_app(&mut self, next: AppState)
        ensures
            *final(self) == (Phases { next_app: Some(next), ..*old(self) }),
    {
        self.next_app = Some(next);
    }

    /// Requests a change of the game phase for the next tick.
    pub fn set_game(&mut self, next: GameState)
        ensures
            *final(self) == (Phases { next_game: Some(next), ..*old(self) }),
    {
        self.next_game = Some(next);
    }

    /// Whether the game clock runs: only while a game is running. Timers and
    /// physics stand still in every other phase.
    pub fn time_advances(&self) -> (r: bool)
        ensures
            r == (self.game == Some(GameState::Running)),
    {
        match self.game {
            Some(GameState::Running) => true,
            _ => false,
        }
    }

    /// Whether an entity of the given scope is still alive.
    pub fn is_alive(&self, scope: Scope) -> (r: bool)
        ensures
            r == self.scope_alive(scope),
    {
        match scope {
            Scope::App(a) => self.app == a,
            Scope::Game(g) => match self.game {
                Some(cur) => cur == g,
                None => false,
            },
        }
    }
}

/// The phases after the requested transitions are applied. A change of the
/// application phase wins over a game-phase request; entering a game always
/// starts at `GameState::Setup`, leaving it drops the game phase.
pub open spec fn applied(p: Phases) -> Phases {
    match p.next_app {
        Some(a) if a != p.app => Phases {
            app: a,
            game: if a == AppState::Game {
                Some(GameState::Setup)
            } else {
                None
            },
            next_app: None,
            next_game: None,
        },
        _ => match (p.next_game, p.game) {
            (Some(g), Some(cur)) => Phases { game: Some(g), next_app: None, next_game: None, ..p },
            _ => Phases { next_app: None, next_game: None, ..p },
        },
    }
}

/// Applies the pending requests between two ticks, and returns the scopes
/// that were left: every entity tied to one of them is to be destroyed.
pub fn apply_transitions(phases: &mut Phases) -> (exited: Vec<Scope>)
    requires
        old(phases).wf(),
    ensures
        *final(phases) == applied(*old(phases)),
        final(phases).wf(),
        forall|s: Scope| #[trigger]
            exited@.contains(s) <==> old(phases).scope_alive(s) && !final(phases).scope_alive(s),
{
    let mut exited: Vec<Scope> = Vec::new();
    let old_app = phases.app;
    let old_game = phases.game;
    match phases.next_app {
        Some(a) if a != old_app => {
            exited.push(Scope::App(old_app));
            if let Some(g) = old_game {
                exited.push(Scope::Game(g));
            }
            phases.app = a;
            phases.game = if a == AppState::Game {
                Some(GameState::Setup)
            } else {
                None
            };
        },
        _ => {
            if let (Some(g), Some(cur)) = (phases.next_game, old_game) {
                if g != cur {
                    exited.push(Scope::Game(cur));
                }
                phases.game = Some(g);
            }
        },
    }
    phases.next_app = None;
    phases.next_game = None;
    proof {
        assert forall|s: Scope| #[trigger]
            exited@.contains(s) <==> old(phases).scope_alive(s) && !phases.scope_alive(s) by {
            if exited@.contains(s) {
                let k = choose|k: int| 0 <= k < exited@.len() && exited@[k] == s;
            }
            if old(phases).scope_alive(s) && !phases.scope_alive(s) {
                assert(exited@.len() > 0);
                if exited@.len() == 1 {
                    assert(exited@[0] == s);
                } else {
                    assert(exited@[0] == s || exited@[1] == s);
                }
            }
        }
    }
    exited
}

/// Application setup is done: ask for the main menu.
pub fn transition_app_setup_to_menu(phases: &mut Phases)
    ensures
        *final(phases) == (Phases { next_app: Some(AppState::Menu), ..*old(phases) }),
{
    phases.set_app(AppState::Menu);
}

/// Game setup is done: ask for the game to run.
pub fn transition_game_setup_to_running(phases: &mut Phases)
    ensures
        *final(phases) == (Phases { next_game: Some(GameState::Running), ..*old(phases) }),
{
    phases.set_game(GameState::Running);
}

/// The phases with the autonomous requests made: application setup moves
/// on to the menu, and game setup moves on to running.
pub open spec fn with_autonomous(p: Phases) -> Phases {
    Phases {
        next_app: if p.app == AppState::Setup {
            Some(AppState::Menu)
        } else {
            p.next_app
        },
        next_game: if p.game == Some(GameState::Setup) {
            Some(GameState::Running)
        } else {
            p.next_game
        },
        ..p
    }
}

/// Makes the autonomous requests, each for the next tick.
pub fn state_transitions(phases: &mut Phases)
    ensures
        *final(phases) == with_autonomous(*old(phases)),
{
    if phases.app == AppState::Setup {
        transition_app_setup_to_menu(phases);
    }
    if phases.game == Some(GameState::Setup) {
        transition_game_setup_to_running(phases);
    }
}

} // verus!
