//! Scene signalling: the result codes the core hands upward so that the
//! (excluded) presentation layer can switch which state machine receives
//! the next tick or input event.

use vstd::prelude::*;

verus! {

/// What a scene reports after processing a tick or an input event.
#[derive(Copy, Clone, PartialEq, Eq, Structural, Debug)]
pub enum SceneResult {
    Idle,
    MainMenu,
    NewGame,
    PauseGame,
    ResumeGame,
    GameOver,
    Quit,
}

/// What a menu selection asks for.
#[derive(Copy, Clone, PartialEq, Eq, Structural, Debug)]
pub enum MenuResult {
    Idle,
    MainMenu,
    NewGame,
    ResumeGame,
    Quit,
}

/// The scene result a menu result maps to.
pub open spec fn scene_result_of_menu(menu: MenuResult) -> SceneResult {
    match menu {
        MenuResult::MainMenu => SceneResult::MainMenu,
        MenuResult::NewGame => SceneResult::NewGame,
        MenuResult::ResumeGame => SceneResult::ResumeGame,
        MenuResult::Quit => SceneResult::Quit,
        MenuResult::Idle => SceneResult::Idle,
    }
}

impl From<MenuResult> for SceneResult {
    fn from(menu: MenuResult) -> (r: SceneResult) {
        match menu {
            MenuResult::MainMenu => SceneResult::MainMenu,
            MenuResult::NewGame => SceneResult::NewGame,
            MenuResult::ResumeGame => SceneResult::ResumeGame,
            MenuResult::Quit => SceneResult::Quit,
            MenuResult::Idle => SceneResult::Idle,
        }
    }
}

impl vstd::std_specs::convert::FromSpecImpl<MenuResult> for SceneResult {
    open spec fn obeys_from_spec() -> bool {
        true
    }

    open spec fn from_spec(menu: MenuResult) -> SceneResult {
        scene_result_of_menu(menu)
    }
}

} // verus!
