//! The main menu and the game-over screen: which graphic a screen shows and
//! what its keys ask for.

use vstd::prelude::*;
use crate::asset_store::AssetStore;
use crate::handle::RawHandle;
use crate::loaded_assets::LoadedAssets;

verus! {

/// The menu screens of a game.
#[derive(Clone, Copy, Debug, PartialEq, Eq, Structural)]
pub enum MenuScreen {
    /// The screen from which a game is started.
    MainMenu,
    /// The screen that is shown when a game has ended.
    GameOver,
}

/// What a menu asks for after looking at the keyboard.
#[derive(Clone, Copy, Debug, PartialEq, Eq, Structural)]
pub enum MenuAction {
    /// Nothing changes.
    Stay,
    /// The game starts.
    StartGame,
    /// The main menu is shown again.
    ShowMainMenu,
    /// The application ends.
    Exit,
}

/// The keys that a menu listens to, each `true` if it has just been
/// pressed.
#[derive(Clone, Copy, Debug, PartialEq, Eq, Structural)]
pub struct MenuKeys {
    pub play: bool,
    pub menu: bool,
    pub quit: bool,
}

/// The screen that belongs to the state the game is in: the main menu in
/// the menu state, else the game-over screen in the end state, else none.
pub open spec fn screen_of(in_menu_state: bool, in_game_end_state: bool) -> Option<MenuScreen> {
    if in_menu_state {
        Some(MenuScreen::MainMenu)
    } else if in_game_end_state {
        Some(MenuScreen::GameOver)
    } else {
        None
    }
}

/// The tag under which the graphic of a screen is registered.
pub open spec fn graphic_tag(screen: MenuScreen) -> Seq<char> {
    match screen {
        MenuScreen::MainMenu => "main_menu"@,
        MenuScreen::GameOver => "game_over"@,
    }
}

/// What the keys ask of a menu. On the main menu the play key starts the
/// game; on the game-over screen the menu key leads back to the main menu;
/// on both, the quit key ends the application, unless the other key was
/// pressed too. Outside the menus the keys do nothing.
pub open spec fn menu_action(screen: Option<MenuScreen>, keys: MenuKeys) -> MenuAction {
    match screen {
        Some(MenuScreen::MainMenu) => if keys.play {
            MenuAction::StartGame
        } else if keys.quit {
            MenuAction::Exit
        } else {
            MenuAction::Stay
        },
        Some(MenuScreen::GameOver) => if keys.menu {
            MenuAction::ShowMainMenu
        } else if keys.quit {
            MenuAction::Exit
        } else {
            MenuAction::Stay
        },
        None => MenuAction::Stay,
    }
}

impl MenuScreen {
    /// Decides [`screen_of`].
    pub fn of_state(in_menu_state: bool, in_game_end_state: bool) -> (screen: Option<MenuScreen>)
        ensures
            screen == screen_of(in_menu_state, in_game_end_state),
    {
        if in_menu_state {
            Some(MenuScreen::MainMenu)
        } else if in_game_end_state {
            Some(MenuScreen::GameOver)
        } else {
            None
        }
    }

    /// The tag under which the graphic of the screen is registered.
    pub fn graphic(&self) -> (tag: &'static str)
        ensures
            tag@ == graphic_tag(*self),
    {
        match self {
            MenuScreen::MainMenu => "main_menu",
            MenuScreen::GameOver => "game_over",
        }
    }
}

/// Sets a menu up: finds the graphic to show for the state that the game
/// is in. The game must be in one of the two menu states, and the graphic
/// of that state must be registered and loaded.
pub fn setup(
    in_menu_state: bool,
    in_game_end_state: bool,
    loaded_assets: &LoadedAssets,
    assets: &AssetStore,
) -> (menu_graphic: RawHandle)
    requires
        screen_of(in_menu_state, in_game_end_state) is Some,
        assets@.get_handle(
            graphic_tag(screen_of(in_menu_state, in_game_end_state).unwrap()),
            loaded_assets@,
        ) is Some,
    ensures
        Some(menu_graphic) == assets@.get_handle(
            graphic_tag(screen_of(in_menu_state, in_game_end_state).unwrap()),
            loaded_assets@,
        ),
{
    let screen = MenuScreen::of_state(in_menu_state, in_game_end_state).unwrap();
    assets.get_handle(screen.graphic(), loaded_assets).unwrap()
}

/// Runs a menu for one tick: decides what the keys ask for.
pub fn run(in_menu_state: bool, in_game_end_state: bool, keys: MenuKeys) -> (action: MenuAction)
    ensures
        action == menu_action(screen_of(in_menu_state, in_game_end_state), keys),
{
    if in_menu_state {
        if keys.play {
            MenuAction::StartGame
        } else if keys.quit {
            MenuAction::Exit
        } else {
            MenuAction::Stay
        }
    } else if in_game_end_state {
        if keys.menu {
            MenuAction::ShowMainMenu
        } else if keys.quit {
            MenuAction::Exit
        } else {
            MenuAction::Stay
        }
    } else {
        MenuAction::Stay
    }
}

} // verus!
