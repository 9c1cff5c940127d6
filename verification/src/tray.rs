//! What the tray menu, a tray click and the window's events do.
use vstd::prelude::*;
use crate::text::{chars_of, is_text};

verus! {

/// An action of the desktop shell.
#[derive(PartialEq, Eq, Structural)]
pub enum ShellAction {
    /// Show and focus the main window.
    ShowWindow,
    /// Hide the main window to the tray.
    HideWindow,
    /// Stop the engine and forget its model.
    UnloadModel,
    /// Stop the engine, then leave the application.
    Quit,
    /// Nothing.
    Nothing,
}

/// The action of the tray menu item `id`.
pub open spec fn menu_action_spec(id: Seq<char>) -> ShellAction {
    if id == "show"@ {
        ShellAction::ShowWindow
    } else if id == "hide"@ {
        ShellAction::HideWindow
    } else if id == "stop"@ {
        ShellAction::UnloadModel
    } else if id == "quit"@ {
        ShellAction::Quit
    } else {
        ShellAction::Nothing
    }
}

/// The action of choosing the tray menu item `id`.
pub fn menu_action(id: &str) -> (res: ShellAction)
    ensures
        res == menu_action_spec(id@),
{
    let c = chars_of(id);
    if is_text(&c, "show") {
        ShellAction::ShowWindow
    } else if is_text(&c, "hide") {
        ShellAction::HideWindow
    } else if is_text(&c, "stop") {
        ShellAction::UnloadModel
    } else if is_text(&c, "quit") {
        ShellAction::Quit
    } else {
        ShellAction::Nothing
    }
}

/// A click on the tray icon: releasing the left button toggles the window.
pub fn tray_click_action(left_button: bool, released: bool, window_visible: bool) -> (res: ShellAction)
    ensures
        res == (if left_button && released {
            if window_visible { ShellAction::HideWindow } else { ShellAction::ShowWindow }
        } else {
            ShellAction::Nothing
        }),
{
    if left_button && released {
        if window_visible { ShellAction::HideWindow } else { ShellAction::ShowWindow }
    } else {
        ShellAction::Nothing
    }
}

/// Closing the window hides it to the tray (the close is prevented, so the
/// server keeps running); the window being destroyed unloads the model.
pub fn window_event_action(close_requested: bool, destroyed: bool) -> (res: ShellAction)
    ensures
        res == (if close_requested {
            ShellAction::HideWindow
        } else if destroyed {
            ShellAction::UnloadModel
        } else {
            ShellAction::Nothing
        }),
{
    if close_requested {
        ShellAction::HideWindow
    } else if destroyed {
        ShellAction::UnloadModel
    } else {
        ShellAction::Nothing
    }
}

} // verus!
