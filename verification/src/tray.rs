//! The tray icon's window: which message asks for what.

use vstd::prelude::*;

verus! {

/// The message that a window is being destroyed.
pub const WM_DESTROY: u32 = 0x0002;

/// The message that a menu item was chosen.
pub const WM_COMMAND: u32 = 0x0111;

/// The message that the right mouse button was released.
pub const WM_RBUTTONUP: u32 = 0x0205;

/// The first message number that an application may use for itself.
pub const WM_USER: u32 = 0x0400;

/// The message by which the tray icon reports what happened to it.
pub const WM_TRAYICON: u32 = 0x0401;

/// The menu item that starts the program anew.
pub const IDM_RESTART: u32 = 1001;

/// The menu item that opens the settings file.
pub const IDM_CONFIG: u32 = 1002;

/// The menu item that shows the about box.
pub const IDM_ABOUT: u32 = 1003;

/// The menu item that ends the program.
pub const IDM_EXIT: u32 = 1004;

/// What the tray window does about a message.
#[derive(Debug, Clone, Copy, PartialEq, Eq, Structural)]
pub enum TrayAction {
    /// Show the context menu at the pointer.
    ShowMenu,
    /// Start the program anew, then end the message loop.
    Restart,
    /// Open the settings file.
    OpenConfig,
    /// Show the about box.
    ShowAbout,
    /// End the message loop.
    Quit,
    /// Nothing; the message counts as handled.
    Ignore,
    /// Leave the message to the default procedure.
    Unhandled,
}

/// What the tray window does about the message `msg` with its two
/// parameters, of each of which the low 32 bits count.
pub open spec fn tray_action(msg: u32, wparam: usize, lparam: isize) -> TrayAction {
    if msg == WM_TRAYICON {
        if lparam as u32 == WM_RBUTTONUP {
            TrayAction::ShowMenu
        } else {
            TrayAction::Unhandled
        }
    } else if msg == WM_COMMAND {
        let id = wparam as u32;
        if id == IDM_EXIT {
            TrayAction::Quit
        } else if id == IDM_RESTART {
            TrayAction::Restart
        } else if id == IDM_CONFIG {
            TrayAction::OpenConfig
        } else if id == IDM_ABOUT {
            TrayAction::ShowAbout
        } else {
            TrayAction::Ignore
        }
    } else if msg == WM_DESTROY {
        TrayAction::Quit
    } else {
        TrayAction::Unhandled
    }
}

/// Decides what the tray window does about a message.
pub fn window_proc(msg: u32, wparam: usize, lparam: isize) -> (action: TrayAction)
    ensures
        action == tray_action(msg, wparam, lparam),
{
    if msg == WM_TRAYICON {
        let event: u32 = #[verifier::truncate]
        (lparam as u32);
        if event == WM_RBUTTONUP {
            TrayAction::ShowMenu
        } else {
            TrayAction::Unhandled
        }
    } else if msg == WM_COMMAND {
        let id: u32 = #[verifier::truncate]
        (wparam as u32);
        if id == IDM_EXIT {
            TrayAction::Quit
        } else if id == IDM_RESTART {
            TrayAction::Restart
        } else if id == IDM_CONFIG {
            TrayAction::OpenConfig
        } else if id == IDM_ABOUT {
            TrayAction::ShowAbout
        } else {
            TrayAction::Ignore
        }
    } else if msg == WM_DESTROY {
        TrayAction::Quit
    } else {
        TrayAction::Unhandled
    }
}

} // verus!
