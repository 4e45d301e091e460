//! The native menu's calling convention: a closed set of menu actions, the
//! mapping from the toolkit's string-keyed menu item identifiers onto it, and
//! the host directive each action demands.  The application shell performs
//! the directives; no backup logic lives here.

use vstd::prelude::*;

use crate::paths::str_eq;

verus! {

/// The closed set of actions the native menu can trigger.
#[derive(Clone, Copy, Debug, PartialEq, Eq, Structural)]
pub enum MenuAction {
    /// Terminate the process.
    Quit,
    /// Close the active window.
    Close,
    /// Ask the front-end to open the backup dialog.
    Backup,
    /// Ask the front-end to open the restore dialog.
    Restore,
    /// Ask the front-end to open the export dialog.
    Export,
    /// Ask the front-end to start a sync.
    Sync,
}

/// What the host shell must do for a menu action: a direct host action, or
/// the emission of a named event that the front-end observes.
#[derive(Debug)]
pub enum MenuDirective {
    /// Terminate the process immediately.
    Terminate,
    /// Close the active window.
    CloseWindow,
    /// Emit the named event to the front-end.  Emission must not block;
    /// emission failure is recoverable (log and continue).
    EmitEvent(String),
}

/// The action behind a menu item identifier, if it is one of ours.
pub open spec fn action_of_id(id: Seq<char>) -> Option<MenuAction> {
    if id == "quit"@ {
        Some(MenuAction::Quit)
    } else if id == "close"@ {
        Some(MenuAction::Close)
    } else if id == "backup"@ {
        Some(MenuAction::Backup)
    } else if id == "restore"@ {
        Some(MenuAction::Restore)
    } else if id == "export"@ {
        Some(MenuAction::Export)
    } else if id == "sync"@ {
        Some(MenuAction::Sync)
    } else {
        None
    }
}

/// Maps a menu item identifier to its action; unknown identifiers map to
/// `None` and are ignored by the shell.
pub fn action_for_menu_id(id: &str) -> (r: Option<MenuAction>)
    ensures
        r == action_of_id(id@),
{
    if str_eq(id, "quit") {
        Some(MenuAction::Quit)
    } else if str_eq(id, "close") {
        Some(MenuAction::Close)
    } else if str_eq(id, "backup") {
        Some(MenuAction::Backup)
    } else if str_eq(id, "restore") {
        Some(MenuAction::Restore)
    } else if str_eq(id, "export") {
        Some(MenuAction::Export)
    } else if str_eq(id, "sync") {
        Some(MenuAction::Sync)
    } else {
        None
    }
}

/// The directive the host shell must perform for each menu action, with the
/// exact event name the front-end listens for.
pub fn directive_for(action: &MenuAction) -> (d: MenuDirective)
    ensures
        action is Quit ==> d is Terminate,
        action is Close ==> d is CloseWindow,
        action is Backup ==> (d matches MenuDirective::EmitEvent(e) && e@ == "menu-backup"@),
        action is Restore ==> (d matches MenuDirective::EmitEvent(e) && e@ == "menu-restore"@),
        action is Export ==> (d matches MenuDirective::EmitEvent(e) && e@ == "menu-export"@),
        action is Sync ==> (d matches MenuDirective::EmitEvent(e) && e@ == "menu-sync"@),
{
    match action {
        MenuAction::Quit => MenuDirective::Terminate,
        MenuAction::Close => MenuDirective::CloseWindow,
        MenuAction::Backup => MenuDirective::EmitEvent(String::from_str("menu-backup")),
        MenuAction::Restore => MenuDirective::EmitEvent(String::from_str("menu-restore")),
        MenuAction::Export => MenuDirective::EmitEvent(String::from_str("menu-export")),
        MenuAction::Sync => MenuDirective::EmitEvent(String::from_str("menu-sync")),
    }
}

} // verus!
