use vstd::prelude::*;

verus! {

/// What happened to the tray icon or its menu.
#[derive(Clone, Copy, Debug, PartialEq, Eq, Structural)]
pub enum SystrayAction {
    SelectItem,
    DisplayMenu,
    HideMenu,
}

/// An event sent from the window thread to the owner of the tray icon.
#[derive(Clone, Copy, Debug, PartialEq, Eq, Structural)]
pub struct SystrayEvent {
    pub action: SystrayAction,
    pub menu_index: u32,
}

/// An error reported by a tray operation.
#[derive(Debug)]
pub enum SystrayError {
    /// A Win32 call failed; the text names the operation and the OS error code.
    OsError(String),
}

impl SystrayEvent {
    /// A selection of the menu item with identifier `menu_index`.
    pub open spec fn select_item_spec(menu_index: u32) -> SystrayEvent {
        SystrayEvent { action: SystrayAction::SelectItem, menu_index }
    }

    /// The event of the popup menu being shown.
    pub open spec fn display_menu_spec() -> SystrayEvent {
        SystrayEvent { action: SystrayAction::DisplayMenu, menu_index: 0 }
    }

    /// The event of the popup menu being closed.
    pub open spec fn hide_menu_spec() -> SystrayEvent {
        SystrayEvent { action: SystrayAction::HideMenu, menu_index: 0 }
    }

    /// The event sent when the user picks the menu item with the given identifier.
    pub fn select_item(menu_index: u32) -> (ev: SystrayEvent)
        ensures
            ev == Self::select_item_spec(menu_index),
    {
        SystrayEvent { action: SystrayAction::SelectItem, menu_index }
    }

    /// The event sent when the popup menu is about to be shown.
    pub fn display_menu() -> (ev: SystrayEvent)
        ensures
            ev == Self::display_menu_spec(),
    {
        SystrayEvent { action: SystrayAction::DisplayMenu, menu_index: 0 }
    }

    /// The event sent when the popup menu has been closed.
    pub fn hide_menu() -> (ev: SystrayEvent)
        ensures
            ev == Self::hide_menu_spec(),
    {
        SystrayEvent { action: SystrayAction::HideMenu, menu_index: 0 }
    }
}

} // verus!
