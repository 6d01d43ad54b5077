use vstd::prelude::*;
use crate::consts::{
    MIM_APPLYTOSUBMENUS, MIM_STYLE, MNS_NOTIFYBYPOS, WM_DESTROY, WM_LBUTTONUP, WM_MENUCOMMAND,
    WM_QUIT, WM_RBUTTONUP, WM_TRAY_CALLBACK, WM_UNINITMENUPOPUP,
};
use crate::event::SystrayEvent;
use crate::wide::{to_wstring, wide_string};

verus! {

/// What the tray window's procedure does with a message before handing it
/// to the default procedure.
#[derive(Clone, Copy, Debug, PartialEq, Eq, Structural)]
pub enum MessageRoute {
    /// A menu item was picked: look up its identifier and report it.
    MenuCommand,
    /// The popup menu was closed: report that it is hidden.
    MenuClosed,
    /// A mouse button was released over the tray icon: show the popup menu.
    TrayClick,
    /// The window is being destroyed: end the message loop.
    Destroy,
    /// Nothing beyond the default procedure.
    Default,
}

/// How the window procedure routes message `msg` with parameter `lparam`.
pub open spec fn route_spec(msg: u32, lparam: isize) -> MessageRoute {
    if msg == WM_MENUCOMMAND {
        MessageRoute::MenuCommand
    } else if msg == WM_UNINITMENUPOPUP {
        MessageRoute::MenuClosed
    } else if msg == WM_TRAY_CALLBACK {
        if (lparam as u32) == WM_LBUTTONUP || (lparam as u32) == WM_RBUTTONUP {
            MessageRoute::TrayClick
        } else {
            MessageRoute::Default
        }
    } else if msg == WM_DESTROY {
        MessageRoute::Destroy
    } else {
        MessageRoute::Default
    }
}

/// Routes a message of the tray window: menu commands, the closing of the
/// popup, left or right button releases over the icon (the shell reports
/// them in the low 32 bits of `lparam`) and the window's destruction.
pub fn route_message(msg: u32, lparam: isize) -> (route: MessageRoute)
    ensures
        route == route_spec(msg, lparam),
        msg == 0x0126 ==> route == MessageRoute::MenuCommand,
        msg == 0x0125 ==> route == MessageRoute::MenuClosed,
        msg == 0x0002 ==> route == MessageRoute::Destroy,
        msg == 0x0401 ==> (route == MessageRoute::TrayClick <==> ((lparam as u32) == 0x0202
            || (lparam as u32) == 0x0205)),
        msg == 0x0401 ==> (route == MessageRoute::TrayClick || route == MessageRoute::Default),
        route == MessageRoute::TrayClick ==> msg == 0x0401,
        (msg != 0x0126 && msg != 0x0125 && msg != 0x0002 && msg != 0x0401) ==> route
            == MessageRoute::Default,
{
    if msg == WM_MENUCOMMAND {
        MessageRoute::MenuCommand
    } else if msg == WM_UNINITMENUPOPUP {
        MessageRoute::MenuClosed
    } else if msg == WM_TRAY_CALLBACK {
        let mouse = lparam as u32;
        if mouse == WM_LBUTTONUP || mouse == WM_RBUTTONUP {
            MessageRoute::TrayClick
        } else {
            MessageRoute::Default
        }
    } else if msg == WM_DESTROY {
        MessageRoute::Destroy
    } else {
        MessageRoute::Default
    }
}

/// The event for a menu command, given what `GetMenuItemID` returned for
/// the picked position: none when that is -1 as a signed value (no such
/// item), otherwise a selection of that identifier.
pub fn menu_command_event(item_id: u32) -> (ev: Option<SystrayEvent>)
    ensures
        ev == (if item_id == 0xFFFF_FFFFu32 {
            None
        } else {
            Some(SystrayEvent::select_item_spec(item_id))
        }),
{
    let menu_id = item_id as i32;
    assert((item_id as i32 == -1i32) == (item_id == 0xFFFF_FFFFu32)) by (bit_vector);
    if menu_id != -1 {
        assert(item_id != 0xFFFF_FFFFu32);
        Some(SystrayEvent::select_item(item_id))
    } else {
        None
    }
}

/// Whether the message loop ends on a message: only on `WM_QUIT`.
pub fn is_quit(message: u32) -> (b: bool)
    ensures
        b == (message == WM_QUIT),
{
    message == WM_QUIT
}

/// The fields of the MENUINFO record that set up the popup menu.
pub struct MenuInfo {
    /// `fMask`: which fields are valid.
    pub mask: u32,
    /// `dwStyle`: the menu's style.
    pub style: u32,
}

/// The popup menu reports commands by position, for itself and its submenus.
pub fn popup_menu_info() -> (info: MenuInfo)
    ensures
        info.mask == MIM_APPLYTOSUBMENUS | MIM_STYLE,
        info.style == MNS_NOTIFYBYPOS,
{
    MenuInfo { mask: MIM_APPLYTOSUBMENUS | MIM_STYLE, style: MNS_NOTIFYBYPOS }
}

/// Where the icon image starts in an icon file held in memory, given the
/// offset that `LookupIconIdFromDirectoryEx` found: none when it found
/// nothing (offset 0). The offset must lie within the buffer.
pub fn icon_data_start(buffer_len: usize, offset: i32) -> (start: Option<usize>)
    requires
        offset == 0 || (0 < offset && offset <= buffer_len),
    ensures
        start == (if offset == 0 { None::<usize> } else { Some(offset as usize) }),
{
    if offset != 0 {
        Some(offset as usize)
    } else {
        None
    }
}


/// The wide name under which the tray window's class is registered.
pub fn window_class_name() -> (name: Vec<u16>)
    ensures
        name@ == wide_string("my_window"@),
{
    to_wstring("my_window")
}

/// The wide title of the tray window.
pub fn window_title() -> (title: Vec<u16>)
    ensures
        title@ == wide_string("rust_systray_window"@),
{
    to_wstring("rust_systray_window")
}


/// Only the release of the left or the right mouse button over the tray icon
/// shows the popup menu: every other mouse message over the icon (a press, a
/// double click, a move) and every message other than the tray callback
/// leaves it to the default procedure.
pub proof fn only_button_release_shows_popup(msg: u32, lparam: isize)
    ensures
        route_spec(msg, lparam) == MessageRoute::TrayClick <==> (msg == 0x0401 && ((lparam as u32)
            == 0x0202 || (lparam as u32) == 0x0205)),
{
}

} // verus!
