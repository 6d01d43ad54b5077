use vstd::prelude::*;

verus! {

// Shell_NotifyIconW commands.
pub const NIM_ADD: u32 = 0x00000000;
pub const NIM_MODIFY: u32 = 0x00000001;
pub const NIM_DELETE: u32 = 0x00000002;

// NOTIFYICONDATAW flags.
pub const NIF_MESSAGE: u32 = 0x00000001;
pub const NIF_ICON: u32 = 0x00000002;
pub const NIF_TIP: u32 = 0x00000004;

// Menu item flags, positions and states.
pub const MF_BYPOSITION: u32 = 0x00000400;
pub const MF_UNCHECKED: u32 = 0x00000000;
pub const MF_CHECKED: u32 = 0x00000008;
pub const MF_ENABLED: u32 = 0x00000000;
pub const MF_GRAYED: u32 = 0x00000001;
pub const MF_DISABLED: u32 = 0x00000002;

// MENUITEMINFOW masks, types and states.
pub const MIIM_STATE: u32 = 0x00000001;
pub const MIIM_ID: u32 = 0x00000002;
pub const MIIM_CHECKMARKS: u32 = 0x00000008;
pub const MIIM_STRING: u32 = 0x00000040;
pub const MIIM_FTYPE: u32 = 0x00000100;
pub const MFT_STRING: u32 = 0x00000000;
pub const MFT_SEPARATOR: u32 = 0x00000800;
pub const MFS_CHECKED: u32 = 0x00000008;

// MENUINFO masks and styles.
pub const MIM_STYLE: u32 = 0x00000010;
pub const MIM_APPLYTOSUBMENUS: u32 = 0x80000000;
pub const MNS_NOTIFYBYPOS: u32 = 0x08000000;

// TrackPopupMenu alignment.
pub const TPM_LEFTALIGN: u32 = 0x0000;
pub const TPM_BOTTOMALIGN: u32 = 0x0020;

// Window messages.
pub const WM_DESTROY: u32 = 0x0002;
pub const WM_QUIT: u32 = 0x0012;
pub const WM_UNINITMENUPOPUP: u32 = 0x0125;
pub const WM_MENUCOMMAND: u32 = 0x0126;
pub const WM_LBUTTONUP: u32 = 0x0202;
pub const WM_RBUTTONUP: u32 = 0x0205;
pub const WM_USER: u32 = 0x0400;

/// The message the shell sends to the tray window for mouse events on the icon.
pub const WM_TRAY_CALLBACK: u32 = WM_USER + 1;

/// The identifier of the one icon that the tray window owns.
pub const TRAY_ICON_ID: u32 = 0x1;

/// The number of UTF-16 units in the tooltip buffer of NOTIFYICONDATAW.
pub const TIP_LEN: usize = 128;

} // verus!
