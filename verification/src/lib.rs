//! The platform-independent core of a Windows system-tray icon: the state
//! of its popup menu, the wide strings and records handed to the shell, the
//! routing of window messages, and the errors reported back to callers.

pub mod consts;
pub mod error;
pub mod event;
pub mod menu;
pub mod notify;
pub mod wide;
pub mod window;

pub use event::{SystrayAction, SystrayError, SystrayEvent};
pub use menu::MenuEnableFlag;
