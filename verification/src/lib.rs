//! Host-process shell of a desktop application.
//!
//! The shell owns one main window whose visibility is driven by a tray icon, a
//! global keyboard shortcut and requests from the frontend, and it keeps the
//! conversation records that the frontend saves. The code here makes every
//! decision; the host program performs the platform calls that it asks for and
//! reports back what the platform answered.

pub mod controller;
pub mod dispatch;
pub mod error;
pub mod router;
pub mod startup;
pub mod store;
pub mod text;
pub mod window;
