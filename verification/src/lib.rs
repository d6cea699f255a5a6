//! Core of a status-bar tray icon with a menu.
//!
//! - [`icon`]: the pixel codec between loaded images and the tray protocol.
//! - [`menu`]: the platform-neutral menu tree and its translation into the
//!   menu that the tray protocol shows.
//! - [`shared`]: menu items that the menu's builder replaces in place while
//!   the tray shows them.
//! - [`tray`]: the state of one tray icon, as the tray protocol polls it,
//!   and the updates that change it.
//! - [`handle`]: the handle through which an application issues updates.
//! - [`dispatch`]: the events that go back to the application.
//! - [`event`]: the values of those events.

pub mod dispatch;
pub mod event;
pub mod handle;
pub mod icon;
pub mod menu;
pub mod shared;
pub mod tray;
