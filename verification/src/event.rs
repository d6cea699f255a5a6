//! The values that leave the tray: one kind for an activated menu item, one
//! for a click on the tray icon itself.

use vstd::prelude::*;

verus! {

/// Identity of a menu item, assigned by whoever built the menu.
#[derive(Debug, PartialEq, Eq, Hash)]
pub struct MenuId(pub String);

/// Identity of a tray icon, fixed for its whole life.
#[derive(Debug, PartialEq, Eq, Hash)]
pub struct TrayIconId(pub String);

impl Clone for MenuId {
    fn clone(&self) -> (copy: Self)
        ensures
            copy == *self,
    {
        MenuId(self.0.clone())
    }
}

impl Clone for TrayIconId {
    fn clone(&self) -> (copy: Self)
        ensures
            copy == *self,
    {
        TrayIconId(self.0.clone())
    }
}

/// A menu item, anywhere in the tree, was activated.
#[derive(Debug, Clone, PartialEq, Eq)]
pub struct MenuEvent {
    /// Identity of the item that was activated.
    pub id: MenuId,
}

/// Which pointer button was used.
#[derive(Debug, Clone, Copy, PartialEq, Eq, Structural)]
pub enum MouseButton {
    Left,
    Right,
    Middle,
}

/// Whether the button went down or came up.
#[derive(Debug, Clone, Copy, PartialEq, Eq, Structural)]
pub enum MouseButtonState {
    Up,
    Down,
}

/// A place on the screen, in whole physical pixels.
#[derive(Debug, Clone, Copy, PartialEq, Eq, Structural)]
pub struct Position {
    pub x: i32,
    pub y: i32,
}

/// The area that a tray icon covers on the screen.
#[derive(Debug, Clone, Copy, PartialEq, Eq, Structural)]
pub struct Rect {
    pub position: Position,
    pub width: u32,
    pub height: u32,
}

impl Rect {
    /// The empty area at the origin, reported where the tray protocol does
    /// not tell where the icon is.
    pub open spec fn unknown() -> Rect {
        Rect { position: Position { x: 0, y: 0 }, width: 0, height: 0 }
    }
}

impl Default for Rect {
    fn default() -> (rect: Rect)
        ensures
            rect == Rect::unknown(),
    {
        Rect { position: Position { x: 0, y: 0 }, width: 0, height: 0 }
    }
}

/// The tray icon itself, not one of its menu items, was used.
#[derive(Debug, Clone, PartialEq, Eq)]
pub enum TrayIconEvent {
    /// The icon was clicked.
    Click {
        /// Identity of the tray icon.
        id: TrayIconId,
        /// Where the pointer was.
        position: Position,
        /// Where the icon is.
        rect: Rect,
        /// The button that was used.
        button: MouseButton,
        /// The state of that button.
        button_state: MouseButtonState,
    },
}

impl MenuEvent {
    /// The event that tells the application that the item `id` was
    /// activated.
    pub fn for_item(id: &MenuId) -> (event: MenuEvent)
        ensures
            event.id == *id,
    {
        MenuEvent { id: id.clone() }
    }
}

} // verus!
