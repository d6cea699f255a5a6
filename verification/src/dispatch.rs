//! The dispatcher: what the tray protocol reports of the user's actions
//! becomes events here, and waits here until the application takes it.
//! Every action gives at most one event; nothing is merged and nothing is
//! left out, and events are taken in the order in which they came.

use crate::event::{MenuEvent, TrayIconEvent};
use crate::menu::{
    translated, AboutMetadata, Activation, MenuItem, NativeMenuItem, NativeView,
    PredefinedMenuItemKind,
};
use std::collections::VecDeque;
use vstd::prelude::*;

verus! {

/// The events that wait for the application.
#[derive(Debug)]
pub struct EventDispatcher {
    menu_events: VecDeque<MenuEvent>,
    tray_events: VecDeque<TrayIconEvent>,
}

/// What waits in a dispatcher, as mathematical values: each queue with its
/// oldest event first.
pub struct DispatcherView {
    pub menu_events: Seq<MenuEvent>,
    pub tray_events: Seq<TrayIconEvent>,
}

impl View for EventDispatcher {
    type V = DispatcherView;

    closed spec fn view(&self) -> DispatcherView {
        DispatcherView { menu_events: self.menu_events@, tray_events: self.tray_events@ }
    }
}

/// The activation that a node of the translated menu carries. Submenus and
/// separators carry none.
pub open spec fn activation_of(native: NativeView) -> Option<Activation> {
    match native {
        NativeView::Standard { activate, .. } => Some(activate),
        NativeView::Checkmark { activate, .. } => Some(activate),
        NativeView::SubMenu { .. } => None,
        NativeView::Separator => None,
    }
}

/// The event that an activation publishes, if it publishes one.
pub open spec fn published(activate: Activation) -> Option<MenuEvent> {
    match activate {
        Activation::SendMenuEvent { id } => Some(MenuEvent { id }),
        Activation::ShowAbout { .. } => None,
    }
}

/// The metadata of the dialog that an activation shows, if it shows one.
pub open spec fn dialog_shown(activate: Activation) -> Option<AboutMetadata> {
    match activate {
        Activation::SendMenuEvent { .. } => None,
        Activation::ShowAbout { metadata } => Some(metadata),
    }
}

/// The dispatcher after an activation has run: the event that it publishes
/// has joined the end of the menu events; where it publishes none, nothing
/// has changed.
pub open spec fn after_activation(waiting: DispatcherView, activate: Activation) -> DispatcherView {
    match published(activate) {
        Some(event) => DispatcherView { menu_events: waiting.menu_events.push(event), ..waiting },
        None => waiting,
    }
}

impl EventDispatcher {
    /// A dispatcher in which nothing waits.
    pub fn new() -> (dispatcher: EventDispatcher)
        ensures
            dispatcher@ == (DispatcherView {
                menu_events: Seq::empty(),
                tray_events: Seq::empty(),
            }),
    {
        EventDispatcher { menu_events: VecDeque::new(), tray_events: VecDeque::new() }
    }

    /// Runs an activation. Either one menu event joins the queue, or the
    /// metadata of the "About" dialog to show comes back and the queue stays
    /// as it is.
    pub fn run(&mut self, activate: &Activation) -> (dialog: Option<AboutMetadata>)
        ensures
            final(self)@ == after_activation(old(self)@, *activate),
            dialog == dialog_shown(*activate),
    {
        match activate {
            Activation::SendMenuEvent { id } => {
                self.menu_events.push_back(MenuEvent::for_item(id));
                None
            },
            Activation::ShowAbout { metadata } => Some(metadata.clone()),
        }
    }

    /// Activates a node of the translated menu, as the tray protocol does
    /// when the user picks it. A node that carries no activation changes
    /// nothing.
    pub fn activate(&mut self, item: &NativeMenuItem) -> (dialog: Option<AboutMetadata>)
        ensures
            match activation_of(item@) {
                Some(activate) => {
                    &&& final(self)@ == after_activation(old(self)@, activate)
                    &&& dialog == dialog_shown(activate)
                },
                None => final(self)@ == old(self)@ && dialog is None,
            },
    {
        match item {
            NativeMenuItem::Standard { activate, .. } => self.run(activate),
            NativeMenuItem::Checkmark { activate, .. } => self.run(activate),
            NativeMenuItem::SubMenu { .. } => None,
            NativeMenuItem::Separator => None,
        }
    }

    /// Takes in an event of the tray icon itself.
    pub fn publish(&mut self, event: TrayIconEvent)
        ensures
            final(self)@ == (DispatcherView {
                tray_events: old(self)@.tray_events.push(event),
                ..old(self)@
            }),
    {
        self.tray_events.push_back(event);
    }

    /// Takes the oldest menu event that waits, if one does.
    pub fn next_menu_event(&mut self) -> (event: Option<MenuEvent>)
        ensures
            old(self)@.menu_events.len() == 0 ==> event is None && final(self)@ == old(self)@,
            old(self)@.menu_events.len() > 0 ==> event == Some(old(self)@.menu_events[0])
                && final(self)@ == (DispatcherView {
                    menu_events: old(self)@.menu_events.drop_first(),
                    ..old(self)@
                }),
    {
        self.menu_events.pop_front()
    }

    /// Takes the oldest event of the tray icon that waits, if one does.
    pub fn next_tray_event(&mut self) -> (event: Option<TrayIconEvent>)
        ensures
            old(self)@.tray_events.len() == 0 ==> event is None && final(self)@ == old(self)@,
            old(self)@.tray_events.len() > 0 ==> event == Some(old(self)@.tray_events[0])
                && final(self)@ == (DispatcherView {
                    tray_events: old(self)@.tray_events.drop_first(),
                    ..old(self)@
                }),
    {
        self.tray_events.pop_front()
    }
}

/// Activating the translation of a standard item that is not an "About"
/// item with metadata publishes one menu event, which carries the item's own
/// identity; no dialog is shown and no other event appears.
pub proof fn lemma_standard_item_reports_its_identity(
    waiting: DispatcherView,
    item: MenuItem,
    inherited_enabled: bool,
)
    requires
        item is Standard,
        !(item->predefined_kind matches Some(PredefinedMenuItemKind::About(Some(_)))),
    ensures
        activation_of(translated(item, inherited_enabled)) matches Some(activate) && {
            &&& after_activation(waiting, activate) == (DispatcherView {
                menu_events: waiting.menu_events.push(MenuEvent { id: item->Standard_id }),
                ..waiting
            })
            &&& dialog_shown(activate) is None
        },
{
}

/// Activating the translation of a check item publishes one menu event,
/// which carries the item's own identity; the check mark is as the menu gave
/// it.
pub proof fn lemma_check_item_reports_its_identity(
    waiting: DispatcherView,
    item: MenuItem,
    inherited_enabled: bool,
)
    requires
        item is Checkmark,
    ensures
        activation_of(translated(item, inherited_enabled)) matches Some(activate) && {
            &&& after_activation(waiting, activate) == (DispatcherView {
                menu_events: waiting.menu_events.push(MenuEvent { id: item->Checkmark_id }),
                ..waiting
            })
            &&& dialog_shown(activate) is None
        },
        translated(item, inherited_enabled)->Checkmark_checked == item->checked,
{
}

/// Activating the translation of an "About" item that carries metadata
/// shows the dialog with that metadata, once, and publishes no event.
pub proof fn lemma_about_item_shows_its_dialog(
    waiting: DispatcherView,
    item: MenuItem,
    metadata: AboutMetadata,
    inherited_enabled: bool,
)
    requires
        item is Standard,
        item->predefined_kind == Some(PredefinedMenuItemKind::About(Some(metadata))),
    ensures
        activation_of(translated(item, inherited_enabled)) matches Some(activate) && {
            &&& after_activation(waiting, activate) == waiting
            &&& dialog_shown(activate) == Some(metadata)
        },
{
}

} // verus!
