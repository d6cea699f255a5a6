//! The state of one tray icon, as the tray protocol polls it, and the
//! updates that change it.

use crate::event::{MouseButton, MouseButtonState, Position, Rect, TrayIconEvent, TrayIconId};
use crate::icon::{IconView, PlatformIcon};
use crate::menu::NativeMenuItem;
use crate::shared::{muda_to_ksni_menu_item, renders, SharedMenuItem};
use vstd::prelude::*;

verus! {

/// Whether the tray icon is shown.
#[derive(Debug, Clone, Copy, PartialEq, Eq, Structural)]
pub enum Status {
    /// The icon is shown.
    Active,
    /// The icon is hidden; the tray itself stays alive.
    Passive,
}

/// What the tray protocol shows when the pointer rests on the icon.
#[derive(Debug, PartialEq, Eq)]
pub struct ToolTip {
    pub icon_pixmap: Vec<PlatformIcon>,
    pub title: String,
    pub description: String,
}

/// The state of one tray icon.
#[derive(Debug)]
pub struct Tray {
    id: TrayIconId,
    icon: Option<PlatformIcon>,
    title: String,
    status: Status,
    tooltip: String,
    menu: Vec<SharedMenuItem>,
}

/// The state of a tray icon as mathematical values.
pub struct TrayView {
    pub id: TrayIconId,
    pub icon: Option<IconView>,
    pub title: Seq<char>,
    pub status: Status,
    pub tooltip: Seq<char>,
    pub menu: Seq<SharedMenuItem>,
}

/// The view of an icon that may be absent.
pub open spec fn icon_view(icon: Option<PlatformIcon>) -> Option<IconView> {
    match icon {
        Some(icon) => Some(icon@),
        None => None,
    }
}

/// The icons that the tray protocol is given: the one icon, or none.
pub open spec fn pixmap_of(icon: Option<IconView>) -> Seq<IconView> {
    match icon {
        Some(icon) => seq![icon],
        None => Seq::empty(),
    }
}

/// The views of a list of icons.
pub open spec fn icon_views(icons: Seq<PlatformIcon>) -> Seq<IconView> {
    Seq::new(icons.len(), |i: int| icons[i]@)
}

impl View for Tray {
    type V = TrayView;

    closed spec fn view(&self) -> TrayView {
        TrayView {
            id: self.id,
            icon: icon_view(self.icon),
            title: self.title@,
            status: self.status,
            tooltip: self.tooltip@,
            menu: self.menu@,
        }
    }
}

impl Tray {
    /// A tray in its first state: shown, with what it is given.
    pub fn new(
        id: TrayIconId,
        icon: Option<PlatformIcon>,
        title: String,
        tooltip: String,
        menu: Vec<SharedMenuItem>,
    ) -> (tray: Tray)
        ensures
            tray@ == (TrayView {
                id,
                icon: icon_view(icon),
                title: title@,
                status: Status::Active,
                tooltip: tooltip@,
                menu: menu@,
            }),
    {
        Tray { id, icon, title, status: Status::Active, tooltip, menu }
    }

    /// Replaces the icon; `None` shows no icon.
    pub fn set_icon(&mut self, icon: Option<PlatformIcon>)
        ensures
            final(self)@ == (TrayView { icon: icon_view(icon), ..old(self)@ }),
    {
        self.icon = icon;
    }

    /// Replaces the title.
    pub fn set_title(&mut self, title: String)
        ensures
            final(self)@ == (TrayView { title: title@, ..old(self)@ }),
    {
        self.title = title;
    }

    /// Shows or hides the icon.
    pub fn set_status(&mut self, status: Status)
        ensures
            final(self)@ == (TrayView { status, ..old(self)@ }),
    {
        self.status = status;
    }

    /// Replaces the tooltip's text.
    pub fn set_tooltip(&mut self, tooltip: String)
        ensures
            final(self)@ == (TrayView { tooltip: tooltip@, ..old(self)@ }),
    {
        self.tooltip = tooltip;
    }

    /// Replaces the menu; an empty list shows no menu.
    pub fn set_menu(&mut self, menu: Vec<SharedMenuItem>)
        ensures
            final(self)@ == (TrayView { menu: menu@, ..old(self)@ }),
    {
        self.menu = menu;
    }

    /// The identity under which the tray protocol knows this icon.
    pub fn id(&self) -> (id: String)
        ensures
            id == self@.id.0,
    {
        self.id.0.clone()
    }

    /// Whether the icon is shown.
    pub fn status(&self) -> (status: Status)
        ensures
            status == self@.status,
    {
        self.status
    }

    /// The icons to show: the one icon, or none.
    pub fn icon_pixmap(&self) -> (icons: Vec<PlatformIcon>)
        ensures
            icon_views(icons@) == pixmap_of(self@.icon),
    {
        let mut icons: Vec<PlatformIcon> = Vec::new();
        match &self.icon {
            Some(icon) => {
                icons.push(icon.clone());
            },
            None => {},
        }
        icons
    }

    /// The title.
    pub fn title(&self) -> (title: String)
        ensures
            title@ == self@.title,
    {
        self.title.clone()
    }

    /// The tooltip: the icon and the title, and the tooltip's text as the
    /// description.
    pub fn tool_tip(&self) -> (tip: ToolTip)
        ensures
            icon_views(tip.icon_pixmap@) == pixmap_of(self@.icon),
            tip.title@ == self@.title,
            tip.description@ == self@.tooltip,
    {
        ToolTip {
            icon_pixmap: self.icon_pixmap(),
            title: self.title.clone(),
            description: self.tooltip.clone(),
        }
    }

    /// The menu to show, translated anew from the items as they are at the
    /// moment of the call: one node for each top-level item, in order, each
    /// node the translation of a value of the item at its own place.
    ///
    /// Where a whole new menu and an item replaced in place meet, the menu
    /// that was set last decides which items are shown, and each of them is
    /// shown with the value that it holds when this is called.
    pub fn menu(&self) -> (natives: Vec<NativeMenuItem>)
        ensures
            natives@.len() == self@.menu.len(),
            forall|i: int|
                0 <= i < natives@.len() ==> renders(self@.menu[i], (#[trigger] natives@[i])@),
    {
        let mut natives: Vec<NativeMenuItem> = Vec::new();
        let mut i: usize = 0;
        while i < self.menu.len()
            invariant
                i <= self.menu.len(),
                natives@.len() == i,
                forall|k: int|
                    0 <= k < i ==> renders(self.menu@[k], (#[trigger] natives@[k])@),
            decreases self.menu.len() - i,
        {
            let native = muda_to_ksni_menu_item(&self.menu[i]);
            natives.push(native);
            i = i + 1;
        }
        natives
    }

    fn click(&self, x: i32, y: i32, button: MouseButton) -> (event: TrayIconEvent)
        ensures
            event == click_event(self@.id, x, y, button),
    {
        TrayIconEvent::Click {
            id: self.id.clone(),
            position: Position { x, y },
            rect: Rect::default(),
            button,
            button_state: MouseButtonState::Up,
        }
    }

    /// The event for a click on the icon with the primary button, with the
    /// pointer at `(x, y)`.
    pub fn activate(&self, x: i32, y: i32) -> (event: TrayIconEvent)
        ensures
            event == click_event(self@.id, x, y, MouseButton::Left),
    {
        self.click(x, y, MouseButton::Left)
    }

    /// The event for a click on the icon with the middle button, with the
    /// pointer at `(x, y)`.
    pub fn secondary_activate(&self, x: i32, y: i32) -> (event: TrayIconEvent)
        ensures
            event == click_event(self@.id, x, y, MouseButton::Middle),
    {
        self.click(x, y, MouseButton::Middle)
    }
}

/// The event that a click on the tray icon `id` gives: the button has come
/// up at `(x, y)`, and where the icon is is not known.
pub open spec fn click_event(id: TrayIconId, x: i32, y: i32, button: MouseButton) -> TrayIconEvent {
    TrayIconEvent::Click {
        id,
        position: Position { x, y },
        rect: Rect::unknown(),
        button,
        button_state: MouseButtonState::Up,
    }
}

/// One change to a tray's state. Each replaces one field as a whole.
#[derive(Debug)]
pub enum TrayUpdate {
    /// Replace the icon; `None` shows no icon.
    SetIcon(Option<PlatformIcon>),
    /// Replace the menu.
    SetMenu(Vec<SharedMenuItem>),
    /// Replace the title.
    SetTitle(String),
    /// Replace the tooltip's text.
    SetTooltip(String),
    /// Show or hide the icon.
    SetStatus(Status),
    /// Change nothing, but render again: a menu item was replaced in place.
    Refresh,
}

/// An update as mathematical values.
pub enum UpdateView {
    SetIcon(Option<IconView>),
    SetMenu(Seq<SharedMenuItem>),
    SetTitle(Seq<char>),
    SetTooltip(Seq<char>),
    SetStatus(Status),
    Refresh,
}

impl View for TrayUpdate {
    type V = UpdateView;

    open spec fn view(&self) -> UpdateView {
        match self {
            TrayUpdate::SetIcon(icon) => UpdateView::SetIcon(icon_view(*icon)),
            TrayUpdate::SetMenu(menu) => UpdateView::SetMenu(menu@),
            TrayUpdate::SetTitle(title) => UpdateView::SetTitle(title@),
            TrayUpdate::SetTooltip(tooltip) => UpdateView::SetTooltip(tooltip@),
            TrayUpdate::SetStatus(status) => UpdateView::SetStatus(*status),
            TrayUpdate::Refresh => UpdateView::Refresh,
        }
    }
}

/// The views of a list of updates, in order.
pub open spec fn update_views(updates: Seq<TrayUpdate>) -> Seq<UpdateView> {
    Seq::new(updates.len(), |i: int| updates[i]@)
}

/// The state after one update: the one field that the update names is
/// replaced, every other field stays.
pub open spec fn applied(tray: TrayView, update: UpdateView) -> TrayView {
    match update {
        UpdateView::SetIcon(icon) => TrayView { icon, ..tray },
        UpdateView::SetMenu(menu) => TrayView { menu, ..tray },
        UpdateView::SetTitle(title) => TrayView { title, ..tray },
        UpdateView::SetTooltip(tooltip) => TrayView { tooltip, ..tray },
        UpdateView::SetStatus(status) => TrayView { status, ..tray },
        UpdateView::Refresh => tray,
    }
}

/// The state after a list of updates, applied one by one from the first to
/// the last.
pub open spec fn applied_all(tray: TrayView, updates: Seq<UpdateView>) -> TrayView
    decreases updates.len(),
{
    if updates.len() == 0 {
        tray
    } else {
        applied(applied_all(tray, updates.drop_last()), updates.last())
    }
}

impl Tray {
    /// Applies one update.
    pub fn apply(&mut self, update: TrayUpdate)
        ensures
            final(self)@ == applied(old(self)@, update@),
    {
        match update {
            TrayUpdate::SetIcon(icon) => self.set_icon(icon),
            TrayUpdate::SetMenu(menu) => self.set_menu(menu),
            TrayUpdate::SetTitle(title) => self.set_title(title),
            TrayUpdate::SetTooltip(tooltip) => self.set_tooltip(tooltip),
            TrayUpdate::SetStatus(status) => self.set_status(status),
            TrayUpdate::Refresh => {},
        }
    }

    /// Applies updates in the order in which they were issued.
    pub fn apply_all(&mut self, updates: Vec<TrayUpdate>)
        ensures
            final(self)@ == applied_all(old(self)@, update_views(updates@)),
    {
        let ghost all = update_views(updates@);
        let ghost start = self@;
        for update in it: updates
            invariant
                all == update_views(it.seq()),
                self@ == applied_all(start, all.subrange(0, it.index() as int)),
        {
            let ghost done = it.index() as int;
            assert(all.subrange(0, done + 1).drop_last() =~= all.subrange(0, done));
            self.apply(update);
        }
        assert(all.subrange(0, all.len() as int) =~= all);
    }
}

/// Updates take effect in the order in which they were issued: applying
/// two lists one after the other is applying the one list that holds them
/// in that order.
pub proof fn lemma_updates_apply_in_issue_order(
    tray: TrayView,
    first: Seq<UpdateView>,
    second: Seq<UpdateView>,
)
    ensures
        applied_all(tray, first + second) == applied_all(applied_all(tray, first), second),
    decreases second.len(),
{
    if second.len() == 0 {
        assert(first + second =~= first);
    } else {
        lemma_updates_apply_in_issue_order(tray, first, second.drop_last());
        assert((first + second).drop_last() =~= first + second.drop_last());
    }
}

/// The title stays what it is until an update replaces it: updates of the
/// other fields do not touch it.
pub proof fn lemma_title_stays(tray: TrayView, updates: Seq<UpdateView>)
    requires
        forall|i: int| 0 <= i < updates.len() ==> !(#[trigger] updates[i] is SetTitle),
    ensures
        applied_all(tray, updates).title == tray.title,
    decreases updates.len(),
{
    if updates.len() > 0 {
        lemma_title_stays(tray, updates.drop_last());
    }
}

/// The status is one of two states and changes only by an update of the
/// status: updates of the other fields leave it as it is.
pub proof fn lemma_status_stays(tray: TrayView, updates: Seq<UpdateView>)
    requires
        forall|i: int| 0 <= i < updates.len() ==> !(#[trigger] updates[i] is SetStatus),
    ensures
        applied_all(tray, updates).status == tray.status,
    decreases updates.len(),
{
    if updates.len() > 0 {
        lemma_status_stays(tray, updates.drop_last());
    }
}

} // verus!
