//! The handle through which an application changes a tray icon. The handle
//! never touches the tray's state itself: it issues updates, and the one
//! reader that renders the tray takes them in the order of issue.

use crate::event::{Rect, TrayIconId};
use crate::icon::PlatformIcon;
use crate::shared::SharedMenuItem;
use crate::tray::{
    applied, applied_all, icon_view, lemma_updates_apply_in_issue_order, update_views, Status,
    Tray, TrayUpdate, TrayView, UpdateView,
};
use vstd::prelude::*;

verus! {

/// What a tray icon starts with. What is absent starts empty.
#[derive(Debug)]
pub struct TrayIconAttributes {
    pub tooltip: Option<String>,
    pub menu: Option<Vec<SharedMenuItem>>,
    pub icon: Option<PlatformIcon>,
    pub title: Option<String>,
}

/// Why there is no tray icon.
#[derive(Debug, Clone, Copy, PartialEq, Eq, Structural)]
pub enum Error {
    /// The service that shows the tray could not be created. The tray icon
    /// does not exist; there is nothing to try again.
    ConstructionFailed,
}

/// The application's handle on one tray icon.
#[derive(Debug)]
pub struct TrayIcon {
    pending: Vec<TrayUpdate>,
    shut_down: bool,
}

/// A handle as mathematical values.
pub struct HandleView {
    /// The updates issued and not yet taken by the reader, oldest first.
    pub pending: Seq<UpdateView>,
    /// The tray has been torn down.
    pub shut_down: bool,
}

impl View for TrayIcon {
    type V = HandleView;

    closed spec fn view(&self) -> HandleView {
        HandleView { pending: update_views(self.pending@), shut_down: self.shut_down }
    }
}

/// A text that may be absent; absent, it is the empty text.
pub open spec fn text_or_empty(text: Option<Seq<char>>) -> Seq<char> {
    match text {
        Some(text) => text,
        None => Seq::empty(),
    }
}

/// The view of a text that may be absent.
pub open spec fn text_view(text: Option<String>) -> Option<Seq<char>> {
    match text {
        Some(text) => Some(text@),
        None => None,
    }
}

/// The view of a borrowed text that may be absent.
pub open spec fn str_view(text: Option<&str>) -> Option<Seq<char>> {
    match text {
        Some(text) => Some(text@),
        None => None,
    }
}

/// A menu that may be absent; absent, it is the empty menu.
pub open spec fn menu_or_empty(menu: Option<Vec<SharedMenuItem>>) -> Seq<SharedMenuItem> {
    match menu {
        Some(menu) => menu@,
        None => Seq::empty(),
    }
}

/// The status that shows the icon, or hides it.
pub open spec fn status_for(visible: bool) -> Status {
    if visible {
        Status::Active
    } else {
        Status::Passive
    }
}

/// The handle after issuing `update`: the update joins the end of the queue,
/// unless the tray has been torn down; then nothing changes.
pub open spec fn issued(handle: HandleView, update: UpdateView) -> HandleView {
    if handle.shut_down {
        handle
    } else {
        HandleView { pending: handle.pending.push(update), ..handle }
    }
}

fn owned_or_empty(text: Option<&str>) -> (owned: String)
    ensures
        owned@ == text_or_empty(str_view(text)),
{
    match text {
        Some(text) => text.to_owned(),
        None => String::new(),
    }
}

impl TrayIcon {
    /// A handle for a new tray icon, with the state that the icon's reader
    /// starts from: shown, with what the attributes give and the rest empty.
    /// Nothing is pending.
    pub fn new(id: TrayIconId, attrs: TrayIconAttributes) -> (created: (TrayIcon, Tray))
        ensures
            created.0@ == (HandleView { pending: Seq::empty(), shut_down: false }),
            created.1@ == (TrayView {
                id,
                icon: icon_view(attrs.icon),
                title: text_or_empty(text_view(attrs.title)),
                status: Status::Active,
                tooltip: text_or_empty(text_view(attrs.tooltip)),
                menu: menu_or_empty(attrs.menu),
            }),
    {
        let title = match attrs.title {
            Some(title) => title,
            None => String::new(),
        };
        let tooltip = match attrs.tooltip {
            Some(tooltip) => tooltip,
            None => String::new(),
        };
        let menu = match attrs.menu {
            Some(menu) => menu,
            None => Vec::new(),
        };
        let tray = Tray::new(id, attrs.icon, title, tooltip, menu);
        let handle = TrayIcon { pending: Vec::new(), shut_down: false };
        assert(handle@.pending =~= Seq::empty());
        (handle, tray)
    }

    /// Settles what becomes of a new handle once the service that shows
    /// the tray has been asked to start: the handle is the application's if
    /// the service runs, and construction has failed if it does not.
    pub fn on_service_start(self, service_runs: bool) -> (outcome: Result<TrayIcon, Error>)
        ensures
            service_runs ==> outcome == Ok::<TrayIcon, Error>(self),
            !service_runs ==> outcome == Err::<TrayIcon, Error>(Error::ConstructionFailed),
    {
        if service_runs {
            Ok(self)
        } else {
            Err(Error::ConstructionFailed)
        }
    }

    fn issue(&mut self, update: TrayUpdate)
        ensures
            final(self)@ == issued(old(self)@, update@),
    {
        if !self.shut_down {
            self.pending.push(update);
            assert(final(self)@.pending =~= old(self)@.pending.push(update@));
        }
    }

    /// Replaces the icon; `None` shows no icon.
    pub fn set_icon(&mut self, icon: Option<PlatformIcon>)
        ensures
            final(self)@ == issued(old(self)@, UpdateView::SetIcon(icon_view(icon))),
    {
        self.issue(TrayUpdate::SetIcon(icon));
    }

    /// Replaces the menu; `None` shows no menu.
    pub fn set_menu(&mut self, menu: Option<Vec<SharedMenuItem>>)
        ensures
            final(self)@ == issued(old(self)@, UpdateView::SetMenu(menu_or_empty(menu))),
    {
        let menu = match menu {
            Some(menu) => menu,
            None => Vec::new(),
        };
        self.issue(TrayUpdate::SetMenu(menu));
    }

    /// Replaces the tooltip's text; `None` is the empty text.
    pub fn set_tooltip(&mut self, tooltip: Option<&str>)
        ensures
            final(self)@ == issued(
                old(self)@,
                UpdateView::SetTooltip(text_or_empty(str_view(tooltip))),
            ),
    {
        self.issue(TrayUpdate::SetTooltip(owned_or_empty(tooltip)));
    }

    /// Replaces the title; `None` is the empty title.
    pub fn set_title(&mut self, title: Option<&str>)
        ensures
            final(self)@ == issued(
                old(self)@,
                UpdateView::SetTitle(text_or_empty(str_view(title))),
            ),
    {
        self.issue(TrayUpdate::SetTitle(owned_or_empty(title)));
    }

    /// Shows the icon, or hides it.
    pub fn set_visible(&mut self, visible: bool)
        ensures
            final(self)@ == issued(old(self)@, UpdateView::SetStatus(status_for(visible))),
    {
        if visible {
            self.issue(TrayUpdate::SetStatus(Status::Active));
        } else {
            self.issue(TrayUpdate::SetStatus(Status::Passive));
        }
    }

    /// Where the icon is on the screen. The tray protocol does not tell.
    pub fn rect(&self) -> (rect: Option<Rect>)
        ensures
            rect is None,
    {
        None
    }

    /// Reacts to the signal that a menu item was replaced in place.
    /// `received` tells whether the signal came, as opposed to its source
    /// having gone away. While the tray is alive, the reader is asked to
    /// render again; the answer tells whether to go on listening.
    pub fn on_menu_update(&mut self, received: bool) -> (listening: bool)
        ensures
            listening == (received && !old(self)@.shut_down),
            listening ==> final(self)@ == issued(old(self)@, UpdateView::Refresh),
            !listening ==> final(self)@ == old(self)@,
    {
        if received && !self.shut_down {
            self.issue(TrayUpdate::Refresh);
            true
        } else {
            false
        }
    }

    /// Hands the pending updates to the reader, oldest first, and leaves
    /// none pending.
    pub fn take_pending(&mut self) -> (taken: Vec<TrayUpdate>)
        ensures
            update_views(taken@) == old(self)@.pending,
            final(self)@ == (HandleView { pending: Seq::empty(), ..old(self)@ }),
    {
        let mut taken: Vec<TrayUpdate> = Vec::new();
        std::mem::swap(&mut self.pending, &mut taken);
        assert(final(self)@.pending =~= Seq::empty());
        taken
    }

    /// Tears the tray down: from now on every update is dropped. What was
    /// issued before stays pending.
    pub fn shut_down(&mut self)
        ensures
            final(self)@ == (HandleView { shut_down: true, ..old(self)@ }),
    {
        self.shut_down = true;
    }

    /// Whether the tray has been torn down.
    pub fn is_shut_down(&self) -> (gone: bool)
        ensures
            gone == self@.shut_down,
    {
        self.shut_down
    }
}

/// Two updates issued in turn on a live handle reach the reader behind
/// everything issued before, the first before the second.
proof fn lemma_two_updates_in_turn(
    handle: HandleView,
    tray: TrayView,
    first: UpdateView,
    second: UpdateView,
)
    requires
        !handle.shut_down,
    ensures
        issued(issued(handle, first), second).pending == handle.pending + seq![first, second],
        applied_all(tray, issued(issued(handle, first), second).pending) == applied(
            applied(applied_all(tray, handle.pending), first),
            second,
        ),
{
    let both = seq![first, second];
    let reached = applied_all(tray, handle.pending);
    assert(issued(issued(handle, first), second).pending =~= handle.pending + both);
    lemma_updates_apply_in_issue_order(tray, handle.pending, both);
    assert(applied_all(reached, both.drop_last().drop_last()) == reached);
    assert(applied_all(reached, both.drop_last()) == applied(reached, first));
}

/// Of two titles set one after the other on a live handle, the reader ends
/// with the second: both updates reach it behind everything issued before,
/// the first before the second.
pub proof fn lemma_later_title_wins(
    handle: HandleView,
    tray: TrayView,
    first: Seq<char>,
    second: Seq<char>,
)
    requires
        !handle.shut_down,
    ensures
        issued(issued(handle, UpdateView::SetTitle(first)), UpdateView::SetTitle(second)).pending
            == handle.pending + seq![UpdateView::SetTitle(first), UpdateView::SetTitle(second)],
        applied_all(
            tray,
            issued(
                issued(handle, UpdateView::SetTitle(first)),
                UpdateView::SetTitle(second),
            ).pending,
        ) == (TrayView { title: second, ..applied_all(tray, handle.pending) }),
{
    lemma_two_updates_in_turn(
        handle,
        tray,
        UpdateView::SetTitle(first),
        UpdateView::SetTitle(second),
    );
}

/// Hiding the icon and then showing it on a live handle ends with the icon
/// shown and nothing else changed. A reader that takes the two updates
/// together goes from the state before them to this one, with nothing in
/// between.
pub proof fn lemma_hide_then_show_ends_active(handle: HandleView, tray: TrayView)
    requires
        !handle.shut_down,
    ensures
        applied_all(
            tray,
            issued(
                issued(handle, UpdateView::SetStatus(status_for(false))),
                UpdateView::SetStatus(status_for(true)),
            ).pending,
        ) == (TrayView { status: Status::Active, ..applied_all(tray, handle.pending) }),
{
    lemma_two_updates_in_turn(
        handle,
        tray,
        UpdateView::SetStatus(status_for(false)),
        UpdateView::SetStatus(status_for(true)),
    );
}

/// Once the tray has been torn down, issuing any update changes nothing.
pub proof fn lemma_update_after_shutdown_is_dropped(handle: HandleView, update: UpdateView)
    requires
        handle.shut_down,
    ensures
        issued(handle, update) == handle,
{
}

} // verus!
