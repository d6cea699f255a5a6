use tray_icon::event::{
    MenuEvent, MenuId, MouseButton, MouseButtonState, Position, Rect, TrayIconEvent, TrayIconId,
};
use tray_icon::handle::{Error, TrayIcon, TrayIconAttributes};
use tray_icon::icon::PlatformIcon;
use tray_icon::dispatch::EventDispatcher;
use tray_icon::menu::{Activation, MenuItem, NativeMenuItem};
use tray_icon::shared::SharedMenuItem;
use tray_icon::tray::{Status, ToolTip, Tray, TrayUpdate};

fn tray_id() -> TrayIconId {
    TrayIconId("tray-1".to_string())
}

fn icon() -> PlatformIcon {
    PlatformIcon::from_rgba(vec![1, 2, 3, 4], 1, 1).unwrap()
}

fn standard(item_id: &str, label: &str) -> MenuItem {
    MenuItem::Standard {
        id: MenuId(item_id.to_string()),
        label: label.to_string(),
        enabled: true,
        icon: None,
        predefined_kind: None,
    }
}

fn empty_attributes() -> TrayIconAttributes {
    TrayIconAttributes { tooltip: None, menu: None, icon: None, title: None }
}

#[test]
fn new_tray_is_active_and_holds_what_it_was_given() {
    let tray = Tray::new(
        tray_id(),
        Some(icon()),
        "Title".to_string(),
        "Tip".to_string(),
        vec![SharedMenuItem::new(standard("a", "A"))],
    );
    assert_eq!(tray.id(), "tray-1");
    assert_eq!(tray.status(), Status::Active);
    assert_eq!(tray.icon_pixmap(), vec![icon()]);
    assert_eq!(tray.title(), "Title");
    assert_eq!(
        tray.tool_tip(),
        ToolTip {
            icon_pixmap: vec![icon()],
            title: "Title".to_string(),
            description: "Tip".to_string(),
        }
    );
    assert_eq!(tray.menu().len(), 1);
}

#[test]
fn tray_without_icon_shows_no_pixmap() {
    let tray = Tray::new(tray_id(), None, String::new(), String::new(), Vec::new());
    assert!(tray.icon_pixmap().is_empty());
    assert!(tray.tool_tip().icon_pixmap.is_empty());
    assert!(tray.menu().is_empty());
}

#[test]
fn setters_replace_one_field_each() {
    let mut tray = Tray::new(tray_id(), None, "T".to_string(), "D".to_string(), Vec::new());
    tray.set_title("Other".to_string());
    assert_eq!(tray.title(), "Other");
    assert_eq!(tray.tool_tip().description, "D");
    assert_eq!(tray.status(), Status::Active);

    tray.set_tooltip("Hint".to_string());
    assert_eq!(tray.tool_tip().description, "Hint");
    assert_eq!(tray.title(), "Other");

    tray.set_icon(Some(icon()));
    assert_eq!(tray.icon_pixmap(), vec![icon()]);
    tray.set_icon(None);
    assert!(tray.icon_pixmap().is_empty());

    tray.set_status(Status::Passive);
    assert_eq!(tray.status(), Status::Passive);
    assert_eq!(tray.title(), "Other");

    tray.set_menu(vec![
        SharedMenuItem::new(standard("a", "A")),
        SharedMenuItem::new(MenuItem::Separator),
    ]);
    assert_eq!(tray.menu().len(), 2);
    assert_eq!(tray.menu()[1], NativeMenuItem::Separator);
    assert_eq!(tray.id(), "tray-1");
}

#[test]
fn menu_is_translated_in_order() {
    let tray = Tray::new(
        tray_id(),
        None,
        String::new(),
        String::new(),
        vec![
            SharedMenuItem::new(standard("first", "&First")),
            SharedMenuItem::new(MenuItem::Separator),
            SharedMenuItem::new(standard("last", "Last")),
        ],
    );
    let menu = tray.menu();
    assert_eq!(
        menu,
        vec![
            NativeMenuItem::Standard {
                label: "First".to_string(),
                enabled: true,
                icon_data: Vec::new(),
                activate: Activation::SendMenuEvent { id: MenuId("first".to_string()) },
            },
            NativeMenuItem::Separator,
            NativeMenuItem::Standard {
                label: "Last".to_string(),
                enabled: true,
                icon_data: Vec::new(),
                activate: Activation::SendMenuEvent { id: MenuId("last".to_string()) },
            },
        ]
    );
}

#[test]
fn menu_follows_an_item_replaced_in_place() {
    let counter = SharedMenuItem::new(standard("counter", "Count: 0"));
    let tray = Tray::new(tray_id(), None, String::new(), String::new(), vec![counter.share()]);
    assert!(matches!(
        &tray.menu()[0],
        NativeMenuItem::Standard { label, .. } if label == "Count: 0"
    ));
    counter.replace(standard("counter", "Count: 1"));
    assert!(matches!(
        &tray.menu()[0],
        NativeMenuItem::Standard { label, .. } if label == "Count: 1"
    ));
}

#[test]
fn primary_click_is_a_left_button_event() {
    let tray = Tray::new(tray_id(), None, String::new(), String::new(), Vec::new());
    assert_eq!(
        tray.activate(10, -20),
        TrayIconEvent::Click {
            id: tray_id(),
            position: Position { x: 10, y: -20 },
            rect: Rect { position: Position { x: 0, y: 0 }, width: 0, height: 0 },
            button: MouseButton::Left,
            button_state: MouseButtonState::Up,
        }
    );
}

#[test]
fn secondary_click_is_a_middle_button_event() {
    let tray = Tray::new(tray_id(), None, String::new(), String::new(), Vec::new());
    assert_eq!(
        tray.secondary_activate(7, 8),
        TrayIconEvent::Click {
            id: tray_id(),
            position: Position { x: 7, y: 8 },
            rect: Rect::default(),
            button: MouseButton::Middle,
            button_state: MouseButtonState::Up,
        }
    );
}

#[test]
fn updates_apply_in_the_order_given() {
    let mut tray = Tray::new(tray_id(), None, String::new(), String::new(), Vec::new());
    tray.apply_all(vec![
        TrayUpdate::SetTitle("A".to_string()),
        TrayUpdate::SetStatus(Status::Passive),
        TrayUpdate::SetTitle("B".to_string()),
        TrayUpdate::Refresh,
        TrayUpdate::SetTooltip("tip".to_string()),
    ]);
    assert_eq!(tray.title(), "B");
    assert_eq!(tray.status(), Status::Passive);
    assert_eq!(tray.tool_tip().description, "tip");
    tray.apply(TrayUpdate::SetIcon(Some(icon())));
    assert_eq!(tray.icon_pixmap().len(), 1);
    tray.apply(TrayUpdate::SetMenu(vec![SharedMenuItem::new(MenuItem::Separator)]));
    assert_eq!(tray.menu(), vec![NativeMenuItem::Separator]);
    tray.apply(TrayUpdate::Refresh);
    assert_eq!(tray.title(), "B");
}

#[test]
fn new_handle_starts_from_the_attributes() {
    let attrs = TrayIconAttributes {
        tooltip: Some("Tip".to_string()),
        menu: Some(vec![SharedMenuItem::new(standard("a", "A"))]),
        icon: Some(icon()),
        title: Some("Title".to_string()),
    };
    let (mut handle, tray) = TrayIcon::new(tray_id(), attrs);
    assert!(!handle.is_shut_down());
    assert!(handle.take_pending().is_empty());
    assert_eq!(tray.id(), "tray-1");
    assert_eq!(tray.status(), Status::Active);
    assert_eq!(tray.title(), "Title");
    assert_eq!(tray.tool_tip().description, "Tip");
    assert_eq!(tray.icon_pixmap(), vec![icon()]);
    assert_eq!(tray.menu().len(), 1);
}

#[test]
fn absent_attributes_start_empty() {
    let (_handle, tray) = TrayIcon::new(tray_id(), empty_attributes());
    assert_eq!(tray.title(), "");
    assert_eq!(tray.tool_tip().description, "");
    assert!(tray.icon_pixmap().is_empty());
    assert!(tray.menu().is_empty());
    assert_eq!(tray.status(), Status::Active);
}

#[test]
fn later_title_wins() {
    let (mut handle, mut tray) = TrayIcon::new(tray_id(), empty_attributes());
    handle.set_title(Some("A"));
    handle.set_title(Some("B"));
    let pending = handle.take_pending();
    assert_eq!(pending.len(), 2);
    let mut seen: Vec<String> = Vec::new();
    for update in pending {
        tray.apply(update);
        seen.push(tray.title());
    }
    assert_eq!(seen, vec!["A".to_string(), "B".to_string()]);
    assert_eq!(tray.title(), "B");
}

#[test]
fn hiding_then_showing_ends_active() {
    let (mut handle, mut tray) = TrayIcon::new(tray_id(), empty_attributes());
    handle.set_visible(false);
    handle.set_visible(true);
    tray.apply_all(handle.take_pending());
    assert_eq!(tray.status(), Status::Active);
}

#[test]
fn hiding_makes_the_tray_passive() {
    let (mut handle, mut tray) = TrayIcon::new(tray_id(), empty_attributes());
    handle.set_visible(false);
    tray.apply_all(handle.take_pending());
    assert_eq!(tray.status(), Status::Passive);
}

#[test]
fn mutators_issue_one_update_each() {
    let (mut handle, mut tray) = TrayIcon::new(tray_id(), empty_attributes());
    handle.set_icon(Some(icon()));
    handle.set_menu(Some(vec![SharedMenuItem::new(standard("a", "A"))]));
    handle.set_tooltip(Some("tip"));
    handle.set_title(Some("title"));
    handle.set_visible(false);
    let pending = handle.take_pending();
    assert_eq!(pending.len(), 5);
    assert!(matches!(pending[0], TrayUpdate::SetIcon(Some(_))));
    assert!(matches!(&pending[1], TrayUpdate::SetMenu(menu) if menu.len() == 1));
    assert!(matches!(&pending[2], TrayUpdate::SetTooltip(text) if text == "tip"));
    assert!(matches!(&pending[3], TrayUpdate::SetTitle(text) if text == "title"));
    assert!(matches!(pending[4], TrayUpdate::SetStatus(Status::Passive)));
    assert!(handle.take_pending().is_empty());
    tray.apply_all(pending);
    assert_eq!(tray.title(), "title");
    assert_eq!(tray.tool_tip().description, "tip");
    assert_eq!(tray.status(), Status::Passive);
    assert_eq!(tray.icon_pixmap().len(), 1);
    assert_eq!(tray.menu().len(), 1);
}

#[test]
fn absent_values_clear_the_fields() {
    let attrs = TrayIconAttributes {
        tooltip: Some("Tip".to_string()),
        menu: Some(vec![SharedMenuItem::new(standard("a", "A"))]),
        icon: Some(icon()),
        title: Some("Title".to_string()),
    };
    let (mut handle, mut tray) = TrayIcon::new(tray_id(), attrs);
    handle.set_icon(None);
    handle.set_menu(None);
    handle.set_tooltip(None);
    handle.set_title(None);
    tray.apply_all(handle.take_pending());
    assert!(tray.icon_pixmap().is_empty());
    assert!(tray.menu().is_empty());
    assert_eq!(tray.title(), "");
    assert_eq!(tray.tool_tip().description, "");
}

#[test]
fn mutators_after_shutdown_do_nothing() {
    let (mut handle, mut tray) = TrayIcon::new(tray_id(), empty_attributes());
    handle.set_title(Some("before"));
    handle.shut_down();
    assert!(handle.is_shut_down());
    handle.set_icon(Some(icon()));
    handle.set_menu(Some(vec![SharedMenuItem::new(MenuItem::Separator)]));
    handle.set_tooltip(Some("late"));
    handle.set_title(Some("late"));
    handle.set_visible(false);
    assert!(!handle.on_menu_update(true));
    let pending = handle.take_pending();
    assert_eq!(pending.len(), 1);
    tray.apply_all(pending);
    assert_eq!(tray.title(), "before");
    assert_eq!(tray.status(), Status::Active);
    assert!(tray.icon_pixmap().is_empty());
    assert!(handle.take_pending().is_empty());
    handle.shut_down();
    assert!(handle.is_shut_down());
}

#[test]
fn menu_update_signal_asks_for_a_new_render() {
    let (mut handle, _tray) = TrayIcon::new(tray_id(), empty_attributes());
    assert!(handle.on_menu_update(true));
    let pending = handle.take_pending();
    assert_eq!(pending.len(), 1);
    assert!(matches!(pending[0], TrayUpdate::Refresh));
    assert!(!handle.on_menu_update(false));
    assert!(handle.take_pending().is_empty());
}

#[test]
fn rect_is_not_known() {
    let (handle, _tray) = TrayIcon::new(tray_id(), empty_attributes());
    assert_eq!(handle.rect(), None);
}

#[test]
fn activating_the_quit_item_yields_its_menu_event_and_nothing_else() {
    let attrs = TrayIconAttributes {
        tooltip: None,
        menu: Some(vec![SharedMenuItem::new(standard("quit", "Quit"))]),
        icon: None,
        title: None,
    };
    let (_handle, tray) = TrayIcon::new(tray_id(), attrs);
    let menu = tray.menu();
    assert_eq!(menu.len(), 1);
    let mut dispatcher = EventDispatcher::new();
    assert_eq!(dispatcher.activate(&menu[0]), None);
    assert_eq!(dispatcher.next_menu_event(), Some(MenuEvent { id: MenuId("quit".to_string()) }));
    assert_eq!(dispatcher.next_menu_event(), None);
    assert_eq!(dispatcher.next_tray_event(), None);
}

#[test]
fn clicks_wait_in_their_own_queue_in_order() {
    let tray = Tray::new(tray_id(), None, String::new(), String::new(), Vec::new());
    let mut dispatcher = EventDispatcher::new();
    dispatcher.publish(tray.activate(1, 2));
    dispatcher.publish(tray.secondary_activate(3, 4));
    assert_eq!(dispatcher.next_menu_event(), None);
    assert_eq!(dispatcher.next_tray_event(), Some(tray.activate(1, 2)));
    assert_eq!(dispatcher.next_tray_event(), Some(tray.secondary_activate(3, 4)));
    assert_eq!(dispatcher.next_tray_event(), None);
}

#[test]
fn handle_is_kept_when_the_service_runs() {
    let (mut handle, _tray) = TrayIcon::new(tray_id(), empty_attributes());
    handle.set_title(Some("kept"));
    let mut handle = handle.on_service_start(true).ok().unwrap();
    assert!(!handle.is_shut_down());
    assert_eq!(handle.take_pending().len(), 1);
}

#[test]
fn construction_fails_when_the_service_does_not_run() {
    let (handle, _tray) = TrayIcon::new(tray_id(), empty_attributes());
    assert!(matches!(handle.on_service_start(false), Err(Error::ConstructionFailed)));
}
