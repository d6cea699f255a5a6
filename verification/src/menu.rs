//! The platform-neutral menu tree and its translation into the menu that
//! the tray protocol shows.

use crate::event::MenuId;
use vstd::prelude::*;
use vstd::string::*;

verus! {

/// In a label, this character in front of another marks that one as the
/// item's mnemonic; doubled, it stands for itself.
pub const MNEMONIC_MARKER: char = '&';

/// What an "About" dialog shows.
#[derive(Debug, PartialEq, Eq)]
pub struct AboutMetadata {
    pub name: Option<String>,
    pub version: Option<String>,
    pub short_version: Option<String>,
    pub comments: Option<String>,
    pub copyright: Option<String>,
    pub license: Option<String>,
    pub website: Option<String>,
    pub website_label: Option<String>,
    pub credits: Option<String>,
}

/// The behaviours that are built into the menu system rather than left to
/// the application.
#[derive(Debug, Clone, PartialEq, Eq)]
pub enum PredefinedMenuItemKind {
    Separator,
    Copy,
    Cut,
    Paste,
    SelectAll,
    Undo,
    Redo,
    Minimize,
    Maximize,
    Fullscreen,
    Hide,
    HideOthers,
    ShowAll,
    CloseWindow,
    Quit,
    About(Option<AboutMetadata>),
    Services,
    BringAllToFront,
}

/// One node of a menu tree.
#[derive(Debug, PartialEq, Eq)]
pub enum MenuItem {
    /// An item that does something when activated.
    Standard {
        id: MenuId,
        label: String,
        enabled: bool,
        icon: Option<Vec<u8>>,
        predefined_kind: Option<PredefinedMenuItemKind>,
    },
    /// An item that shows a check mark.
    Checkmark { id: MenuId, label: String, enabled: bool, checked: bool },
    /// An item that opens a menu of its own.
    SubMenu { label: String, enabled: bool, children: Vec<MenuItem> },
    /// A line between groups of items.
    Separator,
}

/// What activating an item of the translated menu does.
#[derive(Debug, Clone, PartialEq, Eq)]
pub enum Activation {
    /// Tell the application that the item with this identity was activated.
    SendMenuEvent { id: MenuId },
    /// Show the "About" dialog; the application is not told.
    ShowAbout { metadata: AboutMetadata },
}

/// One node of the menu as the tray protocol shows it.
#[derive(Debug, PartialEq, Eq)]
pub enum NativeMenuItem {
    Standard { label: String, enabled: bool, icon_data: Vec<u8>, activate: Activation },
    Checkmark { label: String, enabled: bool, checked: bool, activate: Activation },
    SubMenu { label: String, enabled: bool, submenu: Vec<NativeMenuItem> },
    Separator,
}

/// A node of the translated menu as a mathematical value.
pub enum NativeView {
    Standard { label: Seq<char>, enabled: bool, icon_data: Seq<u8>, activate: Activation },
    Checkmark { label: Seq<char>, enabled: bool, checked: bool, activate: Activation },
    SubMenu { label: Seq<char>, enabled: bool, submenu: Seq<NativeView> },
    Separator,
}

impl View for NativeMenuItem {
    type V = NativeView;

    open spec fn view(&self) -> NativeView
        decreases self,
    {
        match self {
            NativeMenuItem::Standard { label, enabled, icon_data, activate } => {
                NativeView::Standard {
                    label: label@,
                    enabled: *enabled,
                    icon_data: icon_data@,
                    activate: *activate,
                }
            },
            NativeMenuItem::Checkmark { label, enabled, checked, activate } => {
                NativeView::Checkmark {
                    label: label@,
                    enabled: *enabled,
                    checked: *checked,
                    activate: *activate,
                }
            },
            NativeMenuItem::SubMenu { label, enabled, submenu } => NativeView::SubMenu {
                label: label@,
                enabled: *enabled,
                submenu: Seq::new(
                    submenu@.len(),
                    |i: int|
                        if 0 <= i < submenu@.len() {
                            submenu@[i]@
                        } else {
                            NativeView::Separator
                        },
                ),
            },
            NativeMenuItem::Separator => NativeView::Separator,
        }
    }
}

/// The text of a label as it is shown: a doubled marker is one literal
/// marker character, and every other marker is left out.
pub open spec fn strip_mnemonic(label: Seq<char>) -> Seq<char>
    decreases label.len(),
{
    if label.len() == 0 {
        label
    } else if label[0] != MNEMONIC_MARKER {
        seq![label[0]] + strip_mnemonic(label.subrange(1, label.len() as int))
    } else if label.len() >= 2 && label[1] == MNEMONIC_MARKER {
        seq![MNEMONIC_MARKER] + strip_mnemonic(label.subrange(2, label.len() as int))
    } else {
        strip_mnemonic(label.subrange(1, label.len() as int))
    }
}

/// The bytes of an item's icon; none stands for an empty picture.
pub open spec fn icon_bytes(icon: Option<Vec<u8>>) -> Seq<u8> {
    match icon {
        Some(bytes) => bytes@,
        None => Seq::empty(),
    }
}

/// What activating a standard item does: an "About" item that carries
/// metadata shows its dialog, every other item reports its identity.
pub open spec fn standard_activation(
    id: MenuId,
    predefined_kind: Option<PredefinedMenuItemKind>,
) -> Activation {
    match predefined_kind {
        Some(PredefinedMenuItemKind::About(Some(metadata))) => Activation::ShowAbout { metadata },
        _ => Activation::SendMenuEvent { id },
    }
}

/// The translation of one node. `inherited_enabled` tells whether every
/// submenu above the node is enabled; a node below a disabled submenu is
/// disabled whatever its own flag says.
pub open spec fn translated(item: MenuItem, inherited_enabled: bool) -> NativeView
    decreases item,
{
    match item {
        MenuItem::Standard { id, label, enabled, icon, predefined_kind } => NativeView::Standard {
            label: strip_mnemonic(label@),
            enabled: enabled && inherited_enabled,
            icon_data: icon_bytes(icon),
            activate: standard_activation(id, predefined_kind),
        },
        MenuItem::Checkmark { id, label, enabled, checked } => NativeView::Checkmark {
            label: strip_mnemonic(label@),
            enabled: enabled && inherited_enabled,
            checked,
            activate: Activation::SendMenuEvent { id },
        },
        MenuItem::SubMenu { label, enabled, children } => NativeView::SubMenu {
            label: strip_mnemonic(label@),
            enabled: enabled && inherited_enabled,
            submenu: Seq::new(
                children@.len(),
                |i: int|
                    if 0 <= i < children@.len() {
                        translated(children@[i], enabled && inherited_enabled)
                    } else {
                        NativeView::Separator
                    },
            ),
        },
        MenuItem::Separator => NativeView::Separator,
    }
}

/// The text of `label` as the menu shows it, without mnemonic markers.
pub fn display_label(label: &str) -> (shown: String)
    ensures
        shown@ == strip_mnemonic(label@),
{
    let length: usize = label.unicode_len();
    let mut shown = String::new();
    let mut i: usize = 0;
    assert(label@.subrange(0, length as int) == label@);
    while i < length
        invariant
            length == label@.len(),
            i <= length,
            shown@ + strip_mnemonic(label@.subrange(i as int, length as int)) == strip_mnemonic(
                label@,
            ),
        decreases length - i,
    {
        let ghost rest = label@.subrange(i as int, length as int);
        let current = label.get_char(i);
        if current != MNEMONIC_MARKER {
            assert(rest.subrange(1, rest.len() as int) == label@.subrange(
                i + 1,
                length as int,
            ));
            shown.append(label.substring_char(i, i + 1));
            i = i + 1;
        } else if i + 1 < length && label.get_char(i + 1) == MNEMONIC_MARKER {
            assert(rest.subrange(2, rest.len() as int) == label@.subrange(
                i + 2,
                length as int,
            ));
            shown.append(label.substring_char(i, i + 1));
            i = i + 2;
        } else {
            assert(rest.subrange(1, rest.len() as int) == label@.subrange(
                i + 1,
                length as int,
            ));
            i = i + 1;
        }
    }
    shown
}

fn copy_text(text: &Option<String>) -> (copy: Option<String>)
    ensures
        copy == *text,
{
    match text {
        Some(value) => Some(value.clone()),
        None => None,
    }
}

impl Clone for AboutMetadata {
    fn clone(&self) -> (copy: Self)
        ensures
            copy == *self,
    {
        AboutMetadata {
            name: copy_text(&self.name),
            version: copy_text(&self.version),
            short_version: copy_text(&self.short_version),
            comments: copy_text(&self.comments),
            copyright: copy_text(&self.copyright),
            license: copy_text(&self.license),
            website: copy_text(&self.website),
            website_label: copy_text(&self.website_label),
            credits: copy_text(&self.credits),
        }
    }
}

fn copy_icon(icon: &Option<Vec<u8>>) -> (bytes: Vec<u8>)
    ensures
        bytes@ == icon_bytes(*icon),
{
    match icon {
        Some(data) => {
            let bytes = data.clone();
            bytes
        },
        None => Vec::new(),
    }
}

fn activation_of(
    id: &MenuId,
    predefined_kind: &Option<PredefinedMenuItemKind>,
) -> (activate: Activation)
    ensures
        activate == standard_activation(*id, *predefined_kind),
{
    match predefined_kind {
        Some(PredefinedMenuItemKind::About(Some(metadata))) => Activation::ShowAbout {
            metadata: metadata.clone(),
        },
        _ => Activation::SendMenuEvent { id: id.clone() },
    }
}

/// Translates one node and everything below it.
///
/// `inherited_enabled` tells whether every submenu above the node is
/// enabled.
pub fn translate(item: &MenuItem, inherited_enabled: bool) -> (native: NativeMenuItem)
    ensures
        native@ == translated(*item, inherited_enabled),
    decreases item,
{
    match item {
        MenuItem::Standard { id, label, enabled, icon, predefined_kind } => {
            NativeMenuItem::Standard {
                label: display_label(label.as_str()),
                enabled: *enabled && inherited_enabled,
                icon_data: copy_icon(icon),
                activate: activation_of(id, predefined_kind),
            }
        },
        MenuItem::Checkmark { id, label, enabled, checked } => NativeMenuItem::Checkmark {
            label: display_label(label.as_str()),
            enabled: *enabled && inherited_enabled,
            checked: *checked,
            activate: Activation::SendMenuEvent { id: id.clone() },
        },
        MenuItem::SubMenu { label, enabled, children } => {
            let below: bool = *enabled && inherited_enabled;
            let mut submenu: Vec<NativeMenuItem> = Vec::new();
            let mut i: usize = 0;
            while i < children.len()
                invariant
                    i <= children.len(),
                    *item matches MenuItem::SubMenu { children: own, .. } && own == *children,
                    submenu@.len() == i,
                    forall|k: int|
                        0 <= k < i ==> (#[trigger] submenu@[k])@ == translated(children@[k], below),
                decreases children.len() - i,
            {
                let child = translate(&children[i], below);
                submenu.push(child);
                i = i + 1;
            }
            let native = NativeMenuItem::SubMenu {
                label: display_label(label.as_str()),
                enabled: below,
                submenu,
            };
            assert(native@->SubMenu_submenu =~= translated(*item, inherited_enabled)->SubMenu_submenu);
            native
        },
        MenuItem::Separator => NativeMenuItem::Separator,
    }
}

/// `native` has the shape of `item`: the same kind of node, and for a
/// submenu the same number of children, each of the same shape as the child
/// at the same place.
pub open spec fn same_shape(item: MenuItem, native: NativeView) -> bool
    decreases item,
{
    match item {
        MenuItem::Standard { .. } => native is Standard,
        MenuItem::Checkmark { .. } => native is Checkmark,
        MenuItem::SubMenu { children, .. } => {
            &&& native is SubMenu
            &&& native->SubMenu_submenu.len() == children@.len()
            &&& forall|i: int|
                0 <= i < children@.len() ==> same_shape(
                    children@[i],
                    #[trigger] native->SubMenu_submenu[i],
                )
        },
        MenuItem::Separator => native is Separator,
    }
}

/// Every node that can be enabled is disabled, at every depth.
pub open spec fn all_disabled(native: NativeView) -> bool
    decreases native,
{
    match native {
        NativeView::Standard { enabled, .. } => !enabled,
        NativeView::Checkmark { enabled, .. } => !enabled,
        NativeView::SubMenu { enabled, submenu, .. } => {
            &&& !enabled
            &&& forall|i: int| 0 <= i < submenu.len() ==> all_disabled(#[trigger] submenu[i])
        },
        NativeView::Separator => true,
    }
}

/// Translation is total and keeps the tree: every node of the menu gives
/// one node of the same kind, and children keep their number and order.
pub proof fn lemma_translation_keeps_shape(item: MenuItem, inherited_enabled: bool)
    ensures
        same_shape(item, translated(item, inherited_enabled)),
    decreases item,
{
    match item {
        MenuItem::SubMenu { label, enabled, children } => {
            let native = translated(item, inherited_enabled);
            assert forall|i: int| 0 <= i < children@.len() implies same_shape(
                children@[i],
                #[trigger] native->SubMenu_submenu[i],
            ) by {
                lemma_translation_keeps_shape(children@[i], enabled && inherited_enabled);
            }
        },
        _ => {},
    }
}

/// Whatever lies below a disabled submenu is translated as disabled, at
/// every depth and whatever its own flag says.
pub proof fn lemma_disabled_above_disables_all(item: MenuItem)
    ensures
        all_disabled(translated(item, false)),
    decreases item,
{
    match item {
        MenuItem::SubMenu { label, enabled, children } => {
            let native = translated(item, false);
            assert forall|i: int| 0 <= i < native->SubMenu_submenu.len() implies all_disabled(
                #[trigger] native->SubMenu_submenu[i],
            ) by {
                lemma_disabled_above_disables_all(children@[i]);
            }
        },
        _ => {},
    }
}

/// A disabled submenu is translated with every one of its descendants
/// disabled.
pub proof fn lemma_disabled_submenu_disables_descendants(item: MenuItem, inherited_enabled: bool)
    requires
        item is SubMenu,
        !item->SubMenu_enabled,
    ensures
        all_disabled(translated(item, inherited_enabled)),
{
    let native = translated(item, inherited_enabled);
    let children = item->children;
    assert forall|i: int| 0 <= i < native->SubMenu_submenu.len() implies all_disabled(
        #[trigger] native->SubMenu_submenu[i],
    ) by {
        lemma_disabled_above_disables_all(children@[i]);
    }
}

} // verus!
