//! Menu items that the menu's builder and the tray both hold. The builder
//! replaces an item's value in place; the tray reads whatever value the item
//! holds when it renders.

use crate::menu::{translate, translated, MenuItem, NativeMenuItem, NativeView};
use arc_swap::ArcSwap;
use std::sync::Arc;
use vstd::prelude::*;

verus! {

/// A top-level menu item in a cell that several holders share. The cell
/// always holds one whole item, with everything below it; a reader gets
/// either the value before a replacement or the value after it, never a
/// mixture.
///
/// The cell is an `arc_swap::ArcSwap` behind an `Arc`. Verus does not look
/// inside it: to the proofs an item of this type is the cell, not what the
/// cell holds at one time or another.
#[verifier::external_body]
#[derive(Debug)]
pub struct SharedMenuItem {
    cell: Arc<ArcSwap<MenuItem>>,
}

/// The cell holds `item` at some moment of its life: it was made with it,
/// or a holder has put it in. This is a fact of the cell for good. It does
/// not tell which value the cell holds now: of one cell it is true of every
/// value that the cell ever holds.
pub uninterp spec fn has_held(shared: SharedMenuItem, item: MenuItem) -> bool;

/// `ArcSwap::from_pointee`, inside a fresh `Arc`: a new cell that holds
/// `item` from the start. Nothing is claimed here of what the cell holds
/// later.
#[verifier::external_body]
fn new_cell(item: MenuItem) -> (shared: SharedMenuItem)
    ensures
        has_held(shared, item),
{
    SharedMenuItem { cell: Arc::new(ArcSwap::from_pointee(item)) }
}

/// `ArcSwapAny::load_full`: the value that the cell holds at the moment of
/// the call. Another holder may replace the value at any time, so what comes
/// back is one of the values that the cell holds in its life, and no more is
/// claimed: two calls on one cell may give different values.
#[verifier::external_body]
fn load_snapshot(shared: &SharedMenuItem) -> (snapshot: Arc<MenuItem>)
    ensures
        has_held(*shared, *snapshot),
{
    shared.cell.load_full()
}

/// `ArcSwapAny::store`: replaces the value in the cell. The cell itself,
/// which is all that Verus knows of the item, stays the same.
#[verifier::external_body]
fn store_snapshot(shared: &SharedMenuItem, item: MenuItem) {
    shared.cell.store(Arc::new(item))
}

/// `Arc::clone` on the cell: another holder of the same cell.
#[verifier::external_body]
fn same_cell(shared: &SharedMenuItem) -> (other: SharedMenuItem)
    ensures
        other == *shared,
{
    SharedMenuItem { cell: Arc::clone(&shared.cell) }
}

/// `native` shows the cell `shared`: it is the translation, as a top-level
/// node, of a value that the cell holds at some moment of its life.
pub open spec fn renders(shared: SharedMenuItem, native: NativeView) -> bool {
    exists|snapshot: MenuItem|
        has_held(shared, snapshot) && native == #[trigger] translated(snapshot, true)
}

impl SharedMenuItem {
    /// Puts `item` into a new cell: the cell holds `item` from the start,
    /// and its holders read `item` until one of them replaces it.
    pub fn new(item: MenuItem) -> (shared: SharedMenuItem)
        ensures
            has_held(shared, item),
    {
        new_cell(item)
    }

    /// Another holder of the same cell: what one of them puts in, the other
    /// reads.
    pub fn share(&self) -> (other: SharedMenuItem)
        ensures
            other == *self,
    {
        same_cell(self)
    }

    /// Replaces the item in place. Every holder of the cell reads the new
    /// value from now on.
    pub fn replace(&self, item: MenuItem) {
        store_snapshot(self, item)
    }
}

/// Translates a top-level item of a menu into the node that the tray
/// protocol shows for it, from the value that the item holds at the moment
/// of the call: the node is the translation of a value of this very item.
pub fn muda_to_ksni_menu_item(item: &SharedMenuItem) -> (native: NativeMenuItem)
    ensures
        renders(*item, native@),
{
    let snapshot = load_snapshot(item);
    translate(&snapshot, true)
}

} // verus!
