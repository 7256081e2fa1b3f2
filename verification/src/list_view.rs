//! A single item of a list view control.
//!
//! A [`ListViewItem`] is a borrowed reference, not an owner: it holds the
//! control's window handle and a zero-based index, never releases anything,
//! and is only meaningful while the control is alive.  If items are added
//! or removed, an existing `ListViewItem` may point to a different item;
//! [`ListViewItem::map_index_to_id`] gives the stable identifier.

use vstd::prelude::*;

use crate::co;
use crate::handle::Handle;
use crate::handle::HWND;
use crate::structs::RECT;
use crate::sys::Host;
use crate::sys::HostView;
use crate::sys::LvItemV;

verus! {

/// Height of one list view item row, in pixels.
pub const LV_ITEM_HEIGHT: i64 = 16;

/// Width of a list view row, in pixels.
pub const LV_ITEM_WIDTH: i64 = 320;

/// A single item of a list view control, held by index.
#[derive(Clone, Copy)]
pub struct ListViewItem {
    owner: HWND,
    index: u32,
}

impl ListViewItem {
    /// The control's window handle value, in specifications.
    pub closed spec fn owner_id(self) -> u64 {
        self.owner.id()
    }

    /// The item's zero-based index, in specifications.
    pub closed spec fn index_spec(self) -> u32 {
        self.index
    }

    /// What must hold against the platform for the operations that touch
    /// the item: the control is alive and the index points at an item.
    pub open spec fn valid(self, host: HostView) -> bool {
        &&& host.live_lv(self.owner_id())
        &&& self.index_spec() < host.lv_items(self.owner_id()).len()
    }

    /// The item this reference points at.
    pub open spec fn item(self, host: HostView) -> LvItemV {
        host.lv_items(self.owner_id())[self.index_spec() as int]
    }

    /// Refers to the item at the zero-based `index` of the control behind
    /// `owner`.
    pub fn new(owner: HWND, index: u32) -> (it: Self)
        ensures
            it.owner_id() == owner.id(),
            it.index_spec() == index,
    {
        ListViewItem { owner, index }
    }

    /// Returns the zero-based index of the item.
    pub fn index(&self) -> (i: u32)
        ensures
            i == self.index_spec(),
    {
        self.index
    }

    /// Returns the application datum stored with the item, or `None` when
    /// none was stored.
    pub fn data_lparam(&self, host: &Host) -> (r: Option<u64>)
        requires
            host@.inv(),
            self.valid(host@),
        ensures
            r == (if self.item(host@).lparam != 0 {
                Some(self.item(host@).lparam)
            } else {
                None::<u64>
            }),
    {
        match host.lv_get_item_lparam(self.owner.as_raw(), self.index) {
            Ok(0) => None,
            Ok(lp) => Some(lp),
            Err(_) => None,
        }
    }

    /// Deletes the item; later items shift down by one.
    pub fn delete(&self, host: &mut Host)
        requires
            old(host)@.inv(),
            self.valid(old(host)@),
        ensures
            final(host)@.inv(),
            final(host)@ == old(host)@.with_lv(
                self.owner_id(),
                old(host)@.lv_items(self.owner_id()).remove(self.index_spec() as int),
                old(host)@.lv_next_id(self.owner_id()),
                old(host)@.lv_top(self.owner_id()),
            ),
    {
        let _ = host.lv_delete_item(self.owner.as_raw(), self.index);
    }

    /// Scrolls the list so that the item is visible.
    pub fn ensure_visible(&self, host: &mut Host)
        requires
            old(host)@.inv(),
            self.valid(old(host)@),
        ensures
            final(host)@.inv(),
            final(host)@ == old(host)@.with_lv(
                self.owner_id(),
                old(host)@.lv_items(self.owner_id()),
                old(host)@.lv_next_id(self.owner_id()),
                old(host)@.lv_scrolled_top(self.owner_id(), self.index_spec()) as u32,
            ),
            final(host)@.lv_visible(self.owner_id(), self.index_spec()),
    {
        let _ = host.lv_ensure_visible(self.owner.as_raw(), self.index);
    }

    /// Sets the item as the focused one.
    pub fn focus(&self, host: &mut Host)
        requires
            old(host)@.inv(),
            self.valid(old(host)@),
        ensures
            final(host)@.inv(),
            final(host)@ == old(host)@.with_lv(
                self.owner_id(),
                old(host)@.lv_items(self.owner_id()).update(
                    self.index_spec() as int,
                    (LvItemV { state: self.item(old(host)@).state | 1u32, ..self.item(old(host)@) }),
                ),
                old(host)@.lv_next_id(self.owner_id()),
                old(host)@.lv_top(self.owner_id()),
            ),
    {
        let _ = host.lv_set_item_state(self.owner.as_raw(), self.index, 1, 1);
        proof {
            let st = self.item(old(host)@).state;
            assert((st & !1u32) | (1u32 & 1u32) == st | 1u32) by (bit_vector);
        }
    }

    /// Tells if the item is the focused one.
    pub fn is_focused(&self, host: &Host) -> (b: bool)
        requires
            host@.inv(),
            self.valid(host@),
        ensures
            b == ((self.item(host@).state & 1u32) == 1u32),
    {
        match host.lv_get_item_state(self.owner.as_raw(), self.index, 1) {
            Ok(s) => s == 1,
            Err(_) => false,
        }
    }

    /// Sets or removes the selection from the item.
    pub fn select(&self, host: &mut Host, set: bool)
        requires
            old(host)@.inv(),
            self.valid(old(host)@),
        ensures
            final(host)@.inv(),
            final(host)@ == old(host)@.with_lv(
                self.owner_id(),
                old(host)@.lv_items(self.owner_id()).update(
                    self.index_spec() as int,
                    (LvItemV {
                        state: if set {
                            self.item(old(host)@).state | 2u32
                        } else {
                            self.item(old(host)@).state & !2u32
                        },
                        ..self.item(old(host)@)
                    }),
                ),
                old(host)@.lv_next_id(self.owner_id()),
                old(host)@.lv_top(self.owner_id()),
            ),
    {
        let state: u32 = if set {
            2
        } else {
            0
        };
        let _ = host.lv_set_item_state(self.owner.as_raw(), self.index, state, 2);
        proof {
            let st = self.item(old(host)@).state;
            assert((st & !2u32) | (2u32 & 2u32) == st | 2u32) by (bit_vector);
            assert((st & !2u32) | (0u32 & 2u32) == st & !2u32) by (bit_vector);
        }
    }

    /// Tells if the item is selected.
    pub fn is_selected(&self, host: &Host) -> (b: bool)
        requires
            host@.inv(),
            self.valid(host@),
        ensures
            b == ((self.item(host@).state & 2u32) == 2u32),
    {
        match host.lv_get_item_state(self.owner.as_raw(), self.index, 2) {
            Ok(s) => s == 2,
            Err(_) => false,
        }
    }

    /// Tells if the item is currently visible.
    pub fn is_visible(&self, host: &Host) -> (b: bool)
        requires
            host@.inv(),
            self.valid(host@),
        ensures
            b == host@.lv_visible(self.owner_id(), self.index_spec()),
    {
        match host.lv_is_item_visible(self.owner.as_raw(), self.index) {
            Ok(b) => b,
            Err(_) => false,
        }
    }

    /// Retrieves the icon index of the item, or `None` when it has none.
    pub fn icon_index(&self, host: &Host) -> (r: Option<u32>)
        requires
            host@.inv(),
            self.valid(host@),
        ensures
            self.item(host@).icon < 0 ==> r is None,
            self.item(host@).icon >= 0 ==> r == Some(self.item(host@).icon as u32),
    {
        match host.lv_get_item_icon(self.owner.as_raw(), self.index) {
            Ok(idx) => {
                if idx < 0 {
                    None
                } else {
                    Some(idx as u32)
                }
            },
            Err(_) => None,
        }
    }

    /// Sets or removes the icon index of the item.
    pub fn set_icon_index(&self, host: &mut Host, icon_index: Option<u32>)
        requires
            old(host)@.inv(),
            self.valid(old(host)@),
            icon_index matches Some(idx) ==> idx <= 0x7FFF_FFFFu32,
        ensures
            final(host)@.inv(),
            final(host)@ == old(host)@.with_lv(
                self.owner_id(),
                old(host)@.lv_items(self.owner_id()).update(
                    self.index_spec() as int,
                    (LvItemV {
                        icon: (match icon_index {
                            Some(idx) => idx as i32,
                            None => -1i32,
                        }),
                        ..self.item(old(host)@)
                    }),
                ),
                old(host)@.lv_next_id(self.owner_id()),
                old(host)@.lv_top(self.owner_id()),
            ),
    {
        let icon: i32 = match icon_index {
            Some(idx) => idx as i32,
            None => -1,
        };
        let _ = host.lv_set_item_icon(self.owner.as_raw(), self.index, icon);
    }

    /// Retrieves the unique identifier for the item index; it stays with
    /// the item when indices shift.
    pub fn map_index_to_id(&self, host: &Host) -> (id: u32)
        requires
            host@.inv(),
            self.valid(host@),
        ensures
            id == self.item(host@).id,
    {
        match host.lv_map_index_to_id(self.owner.as_raw(), self.index) {
            Ok(id) => id,
            Err(_) => 0,
        }
    }

    /// Retrieves the bound rectangle of the item, from its index and the
    /// control's first visible row.
    pub fn rect(&self, host: &Host, portion: co::LVIR) -> (rc: RECT)
        requires
            host@.inv(),
            self.valid(host@),
        ensures
            rc == (RECT {
                left: 0,
                top: ((self.index_spec() - host@.lv_top(self.owner_id()))
                    * LV_ITEM_HEIGHT) as i64,
                right: LV_ITEM_WIDTH,
                bottom: ((self.index_spec() - host@.lv_top(self.owner_id())) * LV_ITEM_HEIGHT
                    + LV_ITEM_HEIGHT) as i64,
            }),
    {
        let _ = portion;
        let top_index = match host.lv_top_index(self.owner.as_raw()) {
            Ok(t) => t,
            Err(_) => 0,
        };
        let row: i64 = self.index as i64 - top_index as i64;
        let y: i64 = row * LV_ITEM_HEIGHT;
        RECT { left: 0, top: y, right: LV_ITEM_WIDTH, bottom: y + LV_ITEM_HEIGHT }
    }

    /// Sets the text of the item under a column.
    pub fn set_text(&self, host: &mut Host, column_index: u32, text: &str)
        requires
            old(host)@.inv(),
            self.valid(old(host)@),
        ensures
            final(host)@.inv(),
            final(host)@ == old(host)@.with_lv(
                self.owner_id(),
                old(host)@.lv_items(self.owner_id()).update(
                    self.index_spec() as int,
                    (LvItemV {
                        texts: HostView::lv_texts_set(
                            self.item(old(host)@).texts,
                            column_index,
                            text@,
                        ),
                        ..self.item(old(host)@)
                    }),
                ),
                old(host)@.lv_next_id(self.owner_id()),
                old(host)@.lv_top(self.owner_id()),
            ),
    {
        let _ = host.lv_set_item_text(self.owner.as_raw(), self.index, column_index, text);
    }

    /// Retrieves the text of the item under a column; a column never set
    /// reads as empty.
    pub fn text(&self, host: &Host, column_index: u32) -> (s: String)
        requires
            host@.inv(),
            self.valid(host@),
        ensures
            s@ == HostView::lv_text_of(self.item(host@), column_index),
    {
        match host.lv_get_item_text(self.owner.as_raw(), self.index, column_index) {
            Ok(s) => s,
            Err(_) => String::new(),
        }
    }
}

} // verus!
