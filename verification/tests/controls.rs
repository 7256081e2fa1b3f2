//! List view items and the notification struct catalogue.

use winsafe::co;
use winsafe::handle::HWND;
use winsafe::structs::LITEM;
use winsafe::structs::NMDATETIMEFORMAT;
use winsafe::structs::NMLVEMPTYMARKUP;
use winsafe::structs::LVCOLUMN;
use winsafe::structs::LVFINDINFO;
use winsafe::structs::LVITEM;
use winsafe::structs::NMLVGETINFOTIP;
use winsafe::Host;
use winsafe::ListViewItem;

fn control(host: &mut Host) -> HWND {
    let raw = host.create_list_view().unwrap();
    HWND { raw }
}

#[test]
fn index_and_id_survive_deletion_differently() {
    let mut host = Host::new();
    let lv = control(&mut host);
    host.lv_insert_item(lv.raw, "one", 0).unwrap();
    host.lv_insert_item(lv.raw, "two", 0).unwrap();
    host.lv_insert_item(lv.raw, "three", 0).unwrap();
    let second = ListViewItem::new(lv, 1);
    assert_eq!(second.index(), 1);
    assert_eq!(second.map_index_to_id(&host), 2);
    // deleting the first item shifts the indices: the same index now
    // answers with another identifier
    ListViewItem::new(lv, 0).delete(&mut host);
    assert_eq!(host.lv_item_count(lv.raw).unwrap(), 2);
    assert_eq!(ListViewItem::new(lv, 1).map_index_to_id(&host), 3);
    assert_eq!(ListViewItem::new(lv, 0).map_index_to_id(&host), 2);
}

#[test]
fn select_and_focus_toggle_their_own_state_bits() {
    let mut host = Host::new();
    let lv = control(&mut host);
    host.lv_insert_item(lv.raw, "a", 0).unwrap();
    let item = ListViewItem::new(lv, 0);
    assert!(!item.is_selected(&host));
    assert!(!item.is_focused(&host));
    item.select(&mut host, true);
    item.focus(&mut host);
    assert!(item.is_selected(&host));
    assert!(item.is_focused(&host));
    // removing the selection leaves the focus alone
    item.select(&mut host, false);
    assert!(!item.is_selected(&host));
    assert!(item.is_focused(&host));
}

#[test]
fn item_text_per_column_with_empty_gaps() {
    let mut host = Host::new();
    let lv = control(&mut host);
    host.lv_insert_item(lv.raw, "name", 7).unwrap();
    let item = ListViewItem::new(lv, 0);
    assert_eq!(item.text(&host, 0), "name");
    item.set_text(&mut host, 3, "far");
    assert_eq!(item.text(&host, 1), "");
    assert_eq!(item.text(&host, 2), "");
    assert_eq!(item.text(&host, 3), "far");
    item.set_text(&mut host, 0, "renamed");
    assert_eq!(item.text(&host, 0), "renamed");
    assert_eq!(item.data_lparam(&host), Some(7));
}

#[test]
fn icon_index_round_trips_through_the_none_sentinel() {
    let mut host = Host::new();
    let lv = control(&mut host);
    host.lv_insert_item(lv.raw, "a", 0).unwrap();
    let item = ListViewItem::new(lv, 0);
    assert_eq!(item.icon_index(&host), None);
    item.set_icon_index(&mut host, Some(5));
    assert_eq!(item.icon_index(&host), Some(5));
    item.set_icon_index(&mut host, None);
    assert_eq!(item.icon_index(&host), None);
}

#[test]
fn ensure_visible_scrolls_no_more_than_needed() {
    let mut host = Host::new();
    let lv = control(&mut host);
    let mut i = 0;
    while i < 20 {
        host.lv_insert_item(lv.raw, "row", 0).unwrap();
        i += 1;
    }
    // the page shows eight rows from the top
    assert!(ListViewItem::new(lv, 7).is_visible(&host));
    assert!(!ListViewItem::new(lv, 8).is_visible(&host));
    ListViewItem::new(lv, 12).ensure_visible(&mut host);
    assert!(ListViewItem::new(lv, 12).is_visible(&host));
    assert_eq!(host.lv_top_index(lv.raw).unwrap(), 5);
    ListViewItem::new(lv, 2).ensure_visible(&mut host);
    assert_eq!(host.lv_top_index(lv.raw).unwrap(), 2);
}

#[test]
fn item_rect_follows_the_scroll_position() {
    let mut host = Host::new();
    let lv = control(&mut host);
    let mut i = 0;
    while i < 12 {
        host.lv_insert_item(lv.raw, "row", 0).unwrap();
        i += 1;
    }
    let rc = ListViewItem::new(lv, 3).rect(&host, co::LVIR(0));
    assert_eq!((rc.left, rc.top, rc.right, rc.bottom), (0, 48, 320, 64));
    ListViewItem::new(lv, 11).ensure_visible(&mut host);
    let rc2 = ListViewItem::new(lv, 3).rect(&host, co::LVIR(0));
    assert_eq!(rc2.top, -16);
}

#[test]
fn destroying_the_control_counts_one_release() {
    let mut host = Host::new();
    let lv = control(&mut host);
    host.lv_insert_item(lv.raw, "a", 0).unwrap();
    host.destroy_window(lv.raw).unwrap();
    assert_eq!(host.release_count(), 1);
    assert_eq!(host.lv_item_count(lv.raw).err().unwrap(), co::ERROR(6));
}

#[test]
fn link_item_texts_are_clipped_to_their_buffers() {
    let mut li = LITEM::default();
    let long = "x".repeat(100);
    li.get_szID(&long);
    assert_eq!(li.szID().len(), 47);
    assert_eq!(li.szID(), "x".repeat(47));
    li.get_szID("short");
    assert_eq!(li.szID(), "short");
    let very_long = "u".repeat(3000);
    li.set_szUrl(&very_long);
    assert_eq!(li.szUrl().len(), 2083);
    li.set_szUrl("https://example.invalid/");
    assert_eq!(li.szUrl(), "https://example.invalid/");
    // one field never disturbs the other
    assert_eq!(li.szID(), "short");
}

#[test]
fn datetime_display_clips_and_format_does_not() {
    let mut nm = NMDATETIMEFORMAT::default();
    let long = "d".repeat(200);
    nm.set_pszDisplay(&long);
    assert_eq!(nm.pszDisplay().len(), 63);
    nm.set_pszFormat(&long);
    assert_eq!(nm.pszFormat().len(), 200);
}

#[test]
fn markup_clips_like_a_url_buffer() {
    let mut nm = NMLVEMPTYMARKUP::default();
    nm.get_szID(&"m".repeat(5000));
    assert_eq!(nm.szMarkup().len(), 2083);
    nm.get_szID("empty list");
    assert_eq!(nm.szMarkup(), "empty list");
}

#[test]
fn plain_text_setters_store_what_they_are_given() {
    let mut col = LVCOLUMN::default();
    col.set_pszText("Name");
    assert_eq!(col.pszText(), "Name");
    let mut item = LVITEM::default();
    item.set_pszText("Row");
    assert_eq!(item.pszText(), "Row");
    let mut fi = LVFINDINFO::default();
    fi.set_psz("needle");
    assert_eq!(fi.psz(), "needle");
    let mut tip = NMLVGETINFOTIP::default();
    tip.set_pszText("hint");
    assert_eq!(tip.pszText(), "hint");
}

#[test]
fn clipping_is_exact_at_the_boundary() {
    let mut li = LITEM::default();
    li.get_szID(&"b".repeat(47));
    assert_eq!(li.szID().len(), 47);
    li.get_szID(&"b".repeat(48));
    assert_eq!(li.szID().len(), 47);
}

#[test]
fn state_flag_wrappers_combine_and_test_bits() {
    let focused = co::LVIS::focused();
    let selected = co::LVIS::selected();
    let both = focused.or(selected);
    assert_eq!(both.0, 3);
    assert!(both.has(focused));
    assert!(both.has(selected));
    assert!(!focused.has(selected));
}
