//! Release discipline of the ownership guards, observed through the
//! platform's instrumented counters.

use winsafe::co::ERROR;
use winsafe::guard::map_view_of_file;
use winsafe::handle::Handle;
use winsafe::handle::HDC;
use winsafe::handle::HPEN;
use winsafe::handle::HWND;
use winsafe::Host;

#[test]
fn n_guards_drop_to_exactly_n_releases() {
    let mut host = Host::new();
    let mut g1 = HPEN::create_pen(&mut host).unwrap();
    let mut g2 = HPEN::create_pen(&mut host).unwrap();
    let mut g3 = HWND::create_window(&mut host).unwrap();
    assert_eq!(host.release_count(), 0);
    g1.release(&mut host).unwrap();
    g2.release(&mut host).unwrap();
    g3.release(&mut host).unwrap();
    assert_eq!(host.release_count(), 3);
    // nothing fires twice: releasing all three again is a no-op
    g1.release(&mut host).unwrap();
    g2.release(&mut host).unwrap();
    g3.release(&mut host).unwrap();
    assert_eq!(host.release_count(), 3);
}

#[test]
fn detach_emits_no_release() {
    let mut host = Host::new();
    let mut g = HPEN::create_pen(&mut host).unwrap();
    let raw = g.detach();
    assert!(!raw.is_null());
    // the detached guard's release path does nothing
    g.release(&mut host).unwrap();
    assert_eq!(host.release_count(), 0);
    // release the detached raw handle manually so the harness leaks nothing
    host.delete_object(raw.as_raw()).unwrap();
    assert_eq!(host.release_count(), 1);
}

#[test]
fn double_release_fires_once() {
    let mut host = Host::new();
    let mut g = HPEN::create_pen(&mut host).unwrap();
    g.release(&mut host).unwrap();
    assert_eq!(host.release_count(), 1);
    g.release(&mut host).unwrap();
    assert_eq!(host.release_count(), 1);
}

#[test]
fn failed_acquisition_creates_no_guard_and_no_release() {
    let mut host = Host::new();
    host.refuse_next_acquisition();
    let r = HPEN::create_pen(&mut host);
    assert_eq!(r.err().unwrap(), ERROR(8));
    assert_eq!(host.release_count(), 0);
    // the refusal is spent: the next acquisition succeeds again
    let mut g = HPEN::create_pen(&mut host).unwrap();
    g.release(&mut host).unwrap();
    assert_eq!(host.release_count(), 1);
}

#[test]
fn window_dc_released_against_its_window() {
    let mut host = Host::new();
    let wnd = HWND::create_window(&mut host).unwrap();
    let mut dc = wnd.hwnd().get_dc(&mut host).unwrap();
    assert_eq!(dc.hwnd().as_raw(), wnd.hwnd().as_raw());
    dc.release(&mut host).unwrap();
    assert_eq!(host.release_count(), 1);
    dc.release(&mut host).unwrap();
    assert_eq!(host.release_count(), 1);
}

#[test]
fn screen_dc_uses_the_deletion_call() {
    let mut host = Host::new();
    let mut dc = HDC::create_dc(&mut host).unwrap();
    // a screen device context cannot be released against a window
    assert_eq!(
        host.release_dc(1, dc.hdc().as_raw()).err().unwrap(),
        ERROR(6)
    );
    dc.release(&mut host).unwrap();
    assert_eq!(host.release_count(), 1);
}

#[test]
fn select_object_restores_previous_on_release() {
    let mut host = Host::new();
    let pen_a = HPEN::create_pen(&mut host).unwrap();
    let pen_b = HPEN::create_pen(&mut host).unwrap();
    let dc = HDC::create_dc(&mut host).unwrap();
    let hdc = dc.hdc();
    let mut sel_a = hdc.select_object(&mut host, pen_a.handle()).unwrap();
    assert_eq!(
        host.get_current_object(hdc.as_raw()).unwrap(),
        pen_a.handle().as_raw()
    );
    {
        let mut sel_b = hdc.select_object(&mut host, pen_b.handle()).unwrap();
        assert_eq!(sel_b.prev(), pen_a.handle().as_raw());
        assert_eq!(
            host.get_current_object(hdc.as_raw()).unwrap(),
            pen_b.handle().as_raw()
        );
        // releasing the selection guard restores A into the DC
        sel_b.release(&mut host).unwrap();
    }
    assert_eq!(
        host.get_current_object(hdc.as_raw()).unwrap(),
        pen_a.handle().as_raw()
    );
    // restoring is not a destruction
    assert_eq!(host.release_count(), 0);
    sel_a.release(&mut host).unwrap();
    assert_eq!(host.get_current_object(hdc.as_raw()).unwrap(), 0);
}

#[test]
fn select_object_detach_keeps_selection() {
    let mut host = Host::new();
    let pen = HPEN::create_pen(&mut host).unwrap();
    let dc = HDC::create_dc(&mut host).unwrap();
    let hdc = dc.hdc();
    let mut sel = hdc.select_object(&mut host, pen.handle()).unwrap();
    let _prev = sel.detach();
    sel.release(&mut host).unwrap();
    // the selection was forfeited, not restored
    assert_eq!(
        host.get_current_object(hdc.as_raw()).unwrap(),
        pen.handle().as_raw()
    );
}

#[test]
fn map_view_guard_unmaps_once() {
    let mut host = Host::new();
    let mut view = map_view_of_file(&mut host).unwrap();
    view.release(&mut host).unwrap();
    view.release(&mut host).unwrap();
    assert_eq!(host.release_count(), 1);
}

#[test]
fn heap_block_freed_against_its_allocator() {
    let mut host = Host::new();
    let heap_raw = host.heap_create().unwrap();
    let heap = winsafe::handle::HHEAP { raw: heap_raw };
    let other_raw = host.heap_create().unwrap();
    let mut block = heap.alloc_block(&mut host).unwrap();
    assert_eq!(block.heap().as_raw(), heap_raw);
    // freeing against the wrong allocator is refused
    assert_eq!(
        host.heap_free(other_raw, block.block().as_raw()).err().unwrap(),
        ERROR(6)
    );
    block.release(&mut host).unwrap();
    block.release(&mut host).unwrap();
    assert_eq!(host.release_count(), 1);
    host.heap_destroy(heap_raw).unwrap();
    host.heap_destroy(other_raw).unwrap();
    assert_eq!(host.release_count(), 3);
}

#[test]
fn stale_handle_value_never_reaches_a_new_resource() {
    let mut host = Host::new();
    let mut g = HPEN::create_pen(&mut host).unwrap();
    let stale = g.handle().as_raw();
    g.release(&mut host).unwrap();
    // a fresh resource gets a fresh handle value; the stale value stays dead
    let g2 = HPEN::create_pen(&mut host).unwrap();
    assert_ne!(g2.handle().as_raw(), stale);
    assert_eq!(host.delete_object(stale).err().unwrap(), ERROR(6));
    assert_eq!(host.release_count(), 1);
}
