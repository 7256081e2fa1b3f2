//! Ownership guards: one owner, one release, per resource.
//!
//! A guard owns exactly one handle (plus any auxiliary context its release
//! call needs) and is move-only: moving it transfers ownership, and no guard
//! can be copied or cloned, except [`ComGuard`], whose explicit
//! [`ComGuard::clone_ref`] performs the native reference-count increment.
//!
//! Releasing is explicit and idempotent, because every release operation
//! goes against the platform, which the owner hands in: the first
//! `release` invokes the release operation of the variant exactly once and
//! nulls the stored handle; any further `release` is a no-op, never a
//! double release.  `detach` forfeits ownership without releasing, for
//! handing a resource to code that manages its own lifetime.  A guard over
//! the null handle performs no release action, and no guard is ever
//! constructed over a failed acquisition: every acquisition function
//! reports failure before a guard exists.

use vstd::prelude::*;

use crate::co::ERROR;
use crate::co::SysResult;
use crate::handle::GdiObject;
use crate::handle::Handle;
use crate::handle::KernelObject;
use crate::handle::COMPTR;
use crate::handle::HDC;
use crate::handle::HHEAP;
use crate::handle::HHEAPMEM;
use crate::handle::HMAPVIEW;
use crate::handle::HPEN;
use crate::handle::HWND;
use crate::sys::Host;
use crate::sys::HostView;
use crate::sys::SlotV;

verus! {

/// Owns a kernel object (an open file); release closes the handle.
pub struct CloseHandleGuard<H: KernelObject> {
    handle: H,
}

impl<H: KernelObject> CloseHandleGuard<H> {
    /// The owned handle value, in specifications.
    pub closed spec fn id(self) -> u64 {
        self.handle.id()
    }

    /// Whether ownership is gone: the resource was released or detached.
    pub open spec fn is_released(self) -> bool {
        self.id() == 0
    }

    /// What must hold against the platform: an owning guard refers to a
    /// live kernel object.
    pub open spec fn valid(self, host: HostView) -> bool {
        !self.is_released() ==> host.live_file(self.id())
    }

    /// Wraps a freshly acquired handle.  The caller asserts that the value
    /// came from a successful native acquisition it owns.
    pub(crate) fn acquire(handle: H) -> (g: Self)
        ensures
            g.id() == handle.id(),
    {
        CloseHandleGuard { handle }
    }

    /// Read-only projection of the owned handle; ownership is unaffected.
    pub fn handle(&self) -> (h: H)
        ensures
            h.id() == self.id(),
    {
        self.handle
    }

    /// Whether ownership is gone.
    pub fn is_null(&self) -> (b: bool)
        ensures
            b == self.is_released(),
    {
        self.handle.is_null()
    }

    /// Releases the owned resource: the platform observes exactly one
    /// release call, and the guard goes null, so a second call is a no-op,
    /// never a double release.
    pub fn release(&mut self, host: &mut Host) -> (r: SysResult<()>)
        requires
            old(host)@.inv(),
            old(self).valid(old(host)@),
        ensures
            final(host)@.inv(),
            final(self).is_released(),
            r == Ok::<(), ERROR>(()),
            old(self).is_released() ==> final(host)@ == old(host)@,
            !old(self).is_released() ==> final(host)@ == old(host)@.released_at(old(self).id()),
    {
        if self.handle.is_null() {
            return Ok(());
        }
        let raw = self.handle.as_raw();
        let r = host.close_handle(raw);
        self.handle = H::null();
        r
    }

    /// Forfeits ownership without releasing: returns the raw handle, nulls
    /// the guard, and touches no platform state.  The caller now owns the
    /// resource.
    pub fn detach(&mut self) -> (h: H)
        ensures
            h.id() == old(self).id(),
            final(self).is_released(),
    {
        let h = self.handle;
        self.handle = H::null();
        h
    }
}

/// Owns a GDI object (a pen, a brush); release deletes it.
pub struct DeleteObjectGuard<H: GdiObject> {
    handle: H,
}

impl<H: GdiObject> DeleteObjectGuard<H> {
    /// The owned handle value, in specifications.
    pub closed spec fn id(self) -> u64 {
        self.handle.id()
    }

    /// Whether ownership is gone: the resource was released or detached.
    pub open spec fn is_released(self) -> bool {
        self.id() == 0
    }

    /// What must hold against the platform: an owning guard refers to a
    /// live GDI object.
    pub open spec fn valid(self, host: HostView) -> bool {
        !self.is_released() ==> host.live_gdi(self.id())
    }

    /// Wraps a freshly acquired handle.  The caller asserts that the value
    /// came from a successful native acquisition it owns.
    pub(crate) fn acquire(handle: H) -> (g: Self)
        ensures
            g.id() == handle.id(),
    {
        DeleteObjectGuard { handle }
    }

    /// Read-only projection of the owned handle; ownership is unaffected.
    pub fn handle(&self) -> (h: H)
        ensures
            h.id() == self.id(),
    {
        self.handle
    }

    /// Whether ownership is gone.
    pub fn is_null(&self) -> (b: bool)
        ensures
            b == self.is_released(),
    {
        self.handle.is_null()
    }

    /// Releases the owned resource exactly once; a second call is a no-op.
    pub fn release(&mut self, host: &mut Host) -> (r: SysResult<()>)
        requires
            old(host)@.inv(),
            old(self).valid(old(host)@),
        ensures
            final(host)@.inv(),
            final(self).is_released(),
            r == Ok::<(), ERROR>(()),
            old(self).is_released() ==> final(host)@ == old(host)@,
            !old(self).is_released() ==> final(host)@ == old(host)@.released_at(old(self).id()),
    {
        if self.handle.is_null() {
            return Ok(());
        }
        let raw = self.handle.as_raw();
        let r = host.delete_object(raw);
        self.handle = H::null();
        r
    }

    /// Forfeits ownership without releasing.
    pub fn detach(&mut self) -> (h: H)
        ensures
            h.id() == old(self).id(),
            final(self).is_released(),
    {
        let h = self.handle;
        self.handle = H::null();
        h
    }
}

/// Owns a device context obtained from a window; release returns it against
/// that very window, the auxiliary context this variant carries.
pub struct ReleaseDCGuard {
    hwnd: HWND,
    hdc: HDC,
}

impl ReleaseDCGuard {
    /// The owned device context handle value, in specifications.
    pub closed spec fn id(self) -> u64 {
        self.hdc.id()
    }

    /// The window the device context must be released against.
    pub closed spec fn owner_id(self) -> u64 {
        self.hwnd.id()
    }

    /// Whether ownership is gone.
    pub open spec fn is_released(self) -> bool {
        self.id() == 0
    }

    /// What must hold against the platform: the device context is live and
    /// the stored window is the one it was obtained from.
    pub open spec fn valid(self, host: HostView) -> bool {
        !self.is_released() ==> host.live_dc(self.id()) && host.dc_owner(self.id())
            == self.owner_id() && self.owner_id() != 0
    }

    /// Wraps a freshly acquired device context with its originating window.
    pub(crate) fn acquire(hwnd: HWND, hdc: HDC) -> (g: Self)
        ensures
            g.id() == hdc.id(),
            g.owner_id() == hwnd.id(),
    {
        ReleaseDCGuard { hwnd, hdc }
    }

    /// Read-only projection of the owned device context.
    pub fn hdc(&self) -> (h: HDC)
        ensures
            h.id() == self.id(),
    {
        self.hdc
    }

    /// The window the device context was obtained from.
    pub fn hwnd(&self) -> (h: HWND)
        ensures
            h.id() == self.owner_id(),
    {
        self.hwnd
    }

    /// Whether ownership is gone.
    pub fn is_null(&self) -> (b: bool)
        ensures
            b == self.is_released(),
    {
        self.hdc.is_null()
    }

    /// Releases the device context against its originating window exactly
    /// once; a second call is a no-op.
    pub fn release(&mut self, host: &mut Host) -> (r: SysResult<()>)
        requires
            old(host)@.inv(),
            old(self).valid(old(host)@),
        ensures
            final(host)@.inv(),
            final(self).is_released(),
            r == Ok::<(), ERROR>(()),
            old(self).is_released() ==> final(host)@ == old(host)@,
            !old(self).is_released() ==> final(host)@ == old(host)@.released_at(old(self).id()),
    {
        if self.hdc.is_null() {
            return Ok(());
        }
        let r = host.release_dc(self.hwnd.as_raw(), self.hdc.as_raw());
        self.hdc = HDC::null();
        r
    }

    /// Forfeits ownership without releasing.
    pub fn detach(&mut self) -> (h: HDC)
        ensures
            h.id() == old(self).id(),
            final(self).is_released(),
    {
        let h = self.hdc;
        self.hdc = HDC::null();
        h
    }
}

/// Owns a device context obtained from the screen; release uses the
/// deletion call, not the window-bound one.
pub struct DeleteDCGuard {
    hdc: HDC,
}

impl DeleteDCGuard {
    /// The owned handle value, in specifications.
    pub closed spec fn id(self) -> u64 {
        self.hdc.id()
    }

    /// Whether ownership is gone.
    pub open spec fn is_released(self) -> bool {
        self.id() == 0
    }

    /// What must hold against the platform: a live device context owned by
    /// no window.
    pub open spec fn valid(self, host: HostView) -> bool {
        !self.is_released() ==> host.live_dc(self.id()) && host.dc_owner(self.id()) == 0
    }

    /// Wraps a freshly acquired screen device context.
    pub(crate) fn acquire(hdc: HDC) -> (g: Self)
        ensures
            g.id() == hdc.id(),
    {
        DeleteDCGuard { hdc }
    }

    /// Read-only projection of the owned device context.
    pub fn hdc(&self) -> (h: HDC)
        ensures
            h.id() == self.id(),
    {
        self.hdc
    }

    /// Whether ownership is gone.
    pub fn is_null(&self) -> (b: bool)
        ensures
            b == self.is_released(),
    {
        self.hdc.is_null()
    }

    /// Releases the device context exactly once; a second call is a no-op.
    pub fn release(&mut self, host: &mut Host) -> (r: SysResult<()>)
        requires
            old(host)@.inv(),
            old(self).valid(old(host)@),
        ensures
            final(host)@.inv(),
            final(self).is_released(),
            r == Ok::<(), ERROR>(()),
            old(self).is_released() ==> final(host)@ == old(host)@,
            !old(self).is_released() ==> final(host)@ == old(host)@.released_at(old(self).id()),
    {
        if self.hdc.is_null() {
            return Ok(());
        }
        let r = host.delete_dc(self.hdc.as_raw());
        self.hdc = HDC::null();
        r
    }

    /// Forfeits ownership without releasing.
    pub fn detach(&mut self) -> (h: HDC)
        ensures
            h.id() == old(self).id(),
            final(self).is_released(),
    {
        let h = self.hdc;
        self.hdc = HDC::null();
        h
    }
}

/// Owns a window; release destroys it.
pub struct DestroyWindowGuard {
    hwnd: HWND,
}

impl DestroyWindowGuard {
    /// The owned handle value, in specifications.
    pub closed spec fn id(self) -> u64 {
        self.hwnd.id()
    }

    /// Whether ownership is gone.
    pub open spec fn is_released(self) -> bool {
        self.id() == 0
    }

    /// What must hold against the platform: an owning guard refers to a
    /// live window.
    pub open spec fn valid(self, host: HostView) -> bool {
        !self.is_released() ==> host.live_window(self.id())
    }

    /// Wraps a freshly created window.
    pub(crate) fn acquire(hwnd: HWND) -> (g: Self)
        ensures
            g.id() == hwnd.id(),
    {
        DestroyWindowGuard { hwnd }
    }

    /// Read-only projection of the owned window handle.
    pub fn hwnd(&self) -> (h: HWND)
        ensures
            h.id() == self.id(),
    {
        self.hwnd
    }

    /// Whether ownership is gone.
    pub fn is_null(&self) -> (b: bool)
        ensures
            b == self.is_released(),
    {
        self.hwnd.is_null()
    }

    /// Destroys the window exactly once; a second call is a no-op.
    pub fn release(&mut self, host: &mut Host) -> (r: SysResult<()>)
        requires
            old(host)@.inv(),
            old(self).valid(old(host)@),
        ensures
            final(host)@.inv(),
            final(self).is_released(),
            r == Ok::<(), ERROR>(()),
            old(self).is_released() ==> final(host)@ == old(host)@,
            !old(self).is_released() ==> final(host)@ == old(host)@.released_at(old(self).id()),
    {
        if self.hwnd.is_null() {
            return Ok(());
        }
        let r = host.destroy_window(self.hwnd.as_raw());
        self.hwnd = HWND::null();
        r
    }

    /// Forfeits ownership without releasing.
    pub fn detach(&mut self) -> (h: HWND)
        ensures
            h.id() == old(self).id(),
            final(self).is_released(),
    {
        let h = self.hwnd;
        self.hwnd = HWND::null();
        h
    }
}

/// Owns a mapped view of a file mapping; release unmaps it.
pub struct UnmapViewOfFileGuard {
    view: HMAPVIEW,
}

impl UnmapViewOfFileGuard {
    /// The owned handle value, in specifications.
    pub closed spec fn id(self) -> u64 {
        self.view.id()
    }

    /// Whether ownership is gone.
    pub open spec fn is_released(self) -> bool {
        self.id() == 0
    }

    /// What must hold against the platform: an owning guard refers to a
    /// live mapped view.
    pub open spec fn valid(self, host: HostView) -> bool {
        !self.is_released() ==> host.live_map_view(self.id())
    }

    /// Wraps a freshly mapped view.
    pub(crate) fn acquire(view: HMAPVIEW) -> (g: Self)
        ensures
            g.id() == view.id(),
    {
        UnmapViewOfFileGuard { view }
    }

    /// Read-only projection of the owned view handle.
    pub fn view(&self) -> (h: HMAPVIEW)
        ensures
            h.id() == self.id(),
    {
        self.view
    }

    /// Whether ownership is gone.
    pub fn is_null(&self) -> (b: bool)
        ensures
            b == self.is_released(),
    {
        self.view.is_null()
    }

    /// Unmaps the view exactly once; a second call is a no-op.
    pub fn release(&mut self, host: &mut Host) -> (r: SysResult<()>)
        requires
            old(host)@.inv(),
            old(self).valid(old(host)@),
        ensures
            final(host)@.inv(),
            final(self).is_released(),
            r == Ok::<(), ERROR>(()),
            old(self).is_released() ==> final(host)@ == old(host)@,
            !old(self).is_released() ==> final(host)@ == old(host)@.released_at(old(self).id()),
    {
        if self.view.is_null() {
            return Ok(());
        }
        let r = host.unmap_view(self.view.as_raw());
        self.view = HMAPVIEW::null();
        r
    }

    /// Forfeits ownership without releasing.
    pub fn detach(&mut self) -> (h: HMAPVIEW)
        ensures
            h.id() == old(self).id(),
            final(self).is_released(),
    {
        let h = self.view;
        self.view = HMAPVIEW::null();
        h
    }
}

/// Owns a block from a native heap; release frees it against the allocator
/// handle, the auxiliary context this variant carries.
pub struct HeapFreeGuard {
    heap: HHEAP,
    block: HHEAPMEM,
}

impl HeapFreeGuard {
    /// The owned handle value, in specifications.
    pub closed spec fn id(self) -> u64 {
        self.block.id()
    }

    /// The allocator the block must be freed against.
    pub closed spec fn heap_id(self) -> u64 {
        self.heap.id()
    }

    /// Whether ownership is gone.
    pub open spec fn is_released(self) -> bool {
        self.id() == 0
    }

    /// What must hold against the platform: the block is live and belongs
    /// to the stored allocator.
    pub open spec fn valid(self, host: HostView) -> bool {
        !self.is_released() ==> host.live_heap_block(self.heap_id(), self.id())
    }

    /// Wraps a freshly allocated block with its allocator.
    pub(crate) fn acquire(heap: HHEAP, block: HHEAPMEM) -> (g: Self)
        ensures
            g.id() == block.id(),
            g.heap_id() == heap.id(),
    {
        HeapFreeGuard { heap, block }
    }

    /// Read-only projection of the owned block handle.
    pub fn block(&self) -> (h: HHEAPMEM)
        ensures
            h.id() == self.id(),
    {
        self.block
    }

    /// The allocator the block was allocated from.
    pub fn heap(&self) -> (h: HHEAP)
        ensures
            h.id() == self.heap_id(),
    {
        self.heap
    }

    /// Whether ownership is gone.
    pub fn is_null(&self) -> (b: bool)
        ensures
            b == self.is_released(),
    {
        self.block.is_null()
    }

    /// Frees the block against its allocator exactly once; a second call is
    /// a no-op.
    pub fn release(&mut self, host: &mut Host) -> (r: SysResult<()>)
        requires
            old(host)@.inv(),
            old(self).valid(old(host)@),
        ensures
            final(host)@.inv(),
            final(self).is_released(),
            r == Ok::<(), ERROR>(()),
            old(self).is_released() ==> final(host)@ == old(host)@,
            !old(self).is_released() ==> final(host)@ == old(host)@.released_at(old(self).id()),
    {
        if self.block.is_null() {
            return Ok(());
        }
        let r = host.heap_free(self.heap.as_raw(), self.block.as_raw());
        self.block = HHEAPMEM::null();
        r
    }

    /// Forfeits ownership without releasing.
    pub fn detach(&mut self) -> (h: HHEAPMEM)
        ensures
            h.id() == old(self).id(),
            final(self).is_released(),
    {
        let h = self.block;
        self.block = HHEAPMEM::null();
        h
    }
}

/// Owns one selection into a device context; release restores the object
/// that was selected before, the auxiliary state this variant carries.
/// Restoring is not a destruction: the device context stays alive and the
/// release counter does not move.
pub struct SelectObjectGuard {
    hdc: HDC,
    prev: u64,
}

impl SelectObjectGuard {
    /// The device context the selection lives in, in specifications.
    pub closed spec fn dc_id(self) -> u64 {
        self.hdc.id()
    }

    /// The object to restore on release.
    pub closed spec fn prev_id(self) -> u64 {
        self.prev
    }

    /// Whether the restore already happened or was forfeited.
    pub open spec fn is_released(self) -> bool {
        self.dc_id() == 0
    }

    /// What must hold against the platform: the device context is live and
    /// the object to restore is live or the stock sentinel.
    pub open spec fn valid(self, host: HostView) -> bool {
        !self.is_released() ==> host.live_dc(self.dc_id()) && (self.prev_id() == 0
            || host.live_gdi(self.prev_id()))
    }

    /// Wraps a completed selection: `prev` is what the device context held
    /// before.
    pub(crate) fn acquire(hdc: HDC, prev: u64) -> (g: Self)
        ensures
            g.dc_id() == hdc.id(),
            g.prev_id() == prev,
    {
        SelectObjectGuard { hdc, prev }
    }

    /// The device context the selection lives in.
    pub fn hdc(&self) -> (h: HDC)
        ensures
            h.id() == self.dc_id(),
    {
        self.hdc
    }

    /// The previously selected object, to be restored on release.
    pub fn prev(&self) -> (p: u64)
        ensures
            p == self.prev_id(),
    {
        self.prev
    }

    /// Whether the restore already happened or was forfeited.
    pub fn is_null(&self) -> (b: bool)
        ensures
            b == self.is_released(),
    {
        self.hdc.is_null()
    }

    /// Restores the previously selected object into the device context
    /// exactly once; a second call is a no-op.
    pub fn release(&mut self, host: &mut Host) -> (r: SysResult<()>)
        requires
            old(host)@.inv(),
            old(self).valid(old(host)@),
        ensures
            final(host)@.inv(),
            final(self).is_released(),
            r == Ok::<(), ERROR>(()),
            old(self).is_released() ==> final(host)@ == old(host)@,
            !old(self).is_released() ==> final(host)@ == old(host)@.updated(
                old(self).dc_id(),
                SlotV::Dc {
                    owner: old(host)@.dc_owner(old(self).dc_id()),
                    selected: old(self).prev_id(),
                },
            ) && final(host)@.dc_selected(old(self).dc_id()) == old(self).prev_id(),
    {
        if self.hdc.is_null() {
            return Ok(());
        }
        let r = host.select_object(self.hdc.as_raw(), self.prev);
        self.hdc = HDC::null();
        match r {
            Ok(_) => Ok(()),
            Err(e) => Err(e),
        }
    }

    /// Forfeits the restore without performing it: the currently selected
    /// object stays, and the device context is untouched.
    pub fn detach(&mut self) -> (p: u64)
        ensures
            p == old(self).prev_id(),
            final(self).is_released(),
    {
        let p = self.prev;
        self.hdc = HDC::null();
        p
    }
}

/// Owns one reference to a reference-counted COM object; release drops that
/// reference, and the object is destroyed when the last one goes.  This is
/// the only guard kind with shared ownership: every owner releases exactly
/// once, in total balance with the increments that created the owners.
pub struct ComGuard {
    ptr: COMPTR,
}

impl ComGuard {
    /// The owned interface pointer value, in specifications.
    pub closed spec fn id(self) -> u64 {
        self.ptr.id()
    }

    /// Whether this owner's reference is gone.
    pub open spec fn is_released(self) -> bool {
        self.id() == 0
    }

    /// What must hold against the platform: an owning guard refers to a
    /// live reference-counted object.
    pub open spec fn valid(self, host: HostView) -> bool {
        !self.is_released() ==> host.live_com(self.id())
    }

    /// Wraps a freshly obtained interface pointer whose reference the
    /// caller owns.
    pub(crate) fn acquire(ptr: COMPTR) -> (g: Self)
        ensures
            g.id() == ptr.id(),
    {
        ComGuard { ptr }
    }

    /// Creates a reference-counted object with one outstanding reference
    /// and hands its owning guard back; on failure no guard exists.
    pub fn create(host: &mut Host) -> (r: SysResult<ComGuard>)
        requires
            old(host)@.inv(),
        ensures
            final(host)@.inv(),
            old(host)@.refuses() ==> r == Err::<ComGuard, ERROR>(ERROR(8)) && final(host)@ == old(host)@.denied(),
            !old(host)@.refuses() ==> (r matches Ok(g) && g.id() == old(host)@.fresh() && g.id()
                != 0 && final(host)@ == old(host)@.allocated(SlotV::Com { refs: 1 })
                && g.valid(final(host)@)),
    {
        match host.com_create() {
            Ok(h) => Ok(ComGuard::acquire(COMPTR::from_raw(h))),
            Err(e) => Err(e),
        }
    }

    /// Read-only projection of the owned interface pointer.
    pub fn ptr(&self) -> (p: COMPTR)
        ensures
            p.id() == self.id(),
    {
        self.ptr
    }

    /// Whether this owner's reference is gone.
    pub fn is_null(&self) -> (b: bool)
        ensures
            b == self.is_released(),
    {
        self.ptr.is_null()
    }

    /// Takes one more reference on the object and hands back a second
    /// owning guard over the same pointer.  Fails, creating no owner, when
    /// the native count is saturated.
    pub fn clone_ref(&self, host: &mut Host) -> (r: SysResult<ComGuard>)
        requires
            old(host)@.inv(),
            self.valid(old(host)@),
            !self.is_released(),
        ensures
            final(host)@.inv(),
            old(host)@.com_refs(self.id()) < u32::MAX ==> (r matches Ok(g) && g.id() == self.id()
                && final(host)@ == old(host)@.updated(
                self.id(),
                SlotV::Com { refs: (old(host)@.com_refs(self.id()) + 1) as u32 },
            )),
            old(host)@.com_refs(self.id()) == u32::MAX ==> r == Err::<ComGuard, ERROR>(ERROR(8))
                && final(host)@ == old(host)@,
    {
        match host.com_add_ref(self.ptr.as_raw()) {
            Ok(_) => Ok(ComGuard { ptr: self.ptr }),
            Err(e) => Err(e),
        }
    }

    /// Drops this owner's reference exactly once; a second call is a no-op.
    /// The object is destroyed exactly when the dropped reference was the
    /// last one.
    pub fn release(&mut self, host: &mut Host) -> (r: SysResult<()>)
        requires
            old(host)@.inv(),
            old(self).valid(old(host)@),
        ensures
            final(host)@.inv(),
            final(self).is_released(),
            r == Ok::<(), ERROR>(()),
            old(self).is_released() ==> final(host)@ == old(host)@,
            !old(self).is_released() ==> final(host)@ == old(host)@.com_released_at(
                old(self).id(),
            ),
    {
        if self.ptr.is_null() {
            return Ok(());
        }
        let r = host.com_release(self.ptr.as_raw());
        self.ptr = COMPTR::null();
        match r {
            Ok(_) => Ok(()),
            Err(e) => Err(e),
        }
    }

    /// Forfeits this owner's reference without dropping it: the native
    /// count keeps it, and the caller is responsible for the balance.
    pub fn detach(&mut self) -> (p: COMPTR)
        ensures
            p.id() == old(self).id(),
            final(self).is_released(),
    {
        let p = self.ptr;
        self.ptr = COMPTR::null();
        p
    }
}

impl HPEN {
    /// Creates a pen and hands its owning guard back; on failure no guard
    /// exists.
    pub fn create_pen(host: &mut Host) -> (r: SysResult<DeleteObjectGuard<HPEN>>)
        requires
            old(host)@.inv(),
        ensures
            final(host)@.inv(),
            old(host)@.refuses() ==> r == Err::<DeleteObjectGuard<HPEN>, ERROR>(ERROR(8)) && final(host)@ == old(host)@.denied(),
            !old(host)@.refuses() ==> (r matches Ok(g) && g.id() == old(host)@.fresh() && g.id()
                != 0 && final(host)@ == old(host)@.allocated(SlotV::Gdi) && g.valid(final(host)@)),
    {
        match host.create_gdi_object() {
            Ok(h) => Ok(DeleteObjectGuard::acquire(HPEN::from_raw(h))),
            Err(e) => Err(e),
        }
    }
}

impl HWND {
    /// Creates a window and hands its owning guard back; on failure no
    /// guard exists.
    pub fn create_window(host: &mut Host) -> (r: SysResult<DestroyWindowGuard>)
        requires
            old(host)@.inv(),
        ensures
            final(host)@.inv(),
            old(host)@.refuses() ==> r == Err::<DestroyWindowGuard, ERROR>(ERROR(8)) && final(host)@ == old(host)@.denied(),
            !old(host)@.refuses() ==> (r matches Ok(g) && g.id() == old(host)@.fresh() && g.id()
                != 0 && final(host)@ == old(host)@.allocated(SlotV::Window) && g.valid(
                final(host)@,
            )),
    {
        match host.create_window() {
            Ok(h) => Ok(DestroyWindowGuard::acquire(HWND::from_raw(h))),
            Err(e) => Err(e),
        }
    }

    /// Obtains a device context for this window, guarded so that its
    /// release goes back against this very window.
    pub fn get_dc(self, host: &mut Host) -> (r: SysResult<ReleaseDCGuard>)
        requires
            old(host)@.inv(),
        ensures
            final(host)@.inv(),
            !old(host)@.live_window(self.id()) ==> r == Err::<ReleaseDCGuard, ERROR>(ERROR(6))
                && final(host)@ == old(host)@,
            old(host)@.live_window(self.id()) && old(host)@.refuses() ==> r == Err::<
                ReleaseDCGuard,
                ERROR,
            >(ERROR(8)) && final(host)@ == old(host)@.denied(),
            old(host)@.live_window(self.id()) && !old(host)@.refuses() ==> (r matches Ok(g)
                && g.id() == old(host)@.fresh() && g.owner_id() == self.id() && final(host)@ == old(host)@.allocated(SlotV::Dc { owner: self.id(), selected: 0 }) && g.valid(final(host)@)),
    {
        match host.get_dc(self.as_raw()) {
            Ok(h) => Ok(ReleaseDCGuard::acquire(self, HDC::from_raw(h))),
            Err(e) => Err(e),
        }
    }
}

impl HDC {
    /// Obtains a device context for the screen, guarded by the deletion
    /// call.
    pub fn create_dc(host: &mut Host) -> (r: SysResult<DeleteDCGuard>)
        requires
            old(host)@.inv(),
        ensures
            final(host)@.inv(),
            old(host)@.refuses() ==> r == Err::<DeleteDCGuard, ERROR>(ERROR(8)) && final(host)@
                == old(host)@.denied(),
            !old(host)@.refuses() ==> (r matches Ok(g) && g.id() == old(host)@.fresh() && g.id()
                != 0 && final(host)@ == old(host)@.allocated(SlotV::Dc { owner: 0, selected: 0 })
                && g.valid(final(host)@)),
    {
        match host.create_dc() {
            Ok(h) => Ok(DeleteDCGuard::acquire(HDC::from_raw(h))),
            Err(e) => Err(e),
        }
    }

    /// Selects a GDI object into this device context and hands back the
    /// restore-on-release guard carrying the previously selected object.
    pub fn select_object<H: GdiObject>(self, host: &mut Host, obj: H) -> (r: SysResult<
        SelectObjectGuard,
    >)
        requires
            old(host)@.inv(),
        ensures
            final(host)@.inv(),
            !(old(host)@.live_dc(self.id()) && (obj.id() == 0 || old(host)@.live_gdi(obj.id())))
                ==> r == Err::<SelectObjectGuard, ERROR>(ERROR(6)) && final(host)@ == old(host)@,
            (old(host)@.live_dc(self.id()) && (obj.id() == 0 || old(host)@.live_gdi(obj.id())))
                ==> (r matches Ok(g) && g.dc_id() == self.id() && g.prev_id() == old(host)@.dc_selected(self.id()) && final(host)@ == old(host)@.updated(
                self.id(),
                SlotV::Dc { owner: old(host)@.dc_owner(self.id()), selected: obj.id() },
            ) && final(host)@.dc_selected(self.id()) == obj.id()),
    {
        match host.select_object(self.as_raw(), obj.as_raw()) {
            Ok(prev) => Ok(SelectObjectGuard::acquire(self, prev)),
            Err(e) => Err(e),
        }
    }

    /// The object currently selected into this device context.
    pub fn get_current_object(self, host: &Host) -> (r: SysResult<u64>)
        requires
            host@.inv(),
        ensures
            host@.live_dc(self.id()) ==> r == Ok::<u64, ERROR>(host@.dc_selected(self.id())),
            !host@.live_dc(self.id()) ==> r == Err::<u64, ERROR>(ERROR(6)),
    {
        host.get_current_object(self.as_raw())
    }
}

/// Maps a view of a file mapping and hands its owning guard back; on
/// failure no guard exists.
pub fn map_view_of_file(host: &mut Host) -> (r: SysResult<UnmapViewOfFileGuard>)
    requires
        old(host)@.inv(),
    ensures
        final(host)@.inv(),
        old(host)@.refuses() ==> r == Err::<UnmapViewOfFileGuard, ERROR>(ERROR(8)) && final(host)@
            == old(host)@.denied(),
        !old(host)@.refuses() ==> (r matches Ok(g) && g.id() == old(host)@.fresh() && g.id() != 0
            && final(host)@ == old(host)@.allocated(SlotV::MapView) && g.valid(final(host)@)),
{
    match host.map_view() {
        Ok(h) => Ok(UnmapViewOfFileGuard::acquire(HMAPVIEW::from_raw(h))),
        Err(e) => Err(e),
    }
}

impl HHEAP {
    /// Allocates a block from this heap and hands its owning guard back,
    /// carrying this allocator as the release context; on failure no guard
    /// exists.
    pub fn alloc_block(self, host: &mut Host) -> (r: SysResult<HeapFreeGuard>)
        requires
            old(host)@.inv(),
        ensures
            final(host)@.inv(),
            !old(host)@.live_heap(self.id()) ==> r == Err::<HeapFreeGuard, ERROR>(ERROR(6))
                && final(host)@ == old(host)@,
            old(host)@.live_heap(self.id()) && old(host)@.refuses() ==> r == Err::<
                HeapFreeGuard,
                ERROR,
            >(ERROR(8)) && final(host)@ == old(host)@.denied(),
            old(host)@.live_heap(self.id()) && !old(host)@.refuses() ==> (r matches Ok(g) && g.id()
                == old(host)@.fresh() && g.heap_id() == self.id() && final(host)@ == old(host)@.allocated(SlotV::HeapBlock { heap: self.id() }) && g.valid(final(host)@)),
    {
        match host.heap_alloc(self.as_raw()) {
            Ok(h) => Ok(HeapFreeGuard::acquire(self, HHEAPMEM::from_raw(h))),
            Err(e) => Err(e),
        }
    }
}

} // verus!
