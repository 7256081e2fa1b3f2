//! The native platform at its boundary: an in-process resource table.
//!
//! [`Host`] models the platform side of every acquisition and release call
//! the guards make: a table of slots, one per resource ever acquired, a disk
//! of named files, and an instrumented release counter.  Handle values are
//! never reused: slot `i` of the table answers to handle value `i + 1`, and a
//! released slot stays dead forever, so a stale handle value can never reach
//! another live resource.
//!
//! Every operation states exactly when it succeeds and how it changes the
//! table; failed operations leave the table unchanged.  The counters make the
//! release discipline observable: `release_count` grows by one on every
//! successful release call of any kind, and `com_destroyed_count` grows by
//! one exactly when a reference-counted object's count reaches zero.

use vstd::prelude::*;

use crate::co::DISPOSITION;
use crate::co::ERROR;
use crate::co::FILE_STARTING_POINT;
use crate::co::GENERIC;
use crate::co::SysResult;

verus! {

/// Highest handle value the table hands out; acquisition beyond it fails.
pub const HANDLE_LIMIT: u64 = 0xFFFF_FFFE;

/// One resource of the table, in specifications.
#[verifier::ext_equal]
pub enum SlotV {
    /// Released; the handle value is retired.
    Dead,
    /// An open file: an index into the disk, a pointer position, and the
    /// generic access rights it was opened with.
    File { disk_i: int, pos: int, access: u32 },
    /// A GDI object (pen, brush, ...).
    Gdi,
    /// A device context.  `owner` is the window it was obtained from, or 0
    /// for a screen device context; `selected` is the currently selected
    /// object (0 for the initial stock object).
    Dc { owner: u64, selected: u64 },
    /// A plain window.
    Window,
    /// A list view control: a window that carries item state.
    ListView { items: Seq<LvItemV>, next_item_id: u32, top: u32, page: u32 },
    /// A mapped view of a file mapping.
    MapView,
    /// A native heap allocator.
    Heap,
    /// A block allocated from the native heap `heap`.
    HeapBlock { heap: u64 },
    /// A reference-counted COM object with `refs` outstanding references.
    Com { refs: u32 },
}

/// One list view item, in specifications.
#[verifier::ext_equal]
pub struct LvItemV {
    /// Unique identifier, stable across index shifts.
    pub id: u32,
    /// State bits.
    pub state: u32,
    /// Icon index, `-1` for none.
    pub icon: i32,
    /// Application-defined datum.
    pub lparam: u64,
    /// Text per column.
    pub texts: Seq<Seq<char>>,
}

/// One file of the disk, in specifications.
#[verifier::ext_equal]
pub struct DiskFileV {
    /// The path the file was created under.
    pub path: Seq<char>,
    /// The file's bytes.
    pub data: Seq<u8>,
    /// Creation time, in clock ticks.
    pub created: u64,
    /// Last write time, in clock ticks.
    pub written: u64,
}

/// The whole platform state, in specifications.
#[verifier::ext_equal]
pub struct HostView {
    /// The resource table; slot `i` answers to handle value `i + 1`.
    pub slots: Seq<SlotV>,
    /// The named files.
    pub disk: Seq<DiskFileV>,
    /// How many successful release calls have been observed, of any kind.
    pub releases: u64,
    /// How many reference-counted objects have been destroyed.
    pub com_destroyed: u64,
    /// The clock, in ticks.
    pub now: u64,
    /// Whether the next acquisition call is to fail with the invalid
    /// sentinel.
    pub deny: bool,
}

/// A counter increment that stops at the top instead of wrapping.
pub open spec fn bump(c: u64) -> u64 {
    if c == u64::MAX {
        c
    } else {
        (c + 1) as u64
    }
}

/// A clock advance that stops at the top instead of wrapping.
pub open spec fn sat_add(a: u64, b: u64) -> u64 {
    if a + b > u64::MAX {
        u64::MAX
    } else {
        (a + b) as u64
    }
}

impl HostView {
    /// Whether `h` is a handle value this table has ever handed out.
    pub open spec fn valid(self, h: u64) -> bool {
        1 <= h <= self.slots.len()
    }

    /// The slot behind handle value `h`.
    pub open spec fn slot(self, h: u64) -> SlotV {
        self.slots[h - 1]
    }

    /// Whether `h` refers to a resource that has not been released.
    pub open spec fn live(self, h: u64) -> bool {
        self.valid(h) && !(self.slot(h) is Dead)
    }

    /// Whether the table cannot hand out another handle.
    pub open spec fn full(self) -> bool {
        self.slots.len() >= HANDLE_LIMIT
    }

    /// The handle value the next successful acquisition returns.
    pub open spec fn fresh(self) -> u64 {
        (self.slots.len() + 1) as u64
    }

    /// Whether the next acquisition call is bound to fail.
    pub open spec fn refuses(self) -> bool {
        self.deny || self.full()
    }

    /// The state after a failed acquisition: unchanged but for the spent
    /// denial.
    pub open spec fn denied(self) -> HostView {
        HostView { deny: false, ..self }
    }

    /// The state after a successful acquisition of `s`.
    pub open spec fn allocated(self, s: SlotV) -> HostView {
        HostView { slots: self.slots.push(s), ..self }
    }

    /// The state after slot `h` was replaced by `s`.
    pub open spec fn updated(self, h: u64, s: SlotV) -> HostView {
        HostView { slots: self.slots.update(h - 1, s), ..self }
    }

    /// The state after the single release of the resource behind `h`.
    pub open spec fn released_at(self, h: u64) -> HostView {
        HostView {
            slots: self.slots.update(h - 1, SlotV::Dead),
            releases: bump(self.releases),
            ..self
        }
    }

    /// Whether `h` refers to a live reference-counted object.
    pub open spec fn live_com(self, h: u64) -> bool {
        self.valid(h) && self.slot(h) is Com
    }

    /// The outstanding reference count behind `h`.
    pub open spec fn com_refs(self, h: u64) -> u32 {
        match self.slot(h) {
            SlotV::Com { refs } => refs,
            _ => 0,
        }
    }

    /// The state after one release call on the reference-counted object
    /// behind `h`: the count drops by one, and the object is destroyed
    /// exactly when it reaches zero.
    pub open spec fn com_released_at(self, h: u64) -> HostView {
        if self.com_refs(h) == 1 {
            HostView {
                slots: self.slots.update(h - 1, SlotV::Dead),
                releases: bump(self.releases),
                com_destroyed: bump(self.com_destroyed),
                ..self
            }
        } else {
            HostView {
                slots: self.slots.update(h - 1, SlotV::Com { refs: (self.com_refs(h) - 1) as u32 }),
                releases: bump(self.releases),
                ..self
            }
        }
    }

    /// Whether `h` refers to a live open file.
    pub open spec fn live_file(self, h: u64) -> bool {
        self.valid(h) && self.slot(h) is File
    }

    /// The disk index of the file behind `h`.
    pub open spec fn file_disk(self, h: u64) -> int {
        match self.slot(h) {
            SlotV::File { disk_i, .. } => disk_i,
            _ => 0,
        }
    }

    /// The pointer position of the file behind `h`.
    pub open spec fn file_pos(self, h: u64) -> int {
        match self.slot(h) {
            SlotV::File { pos, .. } => pos,
            _ => 0,
        }
    }

    /// The generic access rights the file behind `h` was opened with.
    pub open spec fn file_access(self, h: u64) -> u32 {
        match self.slot(h) {
            SlotV::File { access, .. } => access,
            _ => 0,
        }
    }

    /// Whether the file behind `h` was opened with write access.
    pub open spec fn file_writable(self, h: u64) -> bool {
        self.file_access(h) & 0x4000_0000u32 == 0x4000_0000u32
    }

    /// The bytes of the file behind `h`.
    pub open spec fn file_data(self, h: u64) -> Seq<u8> {
        self.disk[self.file_disk(h)].data
    }

    /// The path of the file behind `h`.
    pub open spec fn file_path(self, h: u64) -> Seq<char> {
        self.disk[self.file_disk(h)].path
    }

    /// How many bytes lie between the pointer and the end of the file
    /// behind `h`.
    pub open spec fn file_avail(self, h: u64) -> int {
        if self.file_pos(h) >= self.file_data(h).len() {
            0
        } else {
            self.file_data(h).len() - self.file_pos(h)
        }
    }

    /// How many bytes a read into a buffer of `want` bytes returns.
    pub open spec fn read_len(self, h: u64, want: nat) -> int {
        if want <= self.file_avail(h) {
            want as int
        } else {
            self.file_avail(h)
        }
    }

    /// The bytes a read into a buffer of `want` bytes returns: the stretch
    /// of the file from the pointer, cut to the buffer; empty when the
    /// pointer lies at or past the end.
    pub open spec fn read_result(self, h: u64, want: nat) -> Seq<u8> {
        if self.file_pos(h) >= self.file_data(h).len() {
            Seq::empty()
        } else {
            self.file_data(h).subrange(
                self.file_pos(h),
                self.file_pos(h) + self.read_len(h, want),
            )
        }
    }

    /// Whether a file named `path` exists on the disk.
    pub open spec fn has_file(self, path: Seq<char>) -> bool {
        exists|j: int| 0 <= j < self.disk.len() && self.disk[j].path == path
    }

    /// The disk index of the file named `path`.
    pub open spec fn disk_index_of(self, path: Seq<char>) -> int {
        choose|j: int| 0 <= j < self.disk.len() && self.disk[j].path == path
    }

    /// The bytes of the file named `path`.
    pub open spec fn disk_data(self, path: Seq<char>) -> Seq<u8> {
        self.disk[self.disk_index_of(path)].data
    }

    /// The state after the pointer of the file behind `h` moved to `pos`.
    pub open spec fn with_file_pos(self, h: u64, pos: int) -> HostView {
        self.updated(
            h,
            SlotV::File { disk_i: self.file_disk(h), pos, access: self.file_access(h) },
        )
    }

    /// The state after disk file `di` got the bytes `data`, written at
    /// `written`.
    pub open spec fn with_disk_data(self, di: int, data: Seq<u8>, written: u64) -> HostView {
        HostView {
            disk: self.disk.update(
                di,
                DiskFileV {
                    path: self.disk[di].path,
                    data,
                    created: self.disk[di].created,
                    written,
                },
            ),
            ..self
        }
    }

    /// The state after an empty file named `path` was created now.
    pub open spec fn with_new_file(self, path: Seq<char>) -> HostView {
        HostView {
            disk: self.disk.push(
                DiskFileV { path, data: Seq::empty(), created: self.now, written: self.now },
            ),
            ..self
        }
    }

    /// Whether `h` refers to a live list view control.
    pub open spec fn live_lv(self, h: u64) -> bool {
        self.valid(h) && self.slot(h) is ListView
    }

    /// The items of the list view behind `h`.
    pub open spec fn lv_items(self, h: u64) -> Seq<LvItemV> {
        match self.slot(h) {
            SlotV::ListView { items, .. } => items,
            _ => Seq::empty(),
        }
    }

    /// The identifier the next inserted item gets.
    pub open spec fn lv_next_id(self, h: u64) -> u32 {
        match self.slot(h) {
            SlotV::ListView { next_item_id, .. } => next_item_id,
            _ => 0,
        }
    }

    /// The first visible item index of the list view behind `h`.
    pub open spec fn lv_top(self, h: u64) -> u32 {
        match self.slot(h) {
            SlotV::ListView { top, .. } => top,
            _ => 0,
        }
    }

    /// How many items the list view behind `h` shows at once.
    pub open spec fn lv_page(self, h: u64) -> u32 {
        match self.slot(h) {
            SlotV::ListView { page, .. } => page,
            _ => 0,
        }
    }

    /// The state after the list view behind `h` changed to the given
    /// items, next identifier and top index.
    pub open spec fn with_lv(self, h: u64, items: Seq<LvItemV>, next_item_id: u32, top: u32) -> HostView {
        self.updated(
            h,
            SlotV::ListView { items, next_item_id, top, page: self.lv_page(h) },
        )
    }

    /// The text of column `col` of an item: empty where no column was set.
    pub open spec fn lv_text_of(it: LvItemV, col: u32) -> Seq<char> {
        if col < it.texts.len() {
            it.texts[col as int]
        } else {
            Seq::empty()
        }
    }

    /// An item's columns after column `col` was set to `t`: missing
    /// columns up to `col` appear empty.
    pub open spec fn lv_texts_set(texts: Seq<Seq<char>>, col: u32, t: Seq<char>) -> Seq<
        Seq<char>,
    > {
        if col < texts.len() {
            texts.update(col as int, t)
        } else {
            texts + Seq::new((col - texts.len()) as nat, |i: int| Seq::<char>::empty()) + seq![t]
        }
    }

    /// Whether item `index` of the list view behind `h` lies in the shown
    /// range.
    pub open spec fn lv_visible(self, h: u64, index: u32) -> bool {
        self.lv_top(h) <= index < self.lv_top(h) + self.lv_page(h)
    }

    /// The top index that makes item `index` visible while moving the view
    /// as little as possible.
    pub open spec fn lv_scrolled_top(self, h: u64, index: u32) -> int {
        if index < self.lv_top(h) {
            index as int
        } else if index >= self.lv_top(h) + self.lv_page(h) {
            index + 1 - self.lv_page(h)
        } else {
            self.lv_top(h) as int
        }
    }

    /// Whether `h` refers to a live GDI object.
    pub open spec fn live_gdi(self, h: u64) -> bool {
        self.valid(h) && self.slot(h) is Gdi
    }

    /// Whether `h` refers to a live device context.
    pub open spec fn live_dc(self, h: u64) -> bool {
        self.valid(h) && self.slot(h) is Dc
    }

    /// The window a device context was obtained from, 0 for the screen.
    pub open spec fn dc_owner(self, h: u64) -> u64 {
        match self.slot(h) {
            SlotV::Dc { owner, .. } => owner,
            _ => 0,
        }
    }

    /// The object currently selected into a device context.
    pub open spec fn dc_selected(self, h: u64) -> u64 {
        match self.slot(h) {
            SlotV::Dc { selected, .. } => selected,
            _ => 0,
        }
    }

    /// Whether `h` refers to a live window, plain or list view.
    pub open spec fn live_window(self, h: u64) -> bool {
        self.valid(h) && (self.slot(h) is Window || self.slot(h) is ListView)
    }

    /// Whether `h` refers to a live mapped view.
    pub open spec fn live_map_view(self, h: u64) -> bool {
        self.valid(h) && self.slot(h) is MapView
    }

    /// Whether `h` refers to a live native heap.
    pub open spec fn live_heap(self, h: u64) -> bool {
        self.valid(h) && self.slot(h) is Heap
    }

    /// Whether `block` refers to a live block of the heap `heap`.
    pub open spec fn live_heap_block(self, heap: u64, block: u64) -> bool {
        self.valid(block) && self.slot(block) == (SlotV::HeapBlock { heap })
    }
}

impl HostView {
    /// Every handle fits the table, every file slot points into the disk
    /// with a pointer in signed range, disk paths are distinct, file sizes
    /// stay in signed range, reference counts of live objects are positive,
    /// and list views stay indexable.  Established by [`Host::new`] and
    /// preserved by every operation.
    pub open spec fn inv(self) -> bool {
        &&& self.slots.len() <= HANDLE_LIMIT
        &&& forall|i: int|
            0 <= i < self.slots.len() ==> slot_wf(#[trigger] self.slots[i], self.disk.len())
        &&& forall|i: int, j: int|
            0 <= i < j < self.disk.len() ==> self.disk[i].path != self.disk[j].path
        &&& forall|i: int|
            0 <= i < self.disk.len() ==> (#[trigger] self.disk[i]).data.len()
                <= 0x7FFF_FFFF_FFFF_FFFFu64
    }
}

/// Replacing a slot by a well-formed one preserves the invariant.
pub proof fn lemma_inv_updated(v: HostView, h: u64, s: SlotV)
    requires
        v.inv(),
        v.valid(h),
        slot_wf(s, v.disk.len()),
    ensures
        v.updated(h, s).inv(),
{
    let w = v.updated(h, s);
    assert forall|i: int| 0 <= i < w.slots.len() implies slot_wf(
        #[trigger] w.slots[i],
        w.disk.len(),
    ) by {
        if i != h - 1 {
            assert(w.slots[i] == v.slots[i]);
        }
    }
}

/// The bytes of a file after `data` was written at position `pos`: the base
/// is padded with zeros up to `pos` if it is shorter, the written range is
/// replaced, and anything beyond it is kept.
pub open spec fn spliced(base: Seq<u8>, pos: int, data: Seq<u8>) -> Seq<u8>
    recommends
        0 <= pos,
{
    let padded = if base.len() >= pos {
        base
    } else {
        base + Seq::new((pos - base.len()) as nat, |i: int| 0u8)
    };
    let tail = if padded.len() > pos + data.len() {
        padded.skip(pos + data.len())
    } else {
        Seq::empty()
    };
    padded.take(pos) + data + tail
}

/// The bytes of a file after it was cut or zero-padded to end at `pos`.
pub open spec fn sized_to(base: Seq<u8>, pos: int) -> Seq<u8>
    recommends
        0 <= pos,
{
    if base.len() >= pos {
        base.take(pos)
    } else {
        base + Seq::new((pos - base.len()) as nat, |i: int| 0u8)
    }
}

/// The largest byte count a file may end at on this platform: the signed
/// range, or the address range where that is smaller.
pub open spec fn size_limit() -> int {
    if usize::MAX < 0x7FFF_FFFF_FFFF_FFFFu64 {
        usize::MAX as int
    } else {
        0x7FFF_FFFF_FFFF_FFFF
    }
}

/// Replacing a disk file's bytes within the size limit preserves the
/// invariant.
pub proof fn lemma_inv_disk_data(v: HostView, di: int, data: Seq<u8>, written: u64)
    requires
        v.inv(),
        0 <= di < v.disk.len(),
        data.len() <= 0x7FFF_FFFF_FFFF_FFFFu64,
    ensures
        v.with_disk_data(di, data, written).inv(),
{
    let w = v.with_disk_data(di, data, written);
    assert forall|i: int| 0 <= i < w.slots.len() implies slot_wf(
        #[trigger] w.slots[i],
        w.disk.len(),
    ) by {
        assert(slot_wf(v.slots[i], v.disk.len()));
    }
    assert forall|a: int, b: int| 0 <= a < b < w.disk.len() implies w.disk[a].path
        != w.disk[b].path by {
        assert(v.disk[a].path != v.disk[b].path);
    }
}

/// Under the invariant, a matching disk index is the only one: looking the
/// path up yields it.
pub proof fn lemma_disk_index_unique(v: HostView, i: int)
    requires
        v.inv(),
        0 <= i < v.disk.len(),
    ensures
        v.has_file(v.disk[i].path),
        v.disk_index_of(v.disk[i].path) == i,
{
    let path = v.disk[i].path;
    assert(v.has_file(path));
    let k = v.disk_index_of(path);
    if k < i {
        assert(v.disk[k].path != v.disk[i].path);
    } else if k > i {
        assert(v.disk[i].path != v.disk[k].path);
    }
}

/// One resource of the table.
pub enum Slot {
    /// Released; the handle value is retired.
    Dead,
    /// An open file.
    File { disk_i: usize, pos: u64, access: u32 },
    /// A GDI object.
    Gdi,
    /// A device context.
    Dc { owner: u64, selected: u64 },
    /// A plain window.
    Window,
    /// A list view control.
    ListView { items: Vec<LvItem>, next_item_id: u32, top: u32, page: u32 },
    /// A mapped view of a file mapping.
    MapView,
    /// A native heap allocator.
    Heap,
    /// A block allocated from a native heap.
    HeapBlock { heap: u64 },
    /// A reference-counted COM object.
    Com { refs: u32 },
}

/// One list view item.
pub struct LvItem {
    /// Unique identifier, stable across index shifts.
    pub id: u32,
    /// State bits.
    pub state: u32,
    /// Icon index, `-1` for none.
    pub icon: i32,
    /// Application-defined datum.
    pub lparam: u64,
    /// Text per column.
    pub texts: Vec<String>,
}

/// One file of the disk.
pub struct DiskFile {
    /// The path the file was created under.
    pub path: String,
    /// The file's bytes.
    pub data: Vec<u8>,
    /// Creation time, in clock ticks.
    pub created: u64,
    /// Last write time, in clock ticks.
    pub written: u64,
}

/// What a list view item looks like in specifications.
pub open spec fn lv_item_view(it: LvItem) -> LvItemV {
    LvItemV {
        id: it.id,
        state: it.state,
        icon: it.icon,
        lparam: it.lparam,
        texts: it.texts@.map_values(|t: String| t@),
    }
}

/// What a disk file looks like in specifications.
pub open spec fn disk_file_view(d: DiskFile) -> DiskFileV {
    DiskFileV { path: d.path@, data: d.data@, created: d.created, written: d.written }
}

/// What a slot looks like in specifications.
pub open spec fn slot_view(s: Slot) -> SlotV {
    match s {
        Slot::Dead => SlotV::Dead,
        Slot::File { disk_i, pos, access } => SlotV::File {
            disk_i: disk_i as int,
            pos: pos as int,
            access,
        },
        Slot::Gdi => SlotV::Gdi,
        Slot::Dc { owner, selected } => SlotV::Dc { owner, selected },
        Slot::Window => SlotV::Window,
        Slot::ListView { items, next_item_id, top, page } => SlotV::ListView {
            items: items@.map_values(|it: LvItem| lv_item_view(it)),
            next_item_id,
            top,
            page,
        },
        Slot::MapView => SlotV::MapView,
        Slot::Heap => SlotV::Heap,
        Slot::HeapBlock { heap } => SlotV::HeapBlock { heap },
        Slot::Com { refs } => SlotV::Com { refs },
    }
}

/// The native platform: the resource table, the disk, the clock, and the
/// release instrumentation.
pub struct Host {
    slots: Vec<Slot>,
    disk: Vec<DiskFile>,
    releases: u64,
    com_destroyed: u64,
    now: u64,
    deny: bool,
}

impl View for Host {
    type V = HostView;

    closed spec fn view(&self) -> HostView {
        HostView {
            slots: self.slots@.map_values(|s: Slot| slot_view(s)),
            disk: self.disk@.map_values(|d: DiskFile| disk_file_view(d)),
            releases: self.releases,
            com_destroyed: self.com_destroyed,
            now: self.now,
            deny: self.deny,
        }
    }
}

/// What must hold of a slot against a disk of `disk_len` files.
pub open spec fn slot_wf(s: SlotV, disk_len: nat) -> bool {
    match s {
        SlotV::File { disk_i, pos, .. } => 0 <= disk_i < disk_len && 0 <= pos
            <= 0x7FFF_FFFF_FFFF_FFFFu64,
        SlotV::Com { refs } => refs >= 1,
        SlotV::ListView { items, page, .. } => items.len() < 0xFFFF_FFFFu32 && page >= 1,
        _ => true,
    }
}

impl Host {

    /// A platform with no resources, no files, and all counters at zero.
    pub fn new() -> (host: Host)
        ensures
            host@.inv(),
            host@ == (HostView {
                slots: Seq::empty(),
                disk: Seq::empty(),
                releases: 0,
                com_destroyed: 0,
                now: 0,
                deny: false,
            }),
    {
        let host = Host {
            slots: Vec::new(),
            disk: Vec::new(),
            releases: 0,
            com_destroyed: 0,
            now: 0,
            deny: false,
        };
        proof {
            assert(host@.slots =~= Seq::<SlotV>::empty());
            assert(host@.disk =~= Seq::<DiskFileV>::empty());
        }
        host
    }

    /// The number of successful release calls observed so far.
    pub fn release_count(&self) -> (n: u64)
        ensures
            n == self@.releases,
    {
        self.releases
    }

    /// The number of reference-counted objects destroyed so far.
    pub fn com_destroyed_count(&self) -> (n: u64)
        ensures
            n == self@.com_destroyed,
    {
        self.com_destroyed
    }

    /// The clock, in ticks.
    pub fn now(&self) -> (t: u64)
        ensures
            t == self@.now,
    {
        self.now
    }

    /// Moves the clock forward.
    pub fn advance_clock(&mut self, ticks: u64)
        requires
            old(self)@.inv(),
        ensures
            final(self)@.inv(),
            final(self)@ == (HostView { now: sat_add(old(self)@.now, ticks), ..old(self)@ }),
    {
        if ticks > u64::MAX - self.now {
            self.now = u64::MAX;
        } else {
            self.now = self.now + ticks;
        }
    }

    /// Makes the next acquisition call fail with the invalid sentinel, as a
    /// native call that is out of resources would.
    pub fn refuse_next_acquisition(&mut self)
        requires
            old(self)@.inv(),
        ensures
            final(self)@.inv(),
            final(self)@ == (HostView { deny: true, ..old(self)@ }),
    {
        self.deny = true;
    }

    /// Adds a slot to the table and hands out its handle value, unless the
    /// next acquisition was set up to fail or the table is full.
    fn allocate(&mut self, s: Slot) -> (r: SysResult<u64>)
        requires
            old(self)@.inv(),
            slot_wf(slot_view(s), old(self)@.disk.len()),
        ensures
            final(self)@.inv(),
            acquired(old(self)@, final(self)@, r, slot_view(s)),
    {
        if self.deny {
            self.deny = false;
            return Err(ERROR::not_enough_memory());
        }
        if self.slots.len() as u64 >= HANDLE_LIMIT {
            return Err(ERROR::not_enough_memory());
        }
        let h: u64 = self.slots.len() as u64 + 1;
        self.slots.push(s);
        proof {
            assert(self@.slots =~= old(self)@.slots.push(slot_view(s)));
            assert(self@ =~= old(self)@.allocated(slot_view(s)));
        }
        Ok(h)
    }

    /// Marks the slot behind `h` as released and counts the release.
    fn kill(&mut self, h: u64)
        requires
            old(self)@.inv(),
            old(self)@.valid(h),
        ensures
            final(self)@.inv(),
            final(self)@ == old(self)@.released_at(h),
    {
        let i: usize = (h - 1) as usize;
        self.slots[i] = Slot::Dead;
        if self.releases < u64::MAX {
            self.releases = self.releases + 1;
        }
        proof {
            assert(self@.slots =~= old(self)@.slots.update(h - 1, SlotV::Dead));
            assert(self@ =~= old(self)@.released_at(h));
        }
    }

    /// Acquires a GDI object (a pen, a brush).  Relies on nothing but table
    /// capacity: the fresh handle is returned, or the invalid sentinel is
    /// mapped to an error before any owner exists.
    pub fn create_gdi_object(&mut self) -> (r: SysResult<u64>)
        requires
            old(self)@.inv(),
        ensures
            final(self)@.inv(),
            acquired(old(self)@, final(self)@, r, SlotV::Gdi),
    {
        self.allocate(Slot::Gdi)
    }

    /// Releases a GDI object.  Succeeds exactly on a live GDI handle; a
    /// failed call changes nothing.
    pub fn delete_object(&mut self, h: u64) -> (r: SysResult<()>)
        requires
            old(self)@.inv(),
        ensures
            final(self)@.inv(),
            old(self)@.live_gdi(h) ==> r == Ok::<(), ERROR>(()) && final(self)@ == old(self)@.released_at(h),
            !old(self)@.live_gdi(h) ==> r == Err::<(), ERROR>(ERROR(6)) && final(self)@ == old(self)@,
    {
        if h == 0 || h > self.slots.len() as u64 {
            return Err(ERROR::invalid_handle());
        }
        let i: usize = (h - 1) as usize;
        let live = match &self.slots[i] {
            Slot::Gdi => true,
            _ => false,
        };
        if !live {
            return Err(ERROR::invalid_handle());
        }
        self.kill(h);
        Ok(())
    }

    /// Acquires a plain window.
    pub fn create_window(&mut self) -> (r: SysResult<u64>)
        requires
            old(self)@.inv(),
        ensures
            final(self)@.inv(),
            acquired(old(self)@, final(self)@, r, SlotV::Window),
    {
        self.allocate(Slot::Window)
    }

    /// Destroys a window, plain or list view.  Succeeds exactly on a live
    /// window handle; a failed call changes nothing.
    pub fn destroy_window(&mut self, h: u64) -> (r: SysResult<()>)
        requires
            old(self)@.inv(),
        ensures
            final(self)@.inv(),
            old(self)@.live_window(h) ==> r == Ok::<(), ERROR>(()) && final(self)@ == old(self)@.released_at(h),
            !old(self)@.live_window(h) ==> r == Err::<(), ERROR>(ERROR(6)) && final(self)@ == old(self)@,
    {
        if h == 0 || h > self.slots.len() as u64 {
            return Err(ERROR::invalid_handle());
        }
        let i: usize = (h - 1) as usize;
        let live = match &self.slots[i] {
            Slot::Window => true,
            Slot::ListView { .. } => true,
            _ => false,
        };
        if !live {
            return Err(ERROR::invalid_handle());
        }
        self.kill(h);
        Ok(())
    }

    /// Obtains a device context for a live window.
    pub fn get_dc(&mut self, wnd: u64) -> (r: SysResult<u64>)
        requires
            old(self)@.inv(),
        ensures
            final(self)@.inv(),
            old(self)@.live_window(wnd) ==> acquired(
                old(self)@,
                final(self)@,
                r,
                SlotV::Dc { owner: wnd, selected: 0 },
            ),
            !old(self)@.live_window(wnd) ==> r == Err::<u64, ERROR>(ERROR(6)) && final(self)@
                == old(self)@,
    {
        if wnd == 0 || wnd > self.slots.len() as u64 {
            return Err(ERROR::invalid_handle());
        }
        let i: usize = (wnd - 1) as usize;
        let live = match &self.slots[i] {
            Slot::Window => true,
            Slot::ListView { .. } => true,
            _ => false,
        };
        if !live {
            return Err(ERROR::invalid_handle());
        }
        self.allocate(Slot::Dc { owner: wnd, selected: 0 })
    }

    /// Obtains a device context for the screen, owned by no window.
    pub fn create_dc(&mut self) -> (r: SysResult<u64>)
        requires
            old(self)@.inv(),
        ensures
            final(self)@.inv(),
            acquired(old(self)@, final(self)@, r, SlotV::Dc { owner: 0, selected: 0 }),
    {
        self.allocate(Slot::Dc { owner: 0, selected: 0 })
    }

    /// Releases a device context against the window it was obtained from.
    /// Succeeds exactly on a live device context whose owner is `wnd`,
    /// which must be a window; a failed call changes nothing.
    pub fn release_dc(&mut self, wnd: u64, dc: u64) -> (r: SysResult<()>)
        requires
            old(self)@.inv(),
        ensures
            final(self)@.inv(),
            (old(self)@.live_dc(dc) && old(self)@.dc_owner(dc) == wnd && wnd != 0) ==> r == Ok::<
                (),
                ERROR,
            >(()) && final(self)@ == old(self)@.released_at(dc),
            !(old(self)@.live_dc(dc) && old(self)@.dc_owner(dc) == wnd && wnd != 0) ==> r == Err::<
                (),
                ERROR,
            >(ERROR(6)) && final(self)@ == old(self)@,
    {
        if dc == 0 || dc > self.slots.len() as u64 || wnd == 0 {
            return Err(ERROR::invalid_handle());
        }
        let i: usize = (dc - 1) as usize;
        let matches_owner = match &self.slots[i] {
            Slot::Dc { owner, .. } => *owner == wnd,
            _ => false,
        };
        if !matches_owner {
            return Err(ERROR::invalid_handle());
        }
        self.kill(dc);
        Ok(())
    }

    /// Releases a screen device context.  Succeeds exactly on a live device
    /// context owned by no window; a failed call changes nothing.
    pub fn delete_dc(&mut self, dc: u64) -> (r: SysResult<()>)
        requires
            old(self)@.inv(),
        ensures
            final(self)@.inv(),
            (old(self)@.live_dc(dc) && old(self)@.dc_owner(dc) == 0) ==> r == Ok::<(), ERROR>(())
                && final(self)@ == old(self)@.released_at(dc),
            !(old(self)@.live_dc(dc) && old(self)@.dc_owner(dc) == 0) ==> r == Err::<(), ERROR>(
                ERROR(6),
            ) && final(self)@ == old(self)@,
    {
        if dc == 0 || dc > self.slots.len() as u64 {
            return Err(ERROR::invalid_handle());
        }
        let i: usize = (dc - 1) as usize;
        let screen_owned = match &self.slots[i] {
            Slot::Dc { owner, .. } => *owner == 0,
            _ => false,
        };
        if !screen_owned {
            return Err(ERROR::invalid_handle());
        }
        self.kill(dc);
        Ok(())
    }

    /// Selects an object into a device context and returns the previously
    /// selected one.  Succeeds exactly on a live device context and an
    /// object that is live or the stock sentinel 0; a failed call changes
    /// nothing.
    pub fn select_object(&mut self, dc: u64, obj: u64) -> (r: SysResult<u64>)
        requires
            old(self)@.inv(),
        ensures
            final(self)@.inv(),
            (old(self)@.live_dc(dc) && (obj == 0 || old(self)@.live_gdi(obj))) ==> r == Ok::<
                u64,
                ERROR,
            >(old(self)@.dc_selected(dc)) && final(self)@ == old(self)@.updated(
                dc,
                SlotV::Dc { owner: old(self)@.dc_owner(dc), selected: obj },
            ),
            !(old(self)@.live_dc(dc) && (obj == 0 || old(self)@.live_gdi(obj))) ==> r == Err::<
                u64,
                ERROR,
            >(ERROR(6)) && final(self)@ == old(self)@,
    {
        if dc == 0 || dc > self.slots.len() as u64 {
            return Err(ERROR::invalid_handle());
        }
        if obj != 0 {
            if obj > self.slots.len() as u64 {
                return Err(ERROR::invalid_handle());
            }
            let oi: usize = (obj - 1) as usize;
            let obj_ok = match &self.slots[oi] {
                Slot::Gdi => true,
                _ => false,
            };
            if !obj_ok {
                return Err(ERROR::invalid_handle());
            }
        }
        let i: usize = (dc - 1) as usize;
        let owner = match &self.slots[i] {
            Slot::Dc { owner, .. } => Some(*owner),
            _ => None,
        };
        match owner {
            None => Err(ERROR::invalid_handle()),
            Some(owner) => {
                let prev = match &self.slots[i] {
                    Slot::Dc { selected, .. } => *selected,
                    _ => 0,
                };
                self.slots[i] = Slot::Dc { owner, selected: obj };
                proof {
                    assert(self@.slots =~= old(self)@.slots.update(
                        dc - 1,
                        SlotV::Dc { owner, selected: obj },
                    ));
                    assert(self@ =~= old(self)@.updated(
                        dc,
                        SlotV::Dc { owner, selected: obj },
                    ));
                }
                Ok(prev)
            },
        }
    }

    /// The object currently selected into a device context.  Succeeds
    /// exactly on a live device context.
    pub fn get_current_object(&self, dc: u64) -> (r: SysResult<u64>)
        ensures
            self@.live_dc(dc) ==> r == Ok::<u64, ERROR>(self@.dc_selected(dc)),
            !self@.live_dc(dc) ==> r == Err::<u64, ERROR>(ERROR(6)),
    {
        if dc == 0 || dc > self.slots.len() as u64 {
            return Err(ERROR::invalid_handle());
        }
        let i: usize = (dc - 1) as usize;
        match &self.slots[i] {
            Slot::Dc { selected, .. } => Ok(*selected),
            _ => Err(ERROR::invalid_handle()),
        }
    }

    /// Maps a view of a file mapping.
    pub fn map_view(&mut self) -> (r: SysResult<u64>)
        requires
            old(self)@.inv(),
        ensures
            final(self)@.inv(),
            acquired(old(self)@, final(self)@, r, SlotV::MapView),
    {
        self.allocate(Slot::MapView)
    }

    /// Unmaps a mapped view.  Succeeds exactly on a live mapped view; a
    /// failed call changes nothing.
    pub fn unmap_view(&mut self, h: u64) -> (r: SysResult<()>)
        requires
            old(self)@.inv(),
        ensures
            final(self)@.inv(),
            old(self)@.live_map_view(h) ==> r == Ok::<(), ERROR>(()) && final(self)@ == old(self)@.released_at(h),
            !old(self)@.live_map_view(h) ==> r == Err::<(), ERROR>(ERROR(6)) && final(self)@ == old(self)@,
    {
        if h == 0 || h > self.slots.len() as u64 {
            return Err(ERROR::invalid_handle());
        }
        let i: usize = (h - 1) as usize;
        let live = match &self.slots[i] {
            Slot::MapView => true,
            _ => false,
        };
        if !live {
            return Err(ERROR::invalid_handle());
        }
        self.kill(h);
        Ok(())
    }

    /// Acquires a native heap allocator.
    pub fn heap_create(&mut self) -> (r: SysResult<u64>)
        requires
            old(self)@.inv(),
        ensures
            final(self)@.inv(),
            acquired(old(self)@, final(self)@, r, SlotV::Heap),
    {
        self.allocate(Slot::Heap)
    }

    /// Destroys a native heap allocator.  Succeeds exactly on a live heap;
    /// a failed call changes nothing.
    pub fn heap_destroy(&mut self, h: u64) -> (r: SysResult<()>)
        requires
            old(self)@.inv(),
        ensures
            final(self)@.inv(),
            old(self)@.live_heap(h) ==> r == Ok::<(), ERROR>(()) && final(self)@ == old(self)@.released_at(h),
            !old(self)@.live_heap(h) ==> r == Err::<(), ERROR>(ERROR(6)) && final(self)@ == old(self)@,
    {
        if h == 0 || h > self.slots.len() as u64 {
            return Err(ERROR::invalid_handle());
        }
        let i: usize = (h - 1) as usize;
        let live = match &self.slots[i] {
            Slot::Heap => true,
            _ => false,
        };
        if !live {
            return Err(ERROR::invalid_handle());
        }
        self.kill(h);
        Ok(())
    }

    /// Allocates a block from a live heap.  A dead or foreign heap handle
    /// fails before anything is allocated.
    pub fn heap_alloc(&mut self, heap: u64) -> (r: SysResult<u64>)
        requires
            old(self)@.inv(),
        ensures
            final(self)@.inv(),
            old(self)@.live_heap(heap) ==> acquired(
                old(self)@,
                final(self)@,
                r,
                SlotV::HeapBlock { heap },
            ),
            !old(self)@.live_heap(heap) ==> r == Err::<u64, ERROR>(ERROR(6)) && final(self)@ == old(self)@,
    {
        if heap == 0 || heap > self.slots.len() as u64 {
            return Err(ERROR::invalid_handle());
        }
        let i: usize = (heap - 1) as usize;
        let live = match &self.slots[i] {
            Slot::Heap => true,
            _ => false,
        };
        if !live {
            return Err(ERROR::invalid_handle());
        }
        self.allocate(Slot::HeapBlock { heap })
    }

    /// Frees a block against the heap it was allocated from.  Succeeds
    /// exactly on a live block of that very heap; a failed call changes
    /// nothing.
    pub fn heap_free(&mut self, heap: u64, block: u64) -> (r: SysResult<()>)
        requires
            old(self)@.inv(),
        ensures
            final(self)@.inv(),
            old(self)@.live_heap_block(heap, block) ==> r == Ok::<(), ERROR>(()) && final(self)@
                == old(self)@.released_at(block),
            !old(self)@.live_heap_block(heap, block) ==> r == Err::<(), ERROR>(ERROR(6))
                && final(self)@ == old(self)@,
    {
        if block == 0 || block > self.slots.len() as u64 {
            return Err(ERROR::invalid_handle());
        }
        let i: usize = (block - 1) as usize;
        let matches_heap = match &self.slots[i] {
            Slot::HeapBlock { heap: owner } => *owner == heap,
            _ => false,
        };
        if !matches_heap {
            return Err(ERROR::invalid_handle());
        }
        self.kill(block);
        Ok(())
    }

    /// Creates a reference-counted object with one outstanding reference.
    pub fn com_create(&mut self) -> (r: SysResult<u64>)
        requires
            old(self)@.inv(),
        ensures
            final(self)@.inv(),
            acquired(old(self)@, final(self)@, r, SlotV::Com { refs: 1 }),
    {
        self.allocate(Slot::Com { refs: 1 })
    }

    /// Takes one more reference on a live reference-counted object and
    /// returns the new count.  Fails on a dead handle or a saturated count;
    /// a failed call changes nothing.
    pub fn com_add_ref(&mut self, h: u64) -> (r: SysResult<u32>)
        requires
            old(self)@.inv(),
        ensures
            final(self)@.inv(),
            (old(self)@.live_com(h) && old(self)@.com_refs(h) < u32::MAX) ==> r == Ok::<u32, ERROR>(
                (old(self)@.com_refs(h) + 1) as u32,
            ) && final(self)@ == old(self)@.updated(
                h,
                SlotV::Com { refs: (old(self)@.com_refs(h) + 1) as u32 },
            ),
            !old(self)@.live_com(h) ==> r == Err::<u32, ERROR>(ERROR(6)) && final(self)@ == old(self)@,
            (old(self)@.live_com(h) && old(self)@.com_refs(h) == u32::MAX) ==> r == Err::<
                u32,
                ERROR,
            >(ERROR(8)) && final(self)@ == old(self)@,
    {
        if h == 0 || h > self.slots.len() as u64 {
            return Err(ERROR::invalid_handle());
        }
        let i: usize = (h - 1) as usize;
        let refs = match &self.slots[i] {
            Slot::Com { refs } => Some(*refs),
            _ => None,
        };
        match refs {
            None => Err(ERROR::invalid_handle()),
            Some(refs) => {
                if refs == u32::MAX {
                    return Err(ERROR::not_enough_memory());
                }
                self.slots[i] = Slot::Com { refs: refs + 1 };
                proof {
                    assert(self@.slots =~= old(self)@.slots.update(
                        h - 1,
                        SlotV::Com { refs: (refs + 1) as u32 },
                    ));
                    assert(self@ =~= old(self)@.updated(
                        h,
                        SlotV::Com { refs: (refs + 1) as u32 },
                    ));
                }
                Ok(refs + 1)
            },
        }
    }

    /// Drops one reference on a live reference-counted object and returns
    /// the new count.  The release is counted every time; the object is
    /// destroyed exactly when the count reaches zero.  Fails on a dead
    /// handle; a failed call changes nothing.
    pub fn com_release(&mut self, h: u64) -> (r: SysResult<u32>)
        requires
            old(self)@.inv(),
        ensures
            final(self)@.inv(),
            old(self)@.live_com(h) ==> r == Ok::<u32, ERROR>(
                (old(self)@.com_refs(h) - 1) as u32,
            ) && final(self)@ == old(self)@.com_released_at(h),
            !old(self)@.live_com(h) ==> r == Err::<u32, ERROR>(ERROR(6)) && final(self)@ == old(self)@,
    {
        if h == 0 || h > self.slots.len() as u64 {
            return Err(ERROR::invalid_handle());
        }
        let i: usize = (h - 1) as usize;
        let refs = match &self.slots[i] {
            Slot::Com { refs } => Some(*refs),
            _ => None,
        };
        match refs {
            None => Err(ERROR::invalid_handle()),
            Some(refs) => {
                if refs == 1 {
                    self.kill(h);
                    if self.com_destroyed < u64::MAX {
                        self.com_destroyed = self.com_destroyed + 1;
                    }
                    proof {
                        assert(self@ =~= old(self)@.com_released_at(h));
                    }
                    Ok(0)
                } else {
                    self.slots[i] = Slot::Com { refs: refs - 1 };
                    if self.releases < u64::MAX {
                        self.releases = self.releases + 1;
                    }
                    proof {
                        assert(self@.slots =~= old(self)@.slots.update(
                            h - 1,
                            SlotV::Com { refs: (refs - 1) as u32 },
                        ));
                        assert(self@ =~= old(self)@.com_released_at(h));
                    }
                    Ok(refs - 1)
                }
            },
        }
    }

    /// The disk index of the file named `path`, if any.
    fn find_disk(&self, path: &String) -> (r: Option<usize>)
        ensures
            match r {
                Some(i) => i < self@.disk.len() && self@.disk[i as int].path == path@,
                None => forall|j: int| 0 <= j < self@.disk.len() ==> self@.disk[j].path != path@,
            },
    {
        let mut i: usize = 0;
        while i < self.disk.len()
            invariant
                i <= self.disk@.len(),
                self@.disk.len() == self.disk@.len(),
                forall|j: int| 0 <= j < i ==> self@.disk[j].path != path@,
            decreases self.disk@.len() - i,
        {
            if self.disk[i].path == *path {
                proof {
                    assert(self@.disk[i as int] == disk_file_view(self.disk@[i as int]));
                }
                return Some(i);
            }
            proof {
                assert(self@.disk[i as int] == disk_file_view(self.disk@[i as int]));
            }
            i = i + 1;
        }
        None
    }

    /// Acquires a file under `path` with the given access rights and
    /// creation disposition.  Opening an existing file succeeds exactly when
    /// the path is on the disk; creating a new one exactly when it is not;
    /// open-or-create always succeeds.  No handle exists on any failure
    /// path, and a failed call leaves the disk untouched.
    pub fn create_file(&mut self, path: &str, access: GENERIC, disp: DISPOSITION) -> (r: SysResult<
        u64,
    >)
        requires
            old(self)@.inv(),
        ensures
            final(self)@.inv(),
            old(self)@.refuses() ==> r == Err::<u64, ERROR>(ERROR(8)) && final(self)@ == old(
                self,
            )@.denied(),
            !old(self)@.refuses() && disp.0 != 1 && disp.0 != 3 && disp.0 != 4 ==> r == Err::<
                u64,
                ERROR,
            >(ERROR(87)) && final(self)@ == old(self)@,
            !old(self)@.refuses() && disp.0 == 3 && !old(self)@.has_file(path@) ==> r == Err::<
                u64,
                ERROR,
            >(ERROR(2)) && final(self)@ == old(self)@,
            !old(self)@.refuses() && disp.0 == 1 && old(self)@.has_file(path@) ==> r == Err::<
                u64,
                ERROR,
            >(ERROR(183)) && final(self)@ == old(self)@,
            !old(self)@.refuses() && (disp.0 == 3 || disp.0 == 4) && old(self)@.has_file(path@)
                ==> r == Ok::<u64, ERROR>(old(self)@.fresh()) && final(self)@ == old(
                self,
            )@.allocated(
                SlotV::File {
                    disk_i: old(self)@.disk_index_of(path@),
                    pos: 0,
                    access: access.0,
                },
            ),
            !old(self)@.refuses() && (disp.0 == 1 || disp.0 == 4) && !old(self)@.has_file(path@)
                ==> r == Ok::<u64, ERROR>(old(self)@.fresh()) && final(self)@ == old(
                self,
            )@.with_new_file(path@).allocated(
                SlotV::File { disk_i: old(self)@.disk.len() as int, pos: 0, access: access.0 },
            ),
    {
        if self.deny {
            self.deny = false;
            return Err(ERROR::not_enough_memory());
        }
        if self.slots.len() as u64 >= HANDLE_LIMIT {
            return Err(ERROR::not_enough_memory());
        }
        if disp.0 != 1 && disp.0 != 3 && disp.0 != 4 {
            return Err(ERROR::invalid_parameter());
        }
        let p: String = path.to_owned();
        let found = self.find_disk(&p);
        match found {
            Some(i) => {
                proof {
                    lemma_disk_index_unique(self@, i as int);
                }
                if disp.0 == 1 {
                    return Err(ERROR::already_exists());
                }
                self.allocate(Slot::File { disk_i: i, pos: 0, access: access.0 })
            },
            None => {
                proof {
                    assert(!self@.has_file(path@));
                }
                if disp.0 == 3 {
                    return Err(ERROR::file_not_found());
                }
                let di = self.disk.len();
                let entry = DiskFile {
                    path: p,
                    data: Vec::new(),
                    created: self.now,
                    written: self.now,
                };
                proof {
                    assert(disk_file_view(entry) =~= (DiskFileV {
                        path: path@,
                        data: Seq::empty(),
                        created: old(self)@.now,
                        written: old(self)@.now,
                    }));
                }
                self.disk.push(entry);
                proof {
                    assert(self@.disk =~= old(self)@.with_new_file(path@).disk);
                    assert(self@ =~= old(self)@.with_new_file(path@));
                    assert forall|a: int| 0 <= a < self@.slots.len() implies slot_wf(
                        #[trigger] self@.slots[a],
                        self@.disk.len(),
                    ) by {
                        assert(slot_wf(old(self)@.slots[a], old(self)@.disk.len()));
                    }
                    assert forall|a: int, b: int| 0 <= a < b < self@.disk.len() implies self@.disk[a].path
                        != self@.disk[b].path by {
                        if b < self@.disk.len() - 1 {
                            assert(old(self)@.disk[a].path != old(self)@.disk[b].path);
                        } else {
                            assert(old(self)@.disk[a].path != path@);
                        }
                    }
                    assert(self@.inv());
                }
                self.allocate(Slot::File { disk_i: di, pos: 0, access: access.0 })
            },
        }
    }

    /// Releases a kernel object (an open file).  Succeeds exactly on a live
    /// file handle; a failed call changes nothing.
    pub fn close_handle(&mut self, h: u64) -> (r: SysResult<()>)
        requires
            old(self)@.inv(),
        ensures
            final(self)@.inv(),
            old(self)@.live_file(h) ==> r == Ok::<(), ERROR>(()) && final(self)@ == old(
                self,
            )@.released_at(h),
            !old(self)@.live_file(h) ==> r == Err::<(), ERROR>(ERROR(6)) && final(self)@ == old(
                self,
            )@,
    {
        if h == 0 || h > self.slots.len() as u64 {
            return Err(ERROR::invalid_handle());
        }
        let i: usize = (h - 1) as usize;
        let live = match &self.slots[i] {
            Slot::File { .. } => true,
            _ => false,
        };
        if !live {
            return Err(ERROR::invalid_handle());
        }
        self.kill(h);
        Ok(())
    }

    /// The fields of the file slot behind `h`, if it is live.
    fn file_slot(&self, h: u64) -> (r: Option<(usize, u64, u32)>)
        requires
            self@.inv(),
        ensures
            match r {
                Some((di, pos, access)) => self@.live_file(h) && di as int == self@.file_disk(h)
                    && pos as int == self@.file_pos(h) && access == self@.file_access(h) && (
                di as int) < self@.disk.len() && pos <= 0x7FFF_FFFF_FFFF_FFFFu64,
                None => !self@.live_file(h),
            },
    {
        if h == 0 || h > self.slots.len() as u64 {
            return None;
        }
        let i: usize = (h - 1) as usize;
        match &self.slots[i] {
            Slot::File { disk_i, pos, access } => {
                proof {
                    assert(self@.slots[h - 1] == slot_view(self.slots@[i as int]));
                    assert(slot_wf(self@.slots[h - 1], self@.disk.len()));
                }
                Some((*disk_i, *pos, *access))
            },
            _ => None,
        }
    }

    /// The size of the file behind `h`.  Succeeds exactly on a live file
    /// handle.
    pub fn get_file_size(&self, h: u64) -> (r: SysResult<u64>)
        requires
            self@.inv(),
        ensures
            self@.live_file(h) ==> r == Ok::<u64, ERROR>(self@.file_data(h).len() as u64),
            !self@.live_file(h) ==> r == Err::<u64, ERROR>(ERROR(6)),
    {
        match self.file_slot(h) {
            None => Err(ERROR::invalid_handle()),
            Some((di, _, _)) => {
                proof {
                    assert(self@.disk[di as int] == disk_file_view(self.disk@[di as int]));
                }
                Ok(self.disk[di].data.len() as u64)
            },
        }
    }

    /// The creation and last write times of the file behind `h`, in clock
    /// ticks.  Succeeds exactly on a live file handle.
    pub fn get_file_time(&self, h: u64) -> (r: SysResult<(u64, u64)>)
        requires
            self@.inv(),
        ensures
            self@.live_file(h) ==> r == Ok::<(u64, u64), ERROR>(
                (
                    self@.disk[self@.file_disk(h)].created,
                    self@.disk[self@.file_disk(h)].written,
                ),
            ),
            !self@.live_file(h) ==> r == Err::<(u64, u64), ERROR>(ERROR(6)),
    {
        match self.file_slot(h) {
            None => Err(ERROR::invalid_handle()),
            Some((di, _, _)) => {
                proof {
                    assert(self@.disk[di as int] == disk_file_view(self.disk@[di as int]));
                }
                Ok((self.disk[di].created, self.disk[di].written))
            },
        }
    }

    /// Moves the pointer of the file behind `h` by `distance` from the
    /// given origin and returns the new position.  A move before the start
    /// of the file or beyond the signed range fails and changes nothing.
    pub fn set_file_pointer(&mut self, h: u64, distance: i64, from: FILE_STARTING_POINT) -> (r:
        SysResult<u64>)
        requires
            old(self)@.inv(),
        ensures
            final(self)@.inv(),
            !old(self)@.live_file(h) ==> r == Err::<u64, ERROR>(ERROR(6)) && final(self)@ == old(
                self,
            )@,
            old(self)@.live_file(h) ==> {
                let base = match from {
                    FILE_STARTING_POINT::BEGIN => 0,
                    FILE_STARTING_POINT::CURRENT => old(self)@.file_pos(h),
                    FILE_STARTING_POINT::END => old(self)@.file_data(h).len() as int,
                };
                &&& (base + distance < 0) ==> r == Err::<u64, ERROR>(ERROR(131)) && final(self)@
                    == old(self)@
                &&& (base + distance > 0x7FFF_FFFF_FFFF_FFFFu64) ==> r == Err::<u64, ERROR>(
                    ERROR(87),
                ) && final(self)@ == old(self)@
                &&& (0 <= base + distance <= 0x7FFF_FFFF_FFFF_FFFFu64) ==> r == Ok::<u64, ERROR>(
                    (base + distance) as u64,
                ) && final(self)@ == old(self)@.with_file_pos(h, base + distance)
            },
    {
        match self.file_slot(h) {
            None => Err(ERROR::invalid_handle()),
            Some((di, pos, access)) => {
                proof {
                    assert(self@.disk[di as int] == disk_file_view(self.disk@[di as int]));
                    assert(self@.disk[di as int].data.len() <= 0x7FFF_FFFF_FFFF_FFFFu64);
                }
                let base: u64 = match from {
                    FILE_STARTING_POINT::BEGIN => 0,
                    FILE_STARTING_POINT::CURRENT => pos,
                    FILE_STARTING_POINT::END => self.disk[di].data.len() as u64,
                };
                let target: i128 = base as i128 + distance as i128;
                if target < 0 {
                    return Err(ERROR::negative_seek());
                }
                if target > 0x7FFF_FFFF_FFFF_FFFFi128 {
                    return Err(ERROR::invalid_parameter());
                }
                let newpos: u64 = target as u64;
                let i: usize = (h - 1) as usize;
                self.slots[i] = Slot::File { disk_i: di, pos: newpos, access };
                proof {
                    assert(self@.slots =~= old(self)@.slots.update(
                        h - 1,
                        SlotV::File { disk_i: di as int, pos: newpos as int, access },
                    ));
                    assert(self@ =~= old(self)@.with_file_pos(h, newpos as int));
                    lemma_inv_updated(
                        old(self)@,
                        h,
                        SlotV::File { disk_i: di as int, pos: newpos as int, access },
                    );
                }
                Ok(newpos)
            },
        }
    }

    /// Reads at most `buf.len()` bytes of the file behind `h` into the
    /// front of `buf`, starting at the pointer, and moves the pointer by the
    /// number of bytes read.  Reading past the end returns the bytes that
    /// are there; the rest of the buffer is untouched.
    pub fn read_file(&mut self, h: u64, buf: &mut Vec<u8>) -> (r: SysResult<u32>)
        requires
            old(self)@.inv(),
            old(buf)@.len() <= 0xFFFF_FFFFusize,
        ensures
            final(self)@.inv(),
            !old(self)@.live_file(h) ==> r == Err::<u32, ERROR>(ERROR(6)) && final(self)@ == old(
                self,
            )@ && final(buf)@ == old(buf)@,
            old(self)@.live_file(h) ==> r == Ok::<u32, ERROR>(
                old(self)@.read_len(h, old(buf)@.len()) as u32,
            ) && final(buf)@ == old(self)@.read_result(h, old(buf)@.len()) + old(buf)@.skip(
                old(self)@.read_len(h, old(buf)@.len()),
            ) && final(self)@ == old(self)@.with_file_pos(
                h,
                old(self)@.file_pos(h) + old(self)@.read_len(h, old(buf)@.len()),
            ),
    {
        match self.file_slot(h) {
            None => Err(ERROR::invalid_handle()),
            Some((di, pos, access)) => {
                proof {
                    assert(self@.disk[di as int] == disk_file_view(self.disk@[di as int]));
                }
                let len = self.disk[di].data.len();
                let avail: u64 = if pos >= len as u64 {
                    0
                } else {
                    len as u64 - pos
                };
                let want = buf.len();
                let n: usize = if (want as u64) <= avail {
                    want
                } else {
                    avail as usize
                };
                proof {
                    assert(n as int == self@.read_len(h, old(buf)@.len()));
                    assert(n > 0 ==> pos + n <= len);
                }
                let mut k: usize = 0;
                while k < n
                    invariant
                        k <= n,
                        n <= buf@.len(),
                        buf@.len() == old(buf)@.len(),
                        self == old(self),
                        self@.inv(),
                        self@.live_file(h),
                        di as int == self@.file_disk(h),
                        pos as int == self@.file_pos(h),
                        (di as int) < self@.disk.len(),
                        n > 0 ==> pos + n <= self@.file_data(h).len(),
                        len as int == self@.file_data(h).len(),
                        forall|j: int|
                            0 <= j < k ==> buf@[j] == self@.file_data(h)[pos + j],
                        forall|j: int| k <= j < buf@.len() ==> buf@[j] == old(buf)@[j],
                    decreases n - k,
                {
                    proof {
                        assert(self@.disk[di as int] == disk_file_view(self.disk@[di as int]));
                        assert(self@.file_data(h) == self.disk@[di as int].data@);
                        assert(pos + k < len);
                    }
                    let idx: usize = (pos + k as u64) as usize;
                    proof {
                        assert(idx as int == pos + k);
                    }
                    let b = self.disk[di].data[idx];
                    buf[k] = b;
                    k = k + 1;
                }
                let i: usize = (h - 1) as usize;
                self.slots[i] = Slot::File { disk_i: di, pos: pos + n as u64, access };
                proof {
                    assert(buf@.len() == old(buf)@.len());
                    assert forall|j: int| 0 <= j < buf@.len() implies buf@[j] == (old(
                        self,
                    )@.read_result(h, old(buf)@.len()) + old(buf)@.skip(n as int))[j] by {
                        if j < n {
                            assert(buf@[j] == old(self)@.file_data(h)[pos + j]);
                        } else {
                            assert(buf@[j] == old(buf)@[j]);
                        }
                    }
                    assert(buf@ =~= old(self)@.read_result(h, old(buf)@.len()) + old(buf)@.skip(
                        n as int,
                    ));
                    assert(self@.slots =~= old(self)@.slots.update(
                        h - 1,
                        SlotV::File {
                            disk_i: di as int,
                            pos: pos + n as u64,
                            access,
                        },
                    ));
                    assert(self@ =~= old(self)@.with_file_pos(h, pos as int + n as int));
                    lemma_inv_updated(
                        old(self)@,
                        h,
                        SlotV::File { disk_i: di as int, pos: pos as int + n as int, access },
                    );
                }
                Ok(n as u32)
            },
        }
    }

    /// The largest byte count a file may end at on this platform.
    fn size_limit() -> (r: u64)
        ensures
            r as int == size_limit(),
    {
        if (usize::MAX as u64) < 0x7FFF_FFFF_FFFF_FFFFu64 {
            usize::MAX as u64
        } else {
            0x7FFF_FFFF_FFFF_FFFFu64
        }
    }

    /// Writes `data` into the file behind `h` at the pointer, padding with
    /// zeros if the pointer lies past the end, keeping bytes beyond the
    /// written range, and moving the pointer past the written bytes.  Fails
    /// without effect on a dead handle, a file opened read-only, or a write
    /// that would pass the platform's size limit.
    pub fn write_file(&mut self, h: u64, data: &[u8]) -> (r: SysResult<u32>)
        requires
            old(self)@.inv(),
            data@.len() <= 0xFFFF_FFFFusize,
        ensures
            final(self)@.inv(),
            !old(self)@.live_file(h) ==> r == Err::<u32, ERROR>(ERROR(6)) && final(self)@ == old(
                self,
            )@,
            old(self)@.live_file(h) && !old(self)@.file_writable(h) ==> r == Err::<u32, ERROR>(
                ERROR(5),
            ) && final(self)@ == old(self)@,
            old(self)@.live_file(h) && old(self)@.file_writable(h) && old(self)@.file_pos(h)
                + data@.len() > size_limit() ==> r == Err::<u32, ERROR>(ERROR(112)) && final(self)@
                == old(self)@,
            old(self)@.live_file(h) && old(self)@.file_writable(h) && old(self)@.file_pos(h)
                + data@.len() <= size_limit() ==> r == Ok::<u32, ERROR>(data@.len() as u32)
                && final(self)@ == old(self)@.with_disk_data(
                old(self)@.file_disk(h),
                spliced(old(self)@.file_data(h), old(self)@.file_pos(h), data@),
                old(self)@.now,
            ).with_file_pos(h, old(self)@.file_pos(h) + data@.len()),
    {
        match self.file_slot(h) {
            None => Err(ERROR::invalid_handle()),
            Some((di, pos, access)) => {
                if access & 0x4000_0000u32 != 0x4000_0000u32 {
                    return Err(ERROR::access_denied());
                }
                let n = data.len();
                let lim = Self::size_limit();
                if n as u64 > lim || pos > lim - n as u64 {
                    return Err(ERROR::disk_full());
                }
                proof {
                    assert(self@.disk[di as int] == disk_file_view(self.disk@[di as int]));
                }
                let ghost base = self@.file_data(h);
                let ghost target = spliced(base, pos as int, data@);
                let pos_us: usize = pos as usize;
                let old_len = self.disk[di].data.len();
                let path_c = self.disk[di].path.clone();
                let created = self.disk[di].created;
                let keep: usize = if pos_us < old_len {
                    pos_us
                } else {
                    old_len
                };
                let mut out: Vec<u8> = Vec::new();
                let mut k: usize = 0;
                while k < keep
                    invariant
                        k <= keep,
                        keep <= base.len(),
                        base == self.disk@[di as int].data@,
                        (di as int) < self.disk@.len(),
                        out@.len() == k,
                        self == old(self),
                        forall|j: int| 0 <= j < k ==> out@[j] == base[j],
                    decreases keep - k,
                {
                    let b = self.disk[di].data[k];
                    out.push(b);
                    k = k + 1;
                }
                while out.len() < pos_us
                    invariant
                        keep <= out@.len(),
                        out@.len() <= pos_us || out@.len() == keep,
                        base == self.disk@[di as int].data@,
                        (di as int) < self.disk@.len(),
                        self == old(self),
                        forall|j: int| 0 <= j < keep ==> out@[j] == base[j],
                        forall|j: int| keep <= j < out@.len() ==> out@[j] == 0u8,
                    decreases pos_us - out.len(),
                {
                    out.push(0u8);
                }
                proof {
                    assert(out@.len() == pos_us);
                }
                k = 0;
                while k < n
                    invariant
                        k <= n,
                        n == data@.len(),
                        keep <= pos_us,
                        out@.len() == pos_us + k,
                        self == old(self),
                        forall|j: int| 0 <= j < keep ==> out@[j] == base[j],
                        forall|j: int| keep <= j < pos_us ==> out@[j] == 0u8,
                        forall|j: int| 0 <= j < k ==> out@[pos_us + j] == data@[j],
                    decreases n - k,
                {
                    let b = data[k];
                    out.push(b);
                    k = k + 1;
                }
                let mut t: usize = pos_us + n;
                while t < old_len
                    invariant
                        keep <= pos_us,
                        pos_us + n <= t,
                        t <= old_len || t == pos_us + n,
                        old_len == base.len(),
                        base == self.disk@[di as int].data@,
                        (di as int) < self.disk@.len(),
                        self == old(self),
                        out@.len() == t,
                        forall|j: int| 0 <= j < keep ==> out@[j] == base[j],
                        forall|j: int| keep <= j < pos_us ==> out@[j] == 0u8,
                        forall|j: int| 0 <= j < n ==> out@[pos_us + j] == data@[j],
                        forall|j: int| pos_us + n <= j < t ==> out@[j] == base[j],
                    decreases old_len - t,
                {
                    let b = self.disk[di].data[t];
                    out.push(b);
                    t = t + 1;
                }
                proof {
                    assert(out@.len() == target.len());
                    assert forall|j: int| 0 <= j < out@.len() implies out@[j] == target[j] by {
                    }
                    assert(out@ =~= target);
                }
                let wr = self.now;
                self.disk[di] = DiskFile { path: path_c, data: out, created, written: wr };
                proof {
                    assert(disk_file_view(self.disk@[di as int]) =~= (DiskFileV {
                        path: old(self)@.disk[di as int].path,
                        data: target,
                        created: old(self)@.disk[di as int].created,
                        written: wr,
                    }));
                    assert(self@.disk =~= old(self)@.with_disk_data(di as int, target, wr).disk);
                    assert(self@ =~= old(self)@.with_disk_data(di as int, target, wr));
                }
                let ghost mid = self@;
                let i: usize = (h - 1) as usize;
                self.slots[i] = Slot::File { disk_i: di, pos: pos + n as u64, access };
                proof {
                    assert(self@.slots =~= mid.slots.update(
                        h - 1,
                        SlotV::File { disk_i: di as int, pos: pos + n as u64, access },
                    ));
                    assert(mid.file_disk(h) == di as int);
                    assert(mid.file_access(h) == access);
                    assert(self@ =~= mid.with_file_pos(h, pos as int + n as int));
                    lemma_inv_disk_data(old(self)@, di as int, target, wr);
                    lemma_inv_updated(
                        mid,
                        h,
                        SlotV::File { disk_i: di as int, pos: pos as int + n as int, access },
                    );
                }
                Ok(n as u32)
            },
        }
    }

    /// Cuts the file behind `h` at the pointer, or zero-pads it up to the
    /// pointer if the pointer lies past the end.  The pointer itself does
    /// not move.  Fails without effect on a dead handle, a file opened
    /// read-only, or a pointer beyond the platform's size limit.
    pub fn set_end_of_file(&mut self, h: u64) -> (r: SysResult<()>)
        requires
            old(self)@.inv(),
        ensures
            final(self)@.inv(),
            !old(self)@.live_file(h) ==> r == Err::<(), ERROR>(ERROR(6)) && final(self)@ == old(
                self,
            )@,
            old(self)@.live_file(h) && !old(self)@.file_writable(h) ==> r == Err::<(), ERROR>(
                ERROR(5),
            ) && final(self)@ == old(self)@,
            old(self)@.live_file(h) && old(self)@.file_writable(h) && old(self)@.file_pos(h)
                > size_limit() ==> r == Err::<(), ERROR>(ERROR(112)) && final(self)@ == old(self)@,
            old(self)@.live_file(h) && old(self)@.file_writable(h) && old(self)@.file_pos(h)
                <= size_limit() ==> r == Ok::<(), ERROR>(()) && final(self)@ == old(
                self,
            )@.with_disk_data(
                old(self)@.file_disk(h),
                sized_to(old(self)@.file_data(h), old(self)@.file_pos(h)),
                old(self)@.now,
            ),
    {
        match self.file_slot(h) {
            None => Err(ERROR::invalid_handle()),
            Some((di, pos, access)) => {
                if access & 0x4000_0000u32 != 0x4000_0000u32 {
                    return Err(ERROR::access_denied());
                }
                let lim = Self::size_limit();
                if pos > lim {
                    return Err(ERROR::disk_full());
                }
                proof {
                    assert(self@.disk[di as int] == disk_file_view(self.disk@[di as int]));
                }
                let ghost base = self@.file_data(h);
                let ghost target = sized_to(base, pos as int);
                let pos_us: usize = pos as usize;
                let old_len = self.disk[di].data.len();
                let path_c = self.disk[di].path.clone();
                let created = self.disk[di].created;
                let end: usize = if pos_us < old_len {
                    pos_us
                } else {
                    old_len
                };
                let mut out: Vec<u8> = Vec::new();
                let mut k: usize = 0;
                while k < end
                    invariant
                        k <= end,
                        end <= base.len(),
                        base == self.disk@[di as int].data@,
                        (di as int) < self.disk@.len(),
                        out@.len() == k,
                        self == old(self),
                        forall|j: int| 0 <= j < k ==> out@[j] == base[j],
                    decreases end - k,
                {
                    let b = self.disk[di].data[k];
                    out.push(b);
                    k = k + 1;
                }
                while out.len() < pos_us
                    invariant
                        end <= out@.len(),
                        out@.len() <= pos_us || out@.len() == end,
                        self == old(self),
                        base == self.disk@[di as int].data@,
                        (di as int) < self.disk@.len(),
                        forall|j: int| 0 <= j < end ==> out@[j] == base[j],
                        forall|j: int| end <= j < out@.len() ==> out@[j] == 0u8,
                    decreases pos_us - out.len(),
                {
                    out.push(0u8);
                }
                proof {
                    assert(out@.len() == pos_us);
                    assert(out@.len() == target.len());
                    assert forall|j: int| 0 <= j < out@.len() implies out@[j] == target[j] by {
                    }
                    assert(out@ =~= target);
                }
                let wr = self.now;
                self.disk[di] = DiskFile { path: path_c, data: out, created, written: wr };
                proof {
                    assert(disk_file_view(self.disk@[di as int]) =~= (DiskFileV {
                        path: old(self)@.disk[di as int].path,
                        data: target,
                        created: old(self)@.disk[di as int].created,
                        written: wr,
                    }));
                    assert(self@.disk =~= old(self)@.with_disk_data(di as int, target, wr).disk);
                    assert(self@ =~= old(self)@.with_disk_data(di as int, target, wr));
                    lemma_inv_disk_data(old(self)@, di as int, target, wr);
                }
                Ok(())
            },
        }
    }

    /// Creates a list view control: a window that carries item state.
    pub fn create_list_view(&mut self) -> (r: SysResult<u64>)
        requires
            old(self)@.inv(),
        ensures
            final(self)@.inv(),
            acquired(
                old(self)@,
                final(self)@,
                r,
                SlotV::ListView { items: Seq::empty(), next_item_id: 1, top: 0, page: 8 },
            ),
    {
        let slot = Slot::ListView { items: Vec::new(), next_item_id: 1, top: 0, page: 8 };
        proof {
            assert(slot_view(slot) =~= (SlotV::ListView {
                items: Seq::empty(),
                next_item_id: 1,
                top: 0,
                page: 8,
            }));
        }
        self.allocate(slot)
    }

    /// The number of items of the list view behind `h`.  Succeeds exactly
    /// on a live list view handle.
    pub fn lv_item_count(&self, h: u64) -> (r: SysResult<u32>)
        requires
            self@.inv(),
        ensures
            self@.live_lv(h) ==> r == Ok::<u32, ERROR>(self@.lv_items(h).len() as u32),
            !self@.live_lv(h) ==> r == Err::<u32, ERROR>(ERROR(6)),
    {
        if h == 0 || h > self.slots.len() as u64 {
            return Err(ERROR::invalid_handle());
        }
        let i: usize = (h - 1) as usize;
        proof {
            assert(self@.slots[h - 1] == slot_view(self.slots@[i as int]));
            assert(slot_wf(self@.slots[h - 1], self@.disk.len()));
        }
        match &self.slots[i] {
            Slot::ListView { items, .. } => Ok(items.len() as u32),
            _ => Err(ERROR::invalid_handle()),
        }
    }

    /// The first visible item index of the list view behind `h`.
    pub fn lv_top_index(&self, h: u64) -> (r: SysResult<u32>)
        requires
            self@.inv(),
        ensures
            self@.live_lv(h) ==> r == Ok::<u32, ERROR>(self@.lv_top(h)),
            !self@.live_lv(h) ==> r == Err::<u32, ERROR>(ERROR(6)),
    {
        if h == 0 || h > self.slots.len() as u64 {
            return Err(ERROR::invalid_handle());
        }
        let i: usize = (h - 1) as usize;
        proof {
            assert(self@.slots[h - 1] == slot_view(self.slots@[i as int]));
        }
        match &self.slots[i] {
            Slot::ListView { top, .. } => Ok(*top),
            _ => Err(ERROR::invalid_handle()),
        }
    }

    /// Appends an item with one column of text and an application datum,
    /// and returns its index.  The item gets a fresh stable identifier.
    /// Fails without effect on a dead handle or a full control.
    pub fn lv_insert_item(&mut self, h: u64, text: &str, lparam: u64) -> (r: SysResult<u32>)
        requires
            old(self)@.inv(),
        ensures
            final(self)@.inv(),
            !old(self)@.live_lv(h) ==> r == Err::<u32, ERROR>(ERROR(6)) && final(self)@ == old(self)@,
            old(self)@.live_lv(h) && (old(self)@.lv_items(h).len() >= 0xFFFF_FFFEu32 || old(self)@.lv_next_id(h) == u32::MAX) ==> r == Err::<u32, ERROR>(ERROR(8)) && final(self)@ == old(self)@,
            old(self)@.live_lv(h) && old(self)@.lv_items(h).len() < 0xFFFF_FFFEu32 && old(self)@.lv_next_id(h) < u32::MAX ==> r == Ok::<u32, ERROR>(old(self)@.lv_items(h).len() as u32)
                && final(self)@ == old(self)@.with_lv(
                h,
                old(self)@.lv_items(h).push(
                    LvItemV {
                        id: old(self)@.lv_next_id(h),
                        state: 0,
                        icon: -1i32,
                        lparam,
                        texts: seq![text@],
                    },
                ),
                (old(self)@.lv_next_id(h) + 1) as u32,
                old(self)@.lv_top(h),
            ),
    {
        if h == 0 || h > self.slots.len() as u64 {
            return Err(ERROR::invalid_handle());
        }
        let i: usize = (h - 1) as usize;
        let is_lv = match &self.slots[i] {
            Slot::ListView { .. } => true,
            _ => false,
        };
        if !is_lv {
            return Err(ERROR::invalid_handle());
        }
        let mut slot = Slot::Dead;
        std::mem::swap(&mut slot, &mut self.slots[i]);
        match slot {
            Slot::ListView { mut items, next_item_id, top, page } => {
                if items.len() >= 0xFFFF_FFFEusize || next_item_id == u32::MAX {
                    self.slots[i] = Slot::ListView { items, next_item_id, top, page };
                    proof {
                        assert(self@.slots =~= old(self)@.slots);
                        assert(self@ =~= old(self)@);
                    }
                    return Err(ERROR::not_enough_memory());
                }
                let index = items.len() as u32;
                let mut texts: Vec<String> = Vec::new();
                texts.push(text.to_owned());
                let it = LvItem { id: next_item_id, state: 0, icon: -1i32, lparam, texts };
                proof {
                    assert(lv_item_view(it).texts =~= seq![text@]);
                    assert(lv_item_view(it) =~= (LvItemV {
                        id: next_item_id,
                        state: 0,
                        icon: -1i32,
                        lparam,
                        texts: seq![text@],
                    }));
                }
                items.push(it);
                self.slots[i] = Slot::ListView { items, next_item_id: next_item_id + 1, top, page };
                proof {
                    assert(self@.slots =~~= old(self)@.with_lv(
                        h,
                        old(self)@.lv_items(h).push(
                            LvItemV {
                                id: old(self)@.lv_next_id(h),
                                state: 0,
                                icon: -1i32,
                                lparam,
                                texts: seq![text@],
                            },
                        ),
                        (old(self)@.lv_next_id(h) + 1) as u32,
                        old(self)@.lv_top(h),
                    ).slots);
                    assert(self@ =~~= old(self)@.with_lv(
                        h,
                        old(self)@.lv_items(h).push(
                            LvItemV {
                                id: old(self)@.lv_next_id(h),
                                state: 0,
                                icon: -1i32,
                                lparam,
                                texts: seq![text@],
                            },
                        ),
                        (old(self)@.lv_next_id(h) + 1) as u32,
                        old(self)@.lv_top(h),
                    ));
                    lemma_inv_updated(old(self)@, h, self@.slot(h));
                }
                Ok(index)
            },
            _ => {
                proof {
                    assert(false);
                }
                Err(ERROR::invalid_handle())
            },
        }
    }

    /// Removes the item at `index`; later items shift down by one.
    /// Succeeds exactly on a live list view and an index in range.
    pub fn lv_delete_item(&mut self, h: u64, index: u32) -> (r: SysResult<()>)
        requires
            old(self)@.inv(),
        ensures
            final(self)@.inv(),
            !old(self)@.live_lv(h) ==> r == Err::<(), ERROR>(ERROR(6)) && final(self)@ == old(self)@,
            old(self)@.live_lv(h) && index >= old(self)@.lv_items(h).len() ==> r == Err::<(), ERROR>(ERROR(87)) && final(self)@ == old(self)@,
            old(self)@.live_lv(h) && index < old(self)@.lv_items(h).len() ==> r == Ok::<(), ERROR>(())
                && final(self)@ == old(self)@.with_lv(
                h,
                old(self)@.lv_items(h).remove(index as int),
                old(self)@.lv_next_id(h),
                old(self)@.lv_top(h),
            ),
    {
        if h == 0 || h > self.slots.len() as u64 {
            return Err(ERROR::invalid_handle());
        }
        let i: usize = (h - 1) as usize;
        let is_lv = match &self.slots[i] {
            Slot::ListView { .. } => true,
            _ => false,
        };
        if !is_lv {
            return Err(ERROR::invalid_handle());
        }
        let mut slot = Slot::Dead;
        std::mem::swap(&mut slot, &mut self.slots[i]);
        match slot {
            Slot::ListView { mut items, next_item_id, top, page } => {
                if index as usize >= items.len() {
                    self.slots[i] = Slot::ListView { items, next_item_id, top, page };
                    proof {
                        assert(self@.slots =~= old(self)@.slots);
                        assert(self@ =~= old(self)@);
                    }
                    return Err(ERROR::invalid_parameter());
                }
                items.remove(index as usize);
                self.slots[i] = Slot::ListView { items, next_item_id, top, page };
                proof {
                    assert(self@.slots =~~= old(self)@.with_lv(
                        h,
                        old(self)@.lv_items(h).remove(index as int),
                        old(self)@.lv_next_id(h),
                        old(self)@.lv_top(h),
                    ).slots);
                    assert(self@ =~~= old(self)@.with_lv(
                        h,
                        old(self)@.lv_items(h).remove(index as int),
                        old(self)@.lv_next_id(h),
                        old(self)@.lv_top(h),
                    ));
                    lemma_inv_updated(old(self)@, h, self@.slot(h));
                }
                Ok(())
            },
            _ => {
                proof {
                    assert(false);
                }
                Err(ERROR::invalid_handle())
            },
        }
    }

    /// The fields of item `index` of the list view behind `h`, texts
    /// aside.  Succeeds exactly on a live list view and an index in range.
    fn lv_item_fields(&self, h: u64, index: u32) -> (r: SysResult<(u32, u32, i32, u64)>)
        requires
            self@.inv(),
        ensures
            !self@.live_lv(h) ==> r == Err::<(u32, u32, i32, u64), ERROR>(ERROR(6)),
            self@.live_lv(h) && index >= self@.lv_items(h).len() ==> r == Err::<
                (u32, u32, i32, u64),
                ERROR,
            >(ERROR(87)),
            self@.live_lv(h) && index < self@.lv_items(h).len() ==> r == Ok::<
                (u32, u32, i32, u64),
                ERROR,
            >(
                (
                    self@.lv_items(h)[index as int].id,
                    self@.lv_items(h)[index as int].state,
                    self@.lv_items(h)[index as int].icon,
                    self@.lv_items(h)[index as int].lparam,
                ),
            ),
    {
        if h == 0 || h > self.slots.len() as u64 {
            return Err(ERROR::invalid_handle());
        }
        let i: usize = (h - 1) as usize;
        proof {
            assert(self@.slots[h - 1] == slot_view(self.slots@[i as int]));
        }
        match &self.slots[i] {
            Slot::ListView { items, .. } => {
                if index as usize >= items.len() {
                    return Err(ERROR::invalid_parameter());
                }
                let it = &items[index as usize];
                proof {
                    assert(self@.lv_items(h)[index as int] == lv_item_view(
                        items@[index as int],
                    ));
                }
                Ok((it.id, it.state, it.icon, it.lparam))
            },
            _ => Err(ERROR::invalid_handle()),
        }
    }

    /// The state bits of item `index`, masked by `mask`.
    pub fn lv_get_item_state(&self, h: u64, index: u32, mask: u32) -> (r: SysResult<u32>)
        requires
            self@.inv(),
        ensures
            !self@.live_lv(h) ==> r == Err::<u32, ERROR>(ERROR(6)),
            self@.live_lv(h) && index >= self@.lv_items(h).len() ==> r == Err::<u32, ERROR>(
                ERROR(87),
            ),
            self@.live_lv(h) && index < self@.lv_items(h).len() ==> r == Ok::<u32, ERROR>(
                self@.lv_items(h)[index as int].state & mask,
            ),
    {
        match self.lv_item_fields(h, index) {
            Ok((_, state, _, _)) => Ok(state & mask),
            Err(e) => Err(e),
        }
    }

    /// The stable identifier of item `index`.
    pub fn lv_map_index_to_id(&self, h: u64, index: u32) -> (r: SysResult<u32>)
        requires
            self@.inv(),
        ensures
            !self@.live_lv(h) ==> r == Err::<u32, ERROR>(ERROR(6)),
            self@.live_lv(h) && index >= self@.lv_items(h).len() ==> r == Err::<u32, ERROR>(
                ERROR(87),
            ),
            self@.live_lv(h) && index < self@.lv_items(h).len() ==> r == Ok::<u32, ERROR>(
                self@.lv_items(h)[index as int].id,
            ),
    {
        match self.lv_item_fields(h, index) {
            Ok((id, _, _, _)) => Ok(id),
            Err(e) => Err(e),
        }
    }

    /// The icon index of item `index`, `-1` for none.
    pub fn lv_get_item_icon(&self, h: u64, index: u32) -> (r: SysResult<i32>)
        requires
            self@.inv(),
        ensures
            !self@.live_lv(h) ==> r == Err::<i32, ERROR>(ERROR(6)),
            self@.live_lv(h) && index >= self@.lv_items(h).len() ==> r == Err::<i32, ERROR>(
                ERROR(87),
            ),
            self@.live_lv(h) && index < self@.lv_items(h).len() ==> r == Ok::<i32, ERROR>(
                self@.lv_items(h)[index as int].icon,
            ),
    {
        match self.lv_item_fields(h, index) {
            Ok((_, _, icon, _)) => Ok(icon),
            Err(e) => Err(e),
        }
    }

    /// The application datum of item `index`.
    pub fn lv_get_item_lparam(&self, h: u64, index: u32) -> (r: SysResult<u64>)
        requires
            self@.inv(),
        ensures
            !self@.live_lv(h) ==> r == Err::<u64, ERROR>(ERROR(6)),
            self@.live_lv(h) && index >= self@.lv_items(h).len() ==> r == Err::<u64, ERROR>(
                ERROR(87),
            ),
            self@.live_lv(h) && index < self@.lv_items(h).len() ==> r == Ok::<u64, ERROR>(
                self@.lv_items(h)[index as int].lparam,
            ),
    {
        match self.lv_item_fields(h, index) {
            Ok((_, _, _, lparam)) => Ok(lparam),
            Err(e) => Err(e),
        }
    }

    /// The text of column `col` of item `index`; a column never set reads
    /// as empty.
    pub fn lv_get_item_text(&self, h: u64, index: u32, col: u32) -> (r: SysResult<String>)
        requires
            self@.inv(),
        ensures
            !self@.live_lv(h) ==> r == Err::<String, ERROR>(ERROR(6)),
            self@.live_lv(h) && index >= self@.lv_items(h).len() ==> r == Err::<String, ERROR>(
                ERROR(87),
            ),
            self@.live_lv(h) && index < self@.lv_items(h).len() ==> (r matches Ok(s) && s@
                == HostView::lv_text_of(self@.lv_items(h)[index as int], col)),
    {
        if h == 0 || h > self.slots.len() as u64 {
            return Err(ERROR::invalid_handle());
        }
        let i: usize = (h - 1) as usize;
        proof {
            assert(self@.slots[h - 1] == slot_view(self.slots@[i as int]));
        }
        match &self.slots[i] {
            Slot::ListView { items, .. } => {
                if index as usize >= items.len() {
                    return Err(ERROR::invalid_parameter());
                }
                let it = &items[index as usize];
                proof {
                    assert(self@.lv_items(h)[index as int] == lv_item_view(
                        items@[index as int],
                    ));
                }
                if (col as usize) < it.texts.len() {
                    proof {
                        assert(lv_item_view(items@[index as int]).texts[col as int]
                            == it.texts@[col as int]@);
                    }
                    Ok(it.texts[col as usize].clone())
                } else {
                    let s = String::new();
                    proof {
                        assert(s@ =~= Seq::<char>::empty());
                    }
                    Ok(s)
                }
            },
            _ => Err(ERROR::invalid_handle()),
        }
    }

    /// Rewrites the state bits of item `index` under `mask`: masked bits
    /// come from `state`, the rest stay.
    pub fn lv_set_item_state(&mut self, h: u64, index: u32, state: u32, mask: u32) -> (r:
        SysResult<()>)
        requires
            old(self)@.inv(),
        ensures
            final(self)@.inv(),
            !old(self)@.live_lv(h) ==> r == Err::<(), ERROR>(ERROR(6)) && final(self)@ == old(self)@,
            old(self)@.live_lv(h) && index >= old(self)@.lv_items(h).len() ==> r == Err::<
                (),
                ERROR,
            >(ERROR(87)) && final(self)@ == old(self)@,
            old(self)@.live_lv(h) && index < old(self)@.lv_items(h).len() ==> r == Ok::<(), ERROR>(
                (),
            ) && final(self)@ == old(self)@.with_lv(
                h,
                old(self)@.lv_items(h).update(
                    index as int,
                    (LvItemV {
                        state: (old(self)@.lv_items(h)[index as int].state & !mask) | (state
                            & mask),
                        ..old(self)@.lv_items(h)[index as int]
                    }),
                ),
                old(self)@.lv_next_id(h),
                old(self)@.lv_top(h),
            ),
    {
        if h == 0 || h > self.slots.len() as u64 {
            return Err(ERROR::invalid_handle());
        }
        let i: usize = (h - 1) as usize;
        let is_lv = match &self.slots[i] {
            Slot::ListView { .. } => true,
            _ => false,
        };
        if !is_lv {
            return Err(ERROR::invalid_handle());
        }
        let mut slot = Slot::Dead;
        std::mem::swap(&mut slot, &mut self.slots[i]);
        match slot {
            Slot::ListView { mut items, next_item_id, top, page } => {
                if index as usize >= items.len() {
                    self.slots[i] = Slot::ListView { items, next_item_id, top, page };
                    proof {
                        assert(self@.slots =~= old(self)@.slots);
                        assert(self@ =~= old(self)@);
                    }
                    return Err(ERROR::invalid_parameter());
                }
                let mut it = LvItem { id: 0, state: 0, icon: 0i32, lparam: 0, texts: Vec::new() };
                std::mem::swap(&mut it, &mut items[index as usize]);
                it.state = (it.state & !mask) | (state & mask);
                items[index as usize] = it;
                self.slots[i] = Slot::ListView { items, next_item_id, top, page };
                proof {
                    assert(self@.slots =~~= old(self)@.with_lv(
                        h,
                        old(self)@.lv_items(h).update(
                            index as int,
                            (LvItemV {
                                state: (old(self)@.lv_items(h)[index as int].state & !mask) | (
                                state & mask),
                                ..old(self)@.lv_items(h)[index as int]
                            }),
                        ),
                        old(self)@.lv_next_id(h),
                        old(self)@.lv_top(h),
                    ).slots);
                    assert(self@ =~~= old(self)@.with_lv(
                        h,
                        old(self)@.lv_items(h).update(
                            index as int,
                            (LvItemV {
                                state: (old(self)@.lv_items(h)[index as int].state & !mask) | (
                                state & mask),
                                ..old(self)@.lv_items(h)[index as int]
                            }),
                        ),
                        old(self)@.lv_next_id(h),
                        old(self)@.lv_top(h),
                    ));
                    lemma_inv_updated(old(self)@, h, self@.slot(h));
                }
                Ok(())
            },
            _ => {
                proof {
                    assert(false);
                }
                Err(ERROR::invalid_handle())
            },
        }
    }

    /// Sets the icon index of item `index`, `-1` for none.
    pub fn lv_set_item_icon(&mut self, h: u64, index: u32, icon: i32) -> (r: SysResult<()>)
        requires
            old(self)@.inv(),
        ensures
            final(self)@.inv(),
            !old(self)@.live_lv(h) ==> r == Err::<(), ERROR>(ERROR(6)) && final(self)@ == old(self)@,
            old(self)@.live_lv(h) && index >= old(self)@.lv_items(h).len() ==> r == Err::<
                (),
                ERROR,
            >(ERROR(87)) && final(self)@ == old(self)@,
            old(self)@.live_lv(h) && index < old(self)@.lv_items(h).len() ==> r == Ok::<(), ERROR>(
                (),
            ) && final(self)@ == old(self)@.with_lv(
                h,
                old(self)@.lv_items(h).update(
                    index as int,
                    (LvItemV { icon, ..old(self)@.lv_items(h)[index as int] }),
                ),
                old(self)@.lv_next_id(h),
                old(self)@.lv_top(h),
            ),
    {
        if h == 0 || h > self.slots.len() as u64 {
            return Err(ERROR::invalid_handle());
        }
        let i: usize = (h - 1) as usize;
        let is_lv = match &self.slots[i] {
            Slot::ListView { .. } => true,
            _ => false,
        };
        if !is_lv {
            return Err(ERROR::invalid_handle());
        }
        let mut slot = Slot::Dead;
        std::mem::swap(&mut slot, &mut self.slots[i]);
        match slot {
            Slot::ListView { mut items, next_item_id, top, page } => {
                if index as usize >= items.len() {
                    self.slots[i] = Slot::ListView { items, next_item_id, top, page };
                    proof {
                        assert(self@.slots =~= old(self)@.slots);
                        assert(self@ =~= old(self)@);
                    }
                    return Err(ERROR::invalid_parameter());
                }
                let mut it = LvItem { id: 0, state: 0, icon: 0i32, lparam: 0, texts: Vec::new() };
                std::mem::swap(&mut it, &mut items[index as usize]);
                it.icon = icon;
                items[index as usize] = it;
                self.slots[i] = Slot::ListView { items, next_item_id, top, page };
                proof {
                    assert(self@.slots =~~= old(self)@.with_lv(
                        h,
                        old(self)@.lv_items(h).update(
                            index as int,
                            (LvItemV { icon, ..old(self)@.lv_items(h)[index as int] }),
                        ),
                        old(self)@.lv_next_id(h),
                        old(self)@.lv_top(h),
                    ).slots);
                    assert(self@ =~~= old(self)@.with_lv(
                        h,
                        old(self)@.lv_items(h).update(
                            index as int,
                            (LvItemV { icon, ..old(self)@.lv_items(h)[index as int] }),
                        ),
                        old(self)@.lv_next_id(h),
                        old(self)@.lv_top(h),
                    ));
                    lemma_inv_updated(old(self)@, h, self@.slot(h));
                }
                Ok(())
            },
            _ => {
                proof {
                    assert(false);
                }
                Err(ERROR::invalid_handle())
            },
        }
    }

    /// Sets the text of column `col` of item `index`; columns between the
    /// last set one and `col` read as empty.
    pub fn lv_set_item_text(&mut self, h: u64, index: u32, col: u32, text: &str) -> (r: SysResult<
        (),
    >)
        requires
            old(self)@.inv(),
        ensures
            final(self)@.inv(),
            !old(self)@.live_lv(h) ==> r == Err::<(), ERROR>(ERROR(6)) && final(self)@ == old(self)@,
            old(self)@.live_lv(h) && index >= old(self)@.lv_items(h).len() ==> r == Err::<
                (),
                ERROR,
            >(ERROR(87)) && final(self)@ == old(self)@,
            old(self)@.live_lv(h) && index < old(self)@.lv_items(h).len() ==> r == Ok::<(), ERROR>(
                (),
            ) && final(self)@ == old(self)@.with_lv(
                h,
                old(self)@.lv_items(h).update(
                    index as int,
                    (LvItemV {
                        texts: HostView::lv_texts_set(
                            old(self)@.lv_items(h)[index as int].texts,
                            col,
                            text@,
                        ),
                        ..old(self)@.lv_items(h)[index as int]
                    }),
                ),
                old(self)@.lv_next_id(h),
                old(self)@.lv_top(h),
            ),
    {
        if h == 0 || h > self.slots.len() as u64 {
            return Err(ERROR::invalid_handle());
        }
        let i: usize = (h - 1) as usize;
        let is_lv = match &self.slots[i] {
            Slot::ListView { .. } => true,
            _ => false,
        };
        if !is_lv {
            return Err(ERROR::invalid_handle());
        }
        let mut slot = Slot::Dead;
        std::mem::swap(&mut slot, &mut self.slots[i]);
        match slot {
            Slot::ListView { mut items, next_item_id, top, page } => {
                if index as usize >= items.len() {
                    self.slots[i] = Slot::ListView { items, next_item_id, top, page };
                    proof {
                        assert(self@.slots =~= old(self)@.slots);
                        assert(self@ =~= old(self)@);
                    }
                    return Err(ERROR::invalid_parameter());
                }
                let mut it = LvItem { id: 0, state: 0, icon: 0i32, lparam: 0, texts: Vec::new() };
                std::mem::swap(&mut it, &mut items[index as usize]);
                let ghost old_texts = it.texts@.map_values(|t: String| t@);
                let ghost it0 = it;
                if (col as usize) < it.texts.len() {
                    it.texts[col as usize] = text.to_owned();
                } else {
                    while it.texts.len() < col as usize
                        invariant
                            it.id == it0.id,
                            it.state == it0.state,
                            it.icon == it0.icon,
                            it.lparam == it0.lparam,
                            old_texts.len() <= it.texts@.len() <= col,
                            forall|j: int|
                                0 <= j < old_texts.len() ==> (#[trigger] it.texts@[j])@
                                    == old_texts[j],
                            forall|j: int|
                                old_texts.len() <= j < it.texts@.len() ==> (
                                #[trigger] it.texts@[j])@ == Seq::<char>::empty(),
                        decreases col - it.texts.len(),
                    {
                        it.texts.push(String::new());
                    }
                    it.texts.push(text.to_owned());
                }
                proof {
                    let m = it.texts@.map_values(|t: String| t@);
                    let target = HostView::lv_texts_set(old_texts, col, text@);
                    assert(m.len() == target.len());
                    assert forall|j: int| 0 <= j < m.len() implies m[j] == target[j] by {
                        assert(m[j] == (it.texts@[j])@);
                    }
                    assert(m =~= target);
                }
                items[index as usize] = it;
                self.slots[i] = Slot::ListView { items, next_item_id, top, page };
                proof {
                    assert(old(self)@.lv_items(h)[index as int].texts =~= old_texts);
                    assert(lv_item_view(it) =~~= (LvItemV {
                        texts: HostView::lv_texts_set(
                            old(self)@.lv_items(h)[index as int].texts,
                            col,
                            text@,
                        ),
                        ..old(self)@.lv_items(h)[index as int]
                    }));
                    assert(self@.slots =~~= old(self)@.with_lv(
                        h,
                        old(self)@.lv_items(h).update(
                            index as int,
                            (LvItemV {
                                texts: HostView::lv_texts_set(
                                    old(self)@.lv_items(h)[index as int].texts,
                                    col,
                                    text@,
                                ),
                                ..old(self)@.lv_items(h)[index as int]
                            }),
                        ),
                        old(self)@.lv_next_id(h),
                        old(self)@.lv_top(h),
                    ).slots);
                    assert(self@ =~~= old(self)@.with_lv(
                        h,
                        old(self)@.lv_items(h).update(
                            index as int,
                            (LvItemV {
                                texts: HostView::lv_texts_set(
                                    old(self)@.lv_items(h)[index as int].texts,
                                    col,
                                    text@,
                                ),
                                ..old(self)@.lv_items(h)[index as int]
                            }),
                        ),
                        old(self)@.lv_next_id(h),
                        old(self)@.lv_top(h),
                    ));
                    lemma_inv_updated(old(self)@, h, self@.slot(h));
                }
                Ok(())
            },
            _ => {
                proof {
                    assert(false);
                }
                Err(ERROR::invalid_handle())
            },
        }
    }

    /// Whether item `index` lies in the shown range of the list view.
    pub fn lv_is_item_visible(&self, h: u64, index: u32) -> (r: SysResult<bool>)
        requires
            self@.inv(),
        ensures
            !self@.live_lv(h) ==> r == Err::<bool, ERROR>(ERROR(6)),
            self@.live_lv(h) ==> r == Ok::<bool, ERROR>(self@.lv_visible(h, index)),
    {
        if h == 0 || h > self.slots.len() as u64 {
            return Err(ERROR::invalid_handle());
        }
        let i: usize = (h - 1) as usize;
        proof {
            assert(self@.slots[h - 1] == slot_view(self.slots@[i as int]));
        }
        match &self.slots[i] {
            Slot::ListView { top, page, .. } => Ok(
                *top <= index && (index as u64) < *top as u64 + *page as u64,
            ),
            _ => Err(ERROR::invalid_handle()),
        }
    }

    /// Scrolls the list view as little as possible so that item `index`
    /// is in the shown range.
    pub fn lv_ensure_visible(&mut self, h: u64, index: u32) -> (r: SysResult<()>)
        requires
            old(self)@.inv(),
        ensures
            final(self)@.inv(),
            !old(self)@.live_lv(h) ==> r == Err::<(), ERROR>(ERROR(6)) && final(self)@ == old(self)@,
            old(self)@.live_lv(h) && index >= old(self)@.lv_items(h).len() ==> r == Err::<
                (),
                ERROR,
            >(ERROR(87)) && final(self)@ == old(self)@,
            old(self)@.live_lv(h) && index < old(self)@.lv_items(h).len() ==> r == Ok::<(), ERROR>(
                (),
            ) && final(self)@ == old(self)@.with_lv(
                h,
                old(self)@.lv_items(h),
                old(self)@.lv_next_id(h),
                old(self)@.lv_scrolled_top(h, index) as u32,
            ) && final(self)@.lv_visible(h, index),
    {
        if h == 0 || h > self.slots.len() as u64 {
            return Err(ERROR::invalid_handle());
        }
        let i: usize = (h - 1) as usize;
        let is_lv = match &self.slots[i] {
            Slot::ListView { .. } => true,
            _ => false,
        };
        if !is_lv {
            return Err(ERROR::invalid_handle());
        }
        let mut slot = Slot::Dead;
        std::mem::swap(&mut slot, &mut self.slots[i]);
        match slot {
            Slot::ListView { items, next_item_id, top, page } => {
                if index as usize >= items.len() {
                    self.slots[i] = Slot::ListView { items, next_item_id, top, page };
                    proof {
                        assert(self@.slots =~= old(self)@.slots);
                        assert(self@ =~= old(self)@);
                    }
                    return Err(ERROR::invalid_parameter());
                }
                proof {
                    assert(self@.slots[h - 1] == slot_view(self.slots@[i as int])) by {
                        assert(old(self)@.slots[h - 1] == slot_view(old(self).slots@[i as int]));
                    }
                    assert(slot_wf(old(self)@.slot(h), old(self)@.disk.len()));
                    assert(page >= 1);
                }
                let new_top: u32 = if index < top {
                    index
                } else if (index as u64) >= top as u64 + page as u64 {
                    (index as u64 + 1 - page as u64) as u32
                } else {
                    top
                };
                self.slots[i] = Slot::ListView { items, next_item_id, top: new_top, page };
                proof {
                    assert(new_top as int == old(self)@.lv_scrolled_top(h, index));
                    assert(self@.slots =~~= old(self)@.with_lv(
                        h,
                        old(self)@.lv_items(h),
                        old(self)@.lv_next_id(h),
                        new_top,
                    ).slots);
                    assert(self@ =~~= old(self)@.with_lv(
                        h,
                        old(self)@.lv_items(h),
                        old(self)@.lv_next_id(h),
                        new_top,
                    ));
                    lemma_inv_updated(old(self)@, h, self@.slot(h));
                }
                Ok(())
            },
            _ => {
                proof {
                    assert(false);
                }
                Err(ERROR::invalid_handle())
            },
        }
    }

}

/// The shared contract of every acquisition call: a denied or overfull
/// table reports failure and stays unchanged but for the spent denial;
/// otherwise the fresh handle comes back over the new slot.
pub open spec fn acquired(pre: HostView, post: HostView, r: SysResult<u64>, s: SlotV) -> bool {
    if pre.refuses() {
        &&& r == Err::<u64, ERROR>(ERROR(8))
        &&& post == pre.denied()
    } else {
        &&& r == Ok::<u64, ERROR>(pre.fresh())
        &&& post == pre.allocated(s)
    }
}

} // verus!
