//! File utility: read/write operations over a guarded file handle.
//!
//! [`File`] owns its handle through a [`CloseHandleGuard`], so the handle is
//! closed exactly once, and never twice, whatever path the caller takes.
//! Every operation says exactly what it reads or writes in terms of the
//! platform's file bytes and pointer.

use vstd::prelude::*;

use crate::co::DISPOSITION;
use crate::co::ERROR;
use crate::co::FILE_STARTING_POINT;
use crate::co::GENERIC;
use crate::co::SysResult;
use crate::guard::CloseHandleGuard;
use crate::handle::Handle;
use crate::handle::HFILE;
use crate::structs::SYSTEMTIME;
use crate::sys::size_limit;
use crate::sys::sized_to;
use crate::sys::Host;
use crate::sys::HostView;
use crate::sys::SlotV;
use crate::time::file_time_to_system_time;
use crate::time::max_ticks;
use crate::time::st_wf;
use crate::time::ticks_of;

verus! {

/// Access types for [`File::open`].
#[derive(Clone, Copy, PartialEq, Eq, Hash, Structural)]
pub enum FileAccess {
    /// Opens the file as read-only.  Fails if the file doesn't exist.
    ExistingReadOnly,
    /// Opens the file as read/write.  Fails if the file doesn't exist.
    ExistingRW,
    /// Opens the file as read/write.  If the file doesn't exist, it will be
    /// created.
    OpenOrCreateRW,
    /// Creates a new file as read/write.  Fails if the file already exists.
    CreateRW,
}

impl FileAccess {
    /// A short description of the access type.
    pub fn description(&self) -> (s: String)
        ensures
            s@ == match *self {
                FileAccess::ExistingReadOnly => "Existing file, read-only"@,
                FileAccess::ExistingRW => "Existing file, read and write"@,
                FileAccess::OpenOrCreateRW => "Open existing file or create new file, read and write"@,
                FileAccess::CreateRW => "Create new file, read and write"@,
            },
    {
        match self {
            FileAccess::ExistingReadOnly => "Existing file, read-only".to_owned(),
            FileAccess::ExistingRW => "Existing file, read and write".to_owned(),
            FileAccess::OpenOrCreateRW => "Open existing file or create new file, read and write".to_owned(),
            FileAccess::CreateRW => "Create new file, read and write".to_owned(),
        }
    }
}

/// The generic access rights each access type asks for.
pub open spec fn access_bits(access: FileAccess) -> u32 {
    match access {
        FileAccess::ExistingReadOnly => 0x8000_0000u32,
        _ => 0xC000_0000u32,
    }
}

/// Whether an access type carries write access.
pub open spec fn access_writable(access: FileAccess) -> bool {
    !(access is ExistingReadOnly)
}

/// The read and write bits behave as the access table says.
proof fn lemma_access_bits()
    ensures
        (0x8000_0000u32 & 0x4000_0000u32) != 0x4000_0000u32,
        (0xC000_0000u32 & 0x4000_0000u32) == 0x4000_0000u32,
{
    assert((0x8000_0000u32 & 0x4000_0000u32) != 0x4000_0000u32) by (bit_vector);
    assert((0xC000_0000u32 & 0x4000_0000u32) == 0x4000_0000u32) by (bit_vector);
}

/// Manages a file handle, which provides file read/write and other
/// operations.  The handle is owned by a guard: it is closed exactly once,
/// by [`File::close`], and a second close is a no-op.
pub struct File {
    hfile: CloseHandleGuard<HFILE>,
    access: FileAccess,
}

impl File {
    /// The owned handle value, in specifications.
    pub closed spec fn id(self) -> u64 {
        self.hfile.id()
    }

    /// The access type the file was opened with, in specifications.
    pub closed spec fn access(self) -> FileAccess {
        self.access
    }

    /// Whether the handle was already closed or detached.
    pub open spec fn is_closed(self) -> bool {
        self.id() == 0
    }

    /// What must hold against the platform: an open `File` owns a live
    /// file whose access rights are the ones it was opened with.
    pub open spec fn valid(self, host: HostView) -> bool {
        &&& self.id() != 0
        &&& host.live_file(self.id())
        &&& host.file_access(self.id()) == access_bits(self.access())
    }

    /// Opens a file with the desired access.  Opening an existing file
    /// succeeds exactly when the path is on the disk; creating a new one
    /// exactly when it is not; open-or-create always succeeds.  On every
    /// failure no `File` exists and the disk is untouched.
    pub fn open(host: &mut Host, file_path: &str, access: FileAccess) -> (r: SysResult<File>)
        requires
            old(host)@.inv(),
        ensures
            final(host)@.inv(),
            old(host)@.refuses() ==> r == Err::<File, ERROR>(ERROR(8)) && final(host)@ == old(host)@.denied(),
            !old(host)@.refuses() && (access is ExistingReadOnly || access is ExistingRW)
                && !old(host)@.has_file(file_path@) ==> r == Err::<File, ERROR>(ERROR(2)) && final(host)@ == old(host)@,
            !old(host)@.refuses() && access is CreateRW && old(host)@.has_file(file_path@) ==> r
                == Err::<File, ERROR>(ERROR(183)) && final(host)@ == old(host)@,
            !old(host)@.refuses() && !(access is CreateRW) && old(host)@.has_file(file_path@)
                ==> (r matches Ok(f) && f.id() == old(host)@.fresh() && f.access() == access
                && f.valid(final(host)@) && final(host)@ == old(host)@.allocated(
                SlotV::File {
                    disk_i: old(host)@.disk_index_of(file_path@),
                    pos: 0,
                    access: access_bits(access),
                },
            )),
            !old(host)@.refuses() && (access is CreateRW || access is OpenOrCreateRW) && !old(host)@.has_file(file_path@) ==> (r matches Ok(f) && f.id() == old(host)@.fresh()
                && f.access() == access && f.valid(final(host)@) && final(host)@ == old(host)@.with_new_file(file_path@).allocated(
                SlotV::File {
                    disk_i: old(host)@.disk.len() as int,
                    pos: 0,
                    access: access_bits(access),
                },
            )),
    {
        let (acc, disp) = match access {
            FileAccess::ExistingReadOnly => (GENERIC::read(), DISPOSITION::open_existing()),
            FileAccess::ExistingRW => (
                GENERIC::read().or(GENERIC::write()),
                DISPOSITION::open_existing(),
            ),
            FileAccess::OpenOrCreateRW => (
                GENERIC::read().or(GENERIC::write()),
                DISPOSITION::open_always(),
            ),
            FileAccess::CreateRW => (
                GENERIC::read().or(GENERIC::write()),
                DISPOSITION::create_new(),
            ),
        };
        proof {
            assert((0x8000_0000u32 | 0x4000_0000u32) == 0xC000_0000u32) by (bit_vector);
        }
        match host.create_file(file_path, acc, disp) {
            Ok(h) => Ok(File { hfile: CloseHandleGuard::acquire(HFILE::from_raw(h)), access }),
            Err(e) => Err(e),
        }
    }

    /// Returns the underlying file handle.  Ownership is unaffected.
    pub fn hfile(&self) -> (h: HFILE)
        ensures
            h.id() == self.id(),
    {
        self.hfile.handle()
    }

    /// Returns the position of the file pointer.  The platform is left
    /// exactly as it was.
    pub fn pointer_offset(&self, host: &mut Host) -> (r: SysResult<u64>)
        requires
            old(host)@.inv(),
            self.valid(old(host)@),
        ensures
            final(host)@.inv(),
            final(host)@ == old(host)@,
            r == Ok::<u64, ERROR>(old(host)@.file_pos(self.id()) as u64),
    {
        let r = host.set_file_pointer(
            self.hfile.handle().as_raw(),
            0,
            FILE_STARTING_POINT::CURRENT,
        );
        proof {
            assert(final(host)@.slots =~= old(host)@.slots);
            assert(final(host)@ =~= old(host)@);
        }
        r
    }

    /// Reads at most `buffer.len()` bytes from the file, starting at the
    /// current file pointer offset, into the front of `buffer`.  Returns
    /// how many bytes were actually read; the file pointer moves by that
    /// much.  The buffer is capped at 4 GB.
    pub fn read(&self, host: &mut Host, buffer: &mut Vec<u8>) -> (r: SysResult<u32>)
        requires
            old(host)@.inv(),
            self.valid(old(host)@),
            old(buffer)@.len() <= 0xFFFF_FFFFusize,
        ensures
            final(host)@.inv(),
            self.valid(final(host)@),
            r == Ok::<u32, ERROR>(old(host)@.read_len(self.id(), old(buffer)@.len()) as u32),
            final(buffer)@ == old(host)@.read_result(self.id(), old(buffer)@.len()) + old(
                buffer,
            )@.skip(old(host)@.read_len(self.id(), old(buffer)@.len())),
            final(host)@ == old(host)@.with_file_pos(
                self.id(),
                old(host)@.file_pos(self.id()) + old(host)@.read_len(
                    self.id(),
                    old(buffer)@.len(),
                ),
            ),
    {
        host.read_file(self.hfile.handle().as_raw(), buffer)
    }

    /// Sets the position of the file pointer, from the beginning of the
    /// file.
    pub fn set_pointer_offset(&self, host: &mut Host, offset: u64) -> (r: SysResult<()>)
        requires
            old(host)@.inv(),
            self.valid(old(host)@),
            offset <= 0x7FFF_FFFF_FFFF_FFFFu64,
        ensures
            final(host)@.inv(),
            self.valid(final(host)@),
            r == Ok::<(), ERROR>(()),
            final(host)@ == old(host)@.with_file_pos(self.id(), offset as int),
    {
        match host.set_file_pointer(
            self.hfile.handle().as_raw(),
            offset as i64,
            FILE_STARTING_POINT::BEGIN,
        ) {
            Ok(_) => Ok(()),
            Err(e) => Err(e),
        }
    }

    /// Returns the size of the file.
    pub fn size(&self, host: &Host) -> (r: SysResult<u64>)
        requires
            host@.inv(),
            self.valid(host@),
        ensures
            r == Ok::<u64, ERROR>(host@.file_data(self.id()).len() as u64),
    {
        host.get_file_size(self.hfile.handle().as_raw())
    }

    /// Writes the bytes at the current file pointer; the pointer moves past
    /// them.  Fails without effect if the file was opened with
    /// [`FileAccess::ExistingReadOnly`], or if the write would pass the
    /// platform's size limit.
    pub fn write(&self, host: &mut Host, data: &[u8]) -> (r: SysResult<()>)
        requires
            old(host)@.inv(),
            self.valid(old(host)@),
            data@.len() <= 0xFFFF_FFFFusize,
        ensures
            final(host)@.inv(),
            self.valid(final(host)@),
            !access_writable(self.access()) ==> r == Err::<(), ERROR>(ERROR(5)) && final(host)@
                == old(host)@,
            access_writable(self.access()) && old(host)@.file_pos(self.id()) + data@.len()
                > size_limit() ==> r == Err::<(), ERROR>(ERROR(112)) && final(host)@ == old(host)@,
            access_writable(self.access()) && old(host)@.file_pos(self.id()) + data@.len()
                <= size_limit() ==> r == Ok::<(), ERROR>(()) && final(host)@ == old(host)@.with_disk_data(
                old(host)@.file_disk(self.id()),
                crate::sys::spliced(
                    old(host)@.file_data(self.id()),
                    old(host)@.file_pos(self.id()),
                    data@,
                ),
                old(host)@.now,
            ).with_file_pos(self.id(), old(host)@.file_pos(self.id()) + data@.len()),
    {
        proof {
            lemma_access_bits();
        }
        match host.write_file(self.hfile.handle().as_raw(), data) {
            Ok(_) => Ok(()),
            Err(e) => Err(e),
        }
    }

    /// Truncates or expands the file to `num_bytes`, then sets the file
    /// pointer to the beginning of the file.  If the size is increased, the
    /// new area is zero-filled.  Fails without effect if the file was
    /// opened read-only.
    pub fn set_size(&self, host: &mut Host, num_bytes: u64) -> (r: SysResult<()>)
        requires
            old(host)@.inv(),
            self.valid(old(host)@),
            num_bytes <= size_limit(),
        ensures
            final(host)@.inv(),
            self.valid(final(host)@),
            !access_writable(self.access()) ==> r == Err::<(), ERROR>(ERROR(5)) && final(host)@
                == old(host)@,
            access_writable(self.access()) ==> r == Ok::<(), ERROR>(()) && final(host)@ == old(host)@.with_disk_data(
                old(host)@.file_disk(self.id()),
                sized_to(old(host)@.file_data(self.id()), num_bytes as int),
                old(host)@.now,
            ).with_file_pos(self.id(), 0),
    {
        proof {
            lemma_access_bits();
        }
        match self.access {
            FileAccess::ExistingReadOnly => {
                return Err(ERROR::access_denied());
            },
            _ => {},
        }
        let h = self.hfile.handle().as_raw();
        let _ = host.set_file_pointer(h, num_bytes as i64, FILE_STARTING_POINT::BEGIN);
        let ghost mid1 = host@;
        let _ = host.set_end_of_file(h);
        let ghost mid2 = host@;
        let _ = host.set_file_pointer(h, 0, FILE_STARTING_POINT::BEGIN);
        proof {
            assert(host@.slots =~= old(host)@.with_disk_data(
                old(host)@.file_disk(self.id()),
                sized_to(old(host)@.file_data(self.id()), num_bytes as int),
                old(host)@.now,
            ).with_file_pos(self.id(), 0).slots);
            assert(host@.disk =~= old(host)@.with_disk_data(
                old(host)@.file_disk(self.id()),
                sized_to(old(host)@.file_data(self.id()), num_bytes as int),
                old(host)@.now,
            ).with_file_pos(self.id(), 0).disk);
            assert(host@ =~= old(host)@.with_disk_data(
                old(host)@.file_disk(self.id()),
                sized_to(old(host)@.file_data(self.id()), num_bytes as int),
                old(host)@.now,
            ).with_file_pos(self.id(), 0));
        }
        Ok(())
    }

    /// Reads all the file bytes from the beginning; the file pointer ends
    /// at the end of the file.  The file is capped at 4 GB.
    pub fn read_all(&self, host: &mut Host) -> (r: SysResult<Vec<u8>>)
        requires
            old(host)@.inv(),
            self.valid(old(host)@),
            old(host)@.file_data(self.id()).len() <= 0xFFFF_FFFFusize,
        ensures
            final(host)@.inv(),
            self.valid(final(host)@),
            r matches Ok(bytes) && bytes@ == old(host)@.file_data(self.id()),
            final(host)@ == old(host)@.with_file_pos(
                self.id(),
                old(host)@.file_data(self.id()).len() as int,
            ),
    {
        let h = self.hfile.handle().as_raw();
        let _ = host.set_file_pointer(h, 0, FILE_STARTING_POINT::BEGIN);
        let sz = match host.get_file_size(h) {
            Ok(sz) => sz,
            Err(e) => {
                proof {
                    assert(false);
                }
                return Err(e);
            },
        };
        let mut buf: Vec<u8> = vec![0u8; sz as usize];
        let _ = host.read_file(h, &mut buf);
        proof {
            assert(buf@ =~= old(host)@.file_data(self.id()));
            assert(host@ =~= old(host)@.with_file_pos(
                self.id(),
                old(host)@.file_data(self.id()).len() as int,
            ));
        }
        Ok(buf)
    }

    /// Returns the creation and last write times of the file, as calendar
    /// instants.  Each returned instant is well-formed and recomposes to
    /// exactly the stored tick stamp; a stamp past the calendar's reach is
    /// an error.
    pub fn times(&self, host: &Host) -> (r: SysResult<(SYSTEMTIME, SYSTEMTIME)>)
        requires
            host@.inv(),
            self.valid(host@),
        ensures
            (host@.disk[host@.file_disk(self.id())].created < max_ticks() && host@.disk[host@.file_disk(
                self.id(),
            )].written < max_ticks()) ==> (r matches Ok(p) && st_wf(p.0) && ticks_of(p.0)
                == host@.disk[host@.file_disk(self.id())].created && st_wf(p.1) && ticks_of(p.1)
                == host@.disk[host@.file_disk(self.id())].written),
            !(host@.disk[host@.file_disk(self.id())].created < max_ticks() && host@.disk[host@.file_disk(
                self.id(),
            )].written < max_ticks()) ==> r == Err::<(SYSTEMTIME, SYSTEMTIME), ERROR>(ERROR(87)),
    {
        let (created, written) = match host.get_file_time(self.hfile.handle().as_raw()) {
            Ok(t) => t,
            Err(e) => {
                proof {
                    assert(false);
                }
                return Err(e);
            },
        };
        let st_creation = match file_time_to_system_time(created) {
            Ok(st) => st,
            Err(e) => {
                return Err(e);
            },
        };
        match file_time_to_system_time(written) {
            Ok(st_write) => Ok((st_creation, st_write)),
            Err(e) => Err(e),
        }
    }

    /// Closes the file handle.  The first close releases it exactly once;
    /// a second close is a no-op.
    pub fn close(&mut self, host: &mut Host) -> (r: SysResult<()>)
        requires
            old(host)@.inv(),
            old(self).is_closed() || old(self).valid(old(host)@),
        ensures
            final(host)@.inv(),
            final(self).is_closed(),
            r == Ok::<(), ERROR>(()),
            old(self).is_closed() ==> final(host)@ == old(host)@,
            !old(self).is_closed() ==> final(host)@ == old(host)@.released_at(old(self).id()),
    {
        self.hfile.release(host)
    }

    /// Forfeits ownership of the handle without closing it: the caller now
    /// owns the resource, and this `File`'s close path releases nothing.
    pub fn detach(&mut self) -> (h: HFILE)
        ensures
            h.id() == old(self).id(),
            final(self).is_closed(),
    {
        self.hfile.detach()
    }
}

} // verus!
