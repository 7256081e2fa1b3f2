//! File utility: acquisition dispositions, read/write, truncation, times,
//! and the close discipline.

use winsafe::co::ERROR;
use winsafe::co::FILE_STARTING_POINT;
use winsafe::File;
use winsafe::FileAccess;
use winsafe::Host;

#[test]
fn exclusive_create_fails_on_existing_path_without_a_guard() {
    let mut host = Host::new();
    let mut first = File::open(&mut host, "C:\\Temp\\foo.txt", FileAccess::CreateRW).unwrap();
    first.write(&mut host, b"original").unwrap();
    first.close(&mut host).unwrap();
    let releases_before = host.release_count();
    // exclusive create on a path that already exists
    let r = File::open(&mut host, "C:\\Temp\\foo.txt", FileAccess::CreateRW);
    assert_eq!(r.err().unwrap(), ERROR(183));
    // no guard was constructed: no release is ever observed for it
    assert_eq!(host.release_count(), releases_before);
    // the underlying file is unchanged
    let again = File::open(&mut host, "C:\\Temp\\foo.txt", FileAccess::ExistingReadOnly).unwrap();
    let mut data = again.read_all(&mut host).unwrap();
    assert_eq!(data, b"original".to_vec());
    data.clear();
}

#[test]
fn open_write_truncate_read_back_zero_bytes_and_close_once() {
    let mut host = Host::new();
    let mut f = File::open(&mut host, "C:\\Temp\\bar.txt", FileAccess::OpenOrCreateRW).unwrap();
    f.write(&mut host, b"0123456789").unwrap();
    assert_eq!(f.size(&host).unwrap(), 10);
    f.set_size(&mut host, 0).unwrap();
    assert_eq!(f.size(&host).unwrap(), 0);
    let back = f.read_all(&mut host).unwrap();
    assert_eq!(back.len(), 0);
    f.close(&mut host).unwrap();
    assert_eq!(host.release_count(), 1);
    f.close(&mut host).unwrap();
    assert_eq!(host.release_count(), 1);
}

#[test]
fn existing_open_fails_when_the_path_is_missing() {
    let mut host = Host::new();
    assert_eq!(
        File::open(&mut host, "nowhere.txt", FileAccess::ExistingReadOnly)
            .err()
            .unwrap(),
        ERROR(2)
    );
    assert_eq!(
        File::open(&mut host, "nowhere.txt", FileAccess::ExistingRW)
            .err()
            .unwrap(),
        ERROR(2)
    );
}

#[test]
fn refused_acquisition_surfaces_before_any_file_exists() {
    let mut host = Host::new();
    host.refuse_next_acquisition();
    assert_eq!(
        File::open(&mut host, "a.txt", FileAccess::OpenOrCreateRW)
            .err()
            .unwrap(),
        ERROR(8)
    );
    // the failed acquisition created nothing: the path is still free
    let f = File::open(&mut host, "a.txt", FileAccess::CreateRW).unwrap();
    assert_eq!(f.size(&host).unwrap(), 0);
}

#[test]
fn read_only_files_refuse_writes_and_truncation() {
    let mut host = Host::new();
    let mut w = File::open(&mut host, "r.txt", FileAccess::CreateRW).unwrap();
    w.write(&mut host, b"abc").unwrap();
    w.close(&mut host).unwrap();
    let ro = File::open(&mut host, "r.txt", FileAccess::ExistingReadOnly).unwrap();
    assert_eq!(ro.write(&mut host, b"x").err().unwrap(), ERROR(5));
    assert_eq!(ro.set_size(&mut host, 0).err().unwrap(), ERROR(5));
    let data = ro.read_all(&mut host).unwrap();
    assert_eq!(data, b"abc".to_vec());
}

#[test]
fn pointer_moves_with_reads_writes_and_seeks() {
    let mut host = Host::new();
    let f = File::open(&mut host, "p.txt", FileAccess::OpenOrCreateRW).unwrap();
    assert_eq!(f.pointer_offset(&mut host).unwrap(), 0);
    f.write(&mut host, b"hello world").unwrap();
    assert_eq!(f.pointer_offset(&mut host).unwrap(), 11);
    f.set_pointer_offset(&mut host, 6).unwrap();
    let mut buf = vec![0u8; 5];
    assert_eq!(f.read(&mut host, &mut buf).unwrap(), 5);
    assert_eq!(buf, b"world".to_vec());
    assert_eq!(f.pointer_offset(&mut host).unwrap(), 11);
    // a partial read returns what is there and leaves the rest untouched
    f.set_pointer_offset(&mut host, 9).unwrap();
    let mut buf2 = vec![9u8; 4];
    assert_eq!(f.read(&mut host, &mut buf2).unwrap(), 2);
    assert_eq!(buf2, vec![b'l', b'd', 9u8, 9u8]);
}

#[test]
fn overwrite_in_the_middle_keeps_both_ends() {
    let mut host = Host::new();
    let f = File::open(&mut host, "m.txt", FileAccess::OpenOrCreateRW).unwrap();
    f.write(&mut host, b"abcdefgh").unwrap();
    f.set_pointer_offset(&mut host, 2).unwrap();
    f.write(&mut host, b"XY").unwrap();
    let data = f.read_all(&mut host).unwrap();
    assert_eq!(data, b"abXYefgh".to_vec());
}

#[test]
fn writing_past_the_end_zero_fills_the_gap() {
    let mut host = Host::new();
    let f = File::open(&mut host, "g.txt", FileAccess::OpenOrCreateRW).unwrap();
    f.write(&mut host, b"ab").unwrap();
    f.set_pointer_offset(&mut host, 5).unwrap();
    f.write(&mut host, b"z").unwrap();
    let data = f.read_all(&mut host).unwrap();
    assert_eq!(data, vec![b'a', b'b', 0, 0, 0, b'z']);
}

#[test]
fn growing_a_file_zero_fills_the_new_area() {
    let mut host = Host::new();
    let f = File::open(&mut host, "z.txt", FileAccess::OpenOrCreateRW).unwrap();
    f.write(&mut host, b"hi").unwrap();
    f.set_size(&mut host, 5).unwrap();
    assert_eq!(f.pointer_offset(&mut host).unwrap(), 0);
    let data = f.read_all(&mut host).unwrap();
    assert_eq!(data, vec![b'h', b'i', 0, 0, 0]);
}

#[test]
fn negative_seek_is_an_error_and_moves_nothing() {
    let mut host = Host::new();
    let f = File::open(&mut host, "s.txt", FileAccess::OpenOrCreateRW).unwrap();
    f.write(&mut host, b"abc").unwrap();
    let h = f.hfile().raw;
    assert_eq!(
        host.set_file_pointer(h, -5, FILE_STARTING_POINT::CURRENT)
            .err()
            .unwrap(),
        ERROR(131)
    );
    assert_eq!(f.pointer_offset(&mut host).unwrap(), 3);
    // seeking from the end works within range
    assert_eq!(
        host.set_file_pointer(h, -2, FILE_STARTING_POINT::END).unwrap(),
        1
    );
}

#[test]
fn times_name_the_stamped_calendar_instants() {
    let mut host = Host::new();
    // one day, one hour, two minutes, three seconds, four milliseconds
    host.advance_clock(90_123_004);
    let f = File::open(&mut host, "t.txt", FileAccess::CreateRW).unwrap();
    let (created, written) = f.times(&host).unwrap();
    assert_eq!(created.wYear, 1601);
    assert_eq!(created.wMonth, 1);
    assert_eq!(created.wDay, 2);
    // the epoch day is a Monday, so the next is a Tuesday
    assert_eq!(created.wDayOfWeek, 2);
    assert_eq!(created.wHour, 1);
    assert_eq!(created.wMinute, 2);
    assert_eq!(created.wSecond, 3);
    assert_eq!(created.wMilliseconds, 4);
    assert_eq!(written, created);
    // a later write moves the write time, not the creation time
    host.advance_clock(86_400_000);
    f.write(&mut host, b"x").unwrap();
    let (created_2, written_2) = f.times(&host).unwrap();
    assert_eq!(created_2, created);
    assert_eq!(written_2.wDay, 3);
    assert_eq!(written_2.wDayOfWeek, 3);
}

#[test]
fn leap_day_is_reached_across_the_first_leap_year() {
    let mut host = Host::new();
    // 1601 through 1603 have 365 days each; then January and February 1604
    let days: u64 = 3 * 365 + 31 + 28;
    host.advance_clock(days * 86_400_000);
    let f = File::open(&mut host, "leap.txt", FileAccess::CreateRW).unwrap();
    let (created, _) = f.times(&host).unwrap();
    assert_eq!(created.wYear, 1604);
    assert_eq!(created.wMonth, 2);
    assert_eq!(created.wDay, 29);
}

#[test]
fn detached_file_handle_is_closed_by_its_new_owner() {
    let mut host = Host::new();
    let mut f = File::open(&mut host, "d.txt", FileAccess::CreateRW).unwrap();
    let h = f.detach();
    f.close(&mut host).unwrap();
    assert_eq!(host.release_count(), 0);
    host.close_handle(h.raw).unwrap();
    assert_eq!(host.release_count(), 1);
}

#[test]
fn read_all_returns_every_byte_written() {
    let mut host = Host::new();
    let f = File::open(&mut host, "all.txt", FileAccess::OpenOrCreateRW).unwrap();
    f.write(&mut host, b"first ").unwrap();
    f.write(&mut host, b"second").unwrap();
    let data = f.read_all(&mut host).unwrap();
    assert_eq!(data, b"first second".to_vec());
    assert_eq!(f.hfile().raw, 1);
}

#[test]
fn access_types_describe_themselves() {
    assert_eq!(
        FileAccess::ExistingReadOnly.description(),
        "Existing file, read-only"
    );
    assert_eq!(
        FileAccess::ExistingRW.description(),
        "Existing file, read and write"
    );
    assert_eq!(
        FileAccess::OpenOrCreateRW.description(),
        "Open existing file or create new file, read and write"
    );
    assert_eq!(
        FileAccess::CreateRW.description(),
        "Create new file, read and write"
    );
}

#[test]
fn writes_past_the_size_limit_report_a_full_disk() {
    let mut host = Host::new();
    let f = File::open(&mut host, "lim.txt", FileAccess::CreateRW).unwrap();
    f.set_pointer_offset(&mut host, 0x7FFF_FFFF_FFFF_FFFF).unwrap();
    assert_eq!(f.write(&mut host, b"x").err().unwrap(), ERROR(112));
    assert_eq!(f.size(&host).unwrap(), 0);
}

#[test]
fn seeks_past_the_signed_range_are_invalid() {
    let mut host = Host::new();
    let f = File::open(&mut host, "far.txt", FileAccess::CreateRW).unwrap();
    let h = f.hfile().raw;
    host.set_file_pointer(h, 0x7FFF_FFFF_FFFF_FFFF, FILE_STARTING_POINT::BEGIN)
        .unwrap();
    assert_eq!(
        host.set_file_pointer(h, 1, FILE_STARTING_POINT::CURRENT)
            .err()
            .unwrap(),
        ERROR(87)
    );
}

#[test]
fn unknown_dispositions_are_invalid_parameters() {
    let mut host = Host::new();
    assert_eq!(
        host.create_file("q.txt", winsafe::co::GENERIC::read(), winsafe::co::DISPOSITION(9))
            .err()
            .unwrap(),
        ERROR(87)
    );
    // nothing was created
    assert_eq!(
        File::open(&mut host, "q.txt", FileAccess::ExistingReadOnly)
            .err()
            .unwrap(),
        ERROR(2)
    );
}

#[test]
fn operations_on_a_closed_handle_are_refused() {
    let mut host = Host::new();
    let mut f = File::open(&mut host, "c.txt", FileAccess::CreateRW).unwrap();
    let h = f.hfile().raw;
    f.close(&mut host).unwrap();
    assert_eq!(host.get_file_size(h).err().unwrap(), ERROR(6));
    assert_eq!(host.write_file(h, b"x").err().unwrap(), ERROR(6));
    let mut buf = vec![0u8; 4];
    assert_eq!(host.read_file(h, &mut buf).err().unwrap(), ERROR(6));
    assert_eq!(host.close_handle(h).err().unwrap(), ERROR(6));
    assert_eq!(host.release_count(), 1);
}
