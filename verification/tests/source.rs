use std::io::Cursor;

use mxfuse::source::{callback_count, offset_target, read_ahead_window, seek_from_whence};
use mxfuse::ReadOptions;
use mxfuse::{ByteSource, CountingSource, ReadAhead, SeekFrom};

#[test]
fn read_ahead_serves_from_the_window() {
    let data: Vec<u8> = (0..64).collect();
    let counting = CountingSource::new(Cursor::new(data.clone()));
    let mut source = ReadAhead::new(counting, 16).unwrap();

    let mut first = [0u8; 4];
    assert_eq!(source.read(&mut first).unwrap(), 4);
    assert_eq!(&first, &[0, 1, 2, 3]);
    assert_eq!(source.inner().read_count(), 1);

    let mut second = [0u8; 4];
    assert_eq!(source.read(&mut second).unwrap(), 4);
    assert_eq!(&second, &[4, 5, 6, 7]);
    assert_eq!(source.inner().read_count(), 1);

    source.seek(SeekFrom::Start(2)).unwrap();
    let mut third = [0u8; 2];
    assert_eq!(source.read(&mut third).unwrap(), 2);
    assert_eq!(&third, &[2, 3]);
    assert_eq!(source.inner().read_count(), 1);
}

#[test]
fn read_ahead_refills_after_a_miss() {
    let data: Vec<u8> = (0..64).collect();
    let counting = CountingSource::new(Cursor::new(data));
    let mut source = ReadAhead::new(counting, 8).unwrap();

    let mut buf = [0u8; 2];
    source.read(&mut buf).unwrap();
    source.seek(SeekFrom::Start(40)).unwrap();
    source.read(&mut buf).unwrap();
    assert_eq!(source.inner().read_count(), 2);
    assert_eq!(&buf, &[40, 41]);
}

#[test]
fn read_ahead_without_a_window_reads_through() {
    let data: Vec<u8> = (0..32).collect();
    let counting = CountingSource::new(Cursor::new(data));
    let mut source = ReadAhead::new(counting, 0).unwrap();
    let mut buf = [0u8; 3];
    assert_eq!(source.read(&mut buf).unwrap(), 3);
    assert_eq!(buf, [0, 1, 2]);
    assert_eq!(source.read(&mut buf).unwrap(), 3);
    assert_eq!(buf, [3, 4, 5]);
    assert_eq!(source.inner().read_count(), 2);
}

#[test]
fn read_ahead_seeks_like_a_file() {
    let data: Vec<u8> = (0..64).collect();
    let mut source = ReadAhead::new(Cursor::new(data), 16).unwrap();
    assert_eq!(source.seek(SeekFrom::Start(10)).unwrap(), 10);
    assert_eq!(source.seek(SeekFrom::Current(-4)).unwrap(), 6);
    assert_eq!(source.seek(SeekFrom::End(-1)).unwrap(), 63);
    assert_eq!(source.size().unwrap(), 64);
    let mut buf = [0u8; 4];
    assert_eq!(source.read(&mut buf).unwrap(), 1);
    assert_eq!(buf[0], 63);
    assert_eq!(source.read(&mut buf).unwrap(), 0);
    assert!(source.seek(SeekFrom::Current(-100)).is_err());
    assert!(source.seek(SeekFrom::End(-65)).is_err());
    assert_eq!(source.seek(SeekFrom::Current(0)).unwrap(), 64);
    assert_eq!(source.seek(SeekFrom::Start(100)).unwrap(), 100);
    assert_eq!(source.read(&mut buf).unwrap(), 0);
}

#[test]
fn read_ahead_of_an_empty_buffer_reads_nothing() {
    let counting = CountingSource::new(Cursor::new(vec![1u8, 2, 3]));
    let mut source = ReadAhead::new(counting, 4).unwrap();
    let mut empty: [u8; 0] = [];
    assert_eq!(source.read(&mut empty).unwrap(), 0);
    assert_eq!(source.inner().read_count(), 0);
}

#[test]
fn read_ahead_large_read_pulls_more_than_the_window() {
    let data: Vec<u8> = (0..64).collect();
    let counting = CountingSource::new(Cursor::new(data.clone()));
    let mut source = ReadAhead::new(counting, 4).unwrap();
    let mut buf = [0u8; 10];
    assert_eq!(source.read(&mut buf).unwrap(), 10);
    assert_eq!(&buf[..], &data[..10]);
    assert_eq!(source.inner().read_count(), 1);
}

#[test]
fn counting_source_counts_reads_and_bytes() {
    let mut source = CountingSource::new(Cursor::new(vec![5u8; 10]));
    let reads = source.reads.clone();
    let bytes = source.bytes.clone();
    let mut buf = [0u8; 4];
    source.read(&mut buf).unwrap();
    source.read(&mut buf).unwrap();
    source.read(&mut buf).unwrap();
    assert_eq!(source.read_count(), 3);
    assert_eq!(reads.load(std::sync::atomic::Ordering::SeqCst), 3);
    assert_eq!(bytes.load(std::sync::atomic::Ordering::SeqCst), 10);
    assert_eq!(source.seek(SeekFrom::Start(1)).unwrap(), 1);
    assert_eq!(source.size().unwrap(), 10);
}

#[test]
fn inner_mut_reaches_the_wrapped_source() {
    let mut source = ReadAhead::new(CountingSource::new(Cursor::new(vec![0u8; 8])), 4).unwrap();
    let inner = source.inner_mut();
    let mut buf = [0u8; 2];
    inner.read(&mut buf).unwrap();
    assert_eq!(source.inner().read_count(), 1);
}

#[test]
fn whence_picks_the_seek() {
    assert_eq!(seek_from_whence(5, 0), Some(SeekFrom::Start(5)));
    assert_eq!(seek_from_whence(-1, 0), Some(SeekFrom::Start(u64::MAX)));
    assert_eq!(seek_from_whence(-4, 1), Some(SeekFrom::Current(-4)));
    assert_eq!(seek_from_whence(-16, 2), Some(SeekFrom::End(-16)));
    assert_eq!(seek_from_whence(0, 3), None);
    assert_eq!(seek_from_whence(0, -1), None);
}

#[test]
fn callback_counts_fit_an_i32() {
    assert_eq!(callback_count(0), 0);
    assert_eq!(callback_count(4096), 4096);
    assert_eq!(callback_count(i32::MAX as usize), i32::MAX);
    assert_eq!(callback_count(i32::MAX as usize + 1), -1);
}

#[test]
fn read_ahead_seeks_from_start_and_current() {
    let mut source = ReadAhead::new(Cursor::new((0..32).collect::<Vec<u8>>()), 8).unwrap();
    assert_eq!(source.seek(SeekFrom::Start(100)).unwrap(), 100);
    assert_eq!(source.seek(SeekFrom::Current(-40)).unwrap(), 60);
    assert!(source.seek(SeekFrom::Current(-61)).is_err());
    assert!(source.seek(SeekFrom::End(-33)).is_err());
    assert_eq!(source.seek(SeekFrom::End(-2)).unwrap(), 30);
    let mut cursor = Cursor::new(vec![0u8; 12]);
    assert_eq!(ByteSource::size(&mut cursor).unwrap(), 12);
}

#[test]
fn borrowed_slices_are_sources() {
    let data = [5u8, 6, 7, 8];
    let mut cursor = Cursor::new(&data[..]);
    let mut buf = [0u8; 3];
    assert_eq!(ByteSource::read(&mut cursor, &mut buf).unwrap(), 3);
    assert_eq!(buf, [5, 6, 7]);
    assert_eq!(ByteSource::seek(&mut cursor, SeekFrom::End(-1)).unwrap(), 3);
    assert_eq!(ByteSource::size(&mut cursor).unwrap(), 4);
}

#[test]
fn read_ahead_is_off_at_zero() {
    assert_eq!(read_ahead_window(ReadOptions { read_ahead: 0, cache_bytes: 9 }), None);
    assert_eq!(
        read_ahead_window(ReadOptions { read_ahead: 1 << 20, cache_bytes: 0 }),
        Some(1 << 20)
    );
}

#[test]
fn offsets_stay_at_or_after_the_start() {
    assert_eq!(offset_target(10, -10), Some(0));
    assert_eq!(offset_target(10, -11), None);
    assert_eq!(offset_target(10, 5), Some(15));
    assert_eq!(offset_target(u64::MAX, 1), Some(0));
}

#[test]
fn a_miss_keeps_the_tail_of_the_buffer() {
    let mut source = ReadAhead::new(Cursor::new((0..10).collect::<Vec<u8>>()), 4).unwrap();
    source.seek(SeekFrom::Start(8)).unwrap();
    let mut buf = [0xaau8; 6];
    assert_eq!(source.read(&mut buf).unwrap(), 2);
    assert_eq!(buf, [8, 9, 0xaa, 0xaa, 0xaa, 0xaa]);
    assert_eq!(source.read(&mut buf).unwrap(), 0);
}

#[test]
fn the_first_seek_decides_the_wrapper() {
    let ok = ReadAhead::from_seek(Cursor::new(vec![1u8, 2, 3]), 4, Ok(0)).unwrap();
    assert_eq!(ok.inner().get_ref(), &vec![1u8, 2, 3]);
    let failed = ReadAhead::from_seek(
        Cursor::new(Vec::new()),
        4,
        Err(std::io::Error::other("no seek")),
    );
    assert_eq!(failed.err().unwrap().to_string(), "no seek");
}

#[test]
fn a_refill_reads_once_per_miss() {
    let counting = CountingSource::new(Cursor::new((0..32).collect::<Vec<u8>>()));
    let mut source = ReadAhead::new(counting, 8).unwrap();
    let mut buf = [0u8; 3];
    assert_eq!(source.read(&mut buf).unwrap(), 3);
    assert_eq!(source.read(&mut buf).unwrap(), 3);
    assert_eq!(source.inner().read_count(), 1);
    source.seek(SeekFrom::End(-4)).unwrap();
    assert_eq!(source.read(&mut buf).unwrap(), 3);
    assert_eq!(buf, [28, 29, 30]);
    assert_eq!(source.inner().read_count(), 2);
}

#[test]
fn cursor_reads_stop_only_at_the_end() {
    let mut cursor = Cursor::new(vec![1u8, 2, 3]);
    let mut buf = [0u8; 2];
    assert_eq!(ByteSource::read(&mut cursor, &mut buf).unwrap(), 2);
    assert_eq!(ByteSource::read(&mut cursor, &mut buf).unwrap(), 1);
    assert_eq!(ByteSource::read(&mut cursor, &mut buf).unwrap(), 0);
    assert_eq!(ByteSource::read(&mut cursor, &mut []).unwrap(), 0);
}

#[test]
fn counting_forwards_answers() {
    let mut counting = CountingSource::new(Cursor::new(vec![9u8; 10]));
    assert_eq!(counting.seek(SeekFrom::End(-3)).unwrap(), 7);
    assert_eq!(counting.size().unwrap(), 10);
    let mut buf = [0u8; 8];
    assert_eq!(counting.read(&mut buf).unwrap(), 3);
    assert_eq!(counting.read_count(), 1);
    assert!(counting.seek(SeekFrom::Current(-20)).is_err());
}
