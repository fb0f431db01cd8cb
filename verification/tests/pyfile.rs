use mxfuse::pyfile::{
    copy_read_reply, position_from_reply, seek_arguments, size_from_reply, written_from_reply,
    ReplyError,
};
use mxfuse::SeekFrom;

#[test]
fn short_and_exact_reads_fill_the_front() {
    let mut buf = [9u8; 5];
    assert_eq!(copy_read_reply(&mut buf, &[1, 2]), Ok(2));
    assert_eq!(buf, [1, 2, 9, 9, 9]);
    assert_eq!(copy_read_reply(&mut buf, &[4, 4, 4, 4, 4]), Ok(5));
    assert_eq!(buf, [4; 5]);
    assert_eq!(copy_read_reply(&mut buf, &[]), Ok(0));
    assert_eq!(buf, [4; 5]);
}

#[test]
fn long_read_is_refused_and_leaves_the_buffer() {
    let mut buf = [9u8; 2];
    let error = copy_read_reply(&mut buf, &[1, 2, 3]).unwrap_err();
    assert_eq!(error, ReplyError::LongRead);
    assert_eq!(error.message(), "read returned more bytes than requested");
    assert!(!error.is_invalid_input());
    assert_eq!(buf, [9, 9]);
}

#[test]
fn seeks_become_offset_and_whence() {
    assert_eq!(seek_arguments(SeekFrom::Start(10)), Ok((10, 0)));
    assert_eq!(seek_arguments(SeekFrom::Current(-3)), Ok((-3, 1)));
    assert_eq!(seek_arguments(SeekFrom::End(-16)), Ok((-16, 2)));
    assert_eq!(
        seek_arguments(SeekFrom::Start(i64::MAX as u64)),
        Ok((i64::MAX, 0))
    );
    let error = seek_arguments(SeekFrom::Start(i64::MAX as u64 + 1)).unwrap_err();
    assert_eq!(error, ReplyError::OffsetTooLarge);
    assert_eq!(error.message(), "seek offset exceeds i64");
    assert!(error.is_invalid_input());
}

#[test]
fn negative_positions_and_sizes_are_refused() {
    assert_eq!(position_from_reply(0), Ok(0));
    assert_eq!(position_from_reply(77), Ok(77));
    assert_eq!(position_from_reply(-1), Err(ReplyError::NegativePosition));
    assert_eq!(
        ReplyError::NegativePosition.message(),
        "seek returned a negative position"
    );
    assert_eq!(size_from_reply(1024), Ok(1024));
    assert_eq!(size_from_reply(-5), Err(ReplyError::NegativeSize));
    assert_eq!(ReplyError::NegativeSize.message(), "size returned a negative value");
}

#[test]
fn a_write_without_a_count_took_everything() {
    assert_eq!(written_from_reply(12, None), 12);
    assert_eq!(written_from_reply(12, Some(4)), 4);
    assert_eq!(written_from_reply(0, None), 0);
    assert_eq!(written_from_reply(12, Some(40)), 12);
}
