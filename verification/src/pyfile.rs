//! What the Python binding makes of the replies of a Python file object: how many
//! bytes a read brought, where a seek went, how large the file is, how much a
//! write took. The calls into Python are the binding's; the checks are here.
use vstd::prelude::*;

use crate::source::SeekFrom;

verus! {

/// A reply of a Python file object that the binding refuses.
#[derive(Clone, Copy, Debug, PartialEq, Eq, Structural)]
pub enum ReplyError {
    /// `read(n)` returned more than `n` bytes.
    LongRead,
    /// A seek from the start asks for an offset beyond `i64`, which Python cannot take.
    OffsetTooLarge,
    /// `seek` returned a negative position.
    NegativePosition,
    /// The size came out negative.
    NegativeSize,
}

/// The message of each refusal.
pub open spec fn reply_message(e: ReplyError) -> Seq<char> {
    match e {
        ReplyError::LongRead => "read returned more bytes than requested"@,
        ReplyError::OffsetTooLarge => "seek offset exceeds i64"@,
        ReplyError::NegativePosition => "seek returned a negative position"@,
        ReplyError::NegativeSize => "size returned a negative value"@,
    }
}

impl ReplyError {
    /// The message the binding raises with.
    pub fn message(self) -> (text: &'static str)
        ensures
            text@ == reply_message(self),
    {
        match self {
            ReplyError::LongRead => "read returned more bytes than requested",
            ReplyError::OffsetTooLarge => "seek offset exceeds i64",
            ReplyError::NegativePosition => "seek returned a negative position",
            ReplyError::NegativeSize => "size returned a negative value",
        }
    }

    /// Whether the refusal is of the caller's argument (`InvalidInput`) rather than of
    /// what Python returned (`InvalidData`).
    pub fn is_invalid_input(self) -> (input: bool)
        ensures
            input <==> self is OffsetTooLarge,
    {
        match self {
            ReplyError::OffsetTooLarge => true,
            _ => false,
        }
    }
}

/// Copies the bytes that `read(buf.len())` returned to the front of `buf`; more
/// bytes than asked for are refused and `buf` is left as it was.
pub fn copy_read_reply(buf: &mut [u8], bytes: &[u8]) -> (result: Result<usize, ReplyError>)
    ensures
        bytes@.len() > old(buf)@.len() <==> result is Err,
        result matches Err(e) ==> e is LongRead && final(buf)@ == old(buf)@,
        result matches Ok(n) ==> n == bytes@.len() && final(buf)@ == bytes@ + old(buf)@.skip(
            n as int,
        ),
{
    if bytes.len() > buf.len() {
        return Err(ReplyError::LongRead);
    }
    let ghost before = buf@;
    let mut i: usize = 0;
    while i < bytes.len()
        invariant
            i <= bytes@.len(),
            bytes@.len() <= before.len(),
            buf@.len() == before.len(),
            forall|j: int| 0 <= j < i ==> buf@[j] == bytes@[j],
            forall|j: int| i <= j < before.len() ==> buf@[j] == before[j],
        decreases bytes@.len() - i,
    {
        buf[i] = bytes[i];
        i = i + 1;
    }
    assert(buf@ =~= bytes@ + before.skip(bytes@.len() as int));
    Ok(bytes.len())
}

/// The `(offset, whence)` pair that Python's `seek` takes for a seek.
pub fn seek_arguments(pos: SeekFrom) -> (result: Result<(i64, i32), ReplyError>)
    ensures
        match pos {
            SeekFrom::Start(offset) => if offset <= i64::MAX {
                result == Ok::<(i64, i32), ReplyError>((offset as i64, 0i32))
            } else {
                result == Err::<(i64, i32), ReplyError>(ReplyError::OffsetTooLarge)
            },
            SeekFrom::End(offset) => result == Ok::<(i64, i32), ReplyError>((offset, 2i32)),
            SeekFrom::Current(offset) => result == Ok::<(i64, i32), ReplyError>((offset, 1i32)),
        },
{
    match pos {
        SeekFrom::Start(offset) => {
            if offset <= 0x7fff_ffff_ffff_ffffu64 {
                Ok((offset as i64, 0))
            } else {
                Err(ReplyError::OffsetTooLarge)
            }
        },
        SeekFrom::End(offset) => Ok((offset, 2)),
        SeekFrom::Current(offset) => Ok((offset, 1)),
    }
}

/// The position that Python's `seek` returned; a negative one is refused.
pub fn position_from_reply(value: i64) -> (result: Result<u64, ReplyError>)
    ensures
        value >= 0 ==> result == Ok::<u64, ReplyError>(value as u64),
        value < 0 ==> result == Err::<u64, ReplyError>(ReplyError::NegativePosition),
{
    if value < 0 {
        Err(ReplyError::NegativePosition)
    } else {
        Ok(value as u64)
    }
}

/// The size found by seeking to the end; a negative one is refused.
pub fn size_from_reply(end: i64) -> (result: Result<u64, ReplyError>)
    ensures
        end >= 0 ==> result == Ok::<u64, ReplyError>(end as u64),
        end < 0 ==> result == Err::<u64, ReplyError>(ReplyError::NegativeSize),
{
    if end < 0 {
        Err(ReplyError::NegativeSize)
    } else {
        Ok(end as u64)
    }
}

/// How many bytes a Python `write` took: what it returned, or everything when it
/// returned `None`. A count beyond what was offered is taken as everything, since a
/// sink takes at most the bytes offered.
pub fn written_from_reply(requested: usize, written: Option<usize>) -> (n: usize)
    ensures
        n == match written {
            Some(w) => if w <= requested {
                w
            } else {
                requested
            },
            None => requested,
        },
        n <= requested,
{
    match written {
        Some(w) => if w <= requested {
            w
        } else {
            requested
        },
        None => requested,
    }
}

} // verus!
