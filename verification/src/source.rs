use vstd::prelude::*;

use std::io::Cursor;

use crate::types::ReadOptions;

verus! {

#[verifier::external_type_specification]
#[verifier::external_body]
pub struct ExIoError(std::io::Error);

#[verifier::external_type_specification]
#[verifier::external_body]
#[verifier::reject_recursive_types(T)]
pub struct ExCursor<T>(Cursor<T>);

/// Where a seek is measured from, as in `std::io::SeekFrom`.
#[derive(Clone, Copy, Debug, PartialEq, Eq, Structural)]
pub enum SeekFrom {
    /// An absolute offset from the start.
    Start(u64),
    /// An offset from the end.
    End(i64),
    /// An offset from the current position.
    Current(i64),
}

/// The position that a seek asks for, given the current position and the length.
pub open spec fn seek_target(position: int, len: int, from: SeekFrom) -> int {
    match from {
        SeekFrom::Start(offset) => offset as int,
        SeekFrom::Current(delta) => position + delta,
        SeekFrom::End(delta) => len + delta,
    }
}

/// The seek that the shim's stream callback asks for: whence 0 seeks from the start,
/// the offset taken as unsigned; 1 from the current position; 2 from the end. Any
/// other whence asks for nothing.
pub fn seek_from_whence(offset: i64, whence: i32) -> (pos: Option<SeekFrom>)
    ensures
        whence == 0 ==> pos == Some(SeekFrom::Start(offset as u64)),
        whence == 1 ==> pos == Some(SeekFrom::Current(offset)),
        whence == 2 ==> pos == Some(SeekFrom::End(offset)),
        !(0 <= whence <= 2) ==> pos is None,
{
    if whence == 0 {
        Some(SeekFrom::Start(offset as u64))
    } else if whence == 1 {
        Some(SeekFrom::Current(offset))
    } else if whence == 2 {
        Some(SeekFrom::End(offset))
    } else {
        None
    }
}

/// What the shim's read or write callback reports for `n` bytes moved: the count, or
/// -1 when it does not fit an `i32`.
pub fn callback_count(n: usize) -> (reply: i32)
    ensures
        n <= i32::MAX ==> reply == n as i32,
        n > i32::MAX ==> reply == -1,
{
    if n <= 0x7fff_ffffusize {
        n as i32
    } else {
        -1
    }
}

/// The position `delta` bytes from `base`: none when it would fall before the start,
/// and cut to 64 bits when it lies beyond them.
pub fn offset_target(base: u64, delta: i64) -> (target: Option<u64>)
    ensures
        base + delta < 0 ==> target is None,
        base + delta >= 0 ==> target == Some((base + delta) as u64),
{
    let signed: i128 = base as i128 + delta as i128;
    if signed < 0 {
        None
    } else {
        Some(signed as u64)
    }
}

/// The read-ahead window that opening a clip wraps its source in: none when the
/// options turn read-ahead off, so the source is read directly.
pub fn read_ahead_window(options: ReadOptions) -> (window: Option<usize>)
    ensures
        options.read_ahead == 0 ==> window is None,
        options.read_ahead != 0 ==> window == Some(options.read_ahead as usize),
{
    if options.read_ahead == 0 {
        None
    } else {
        Some(options.read_ahead as usize)
    }
}

/// The record entry of a read offered `len` bytes that returned `result`.
pub open spec fn read_call(len: nat, result: Result<usize, std::io::Error>) -> SourceCall {
    SourceCall::Read(len as usize, result)
}

/// The calls that `after` adds to the record `before`.
pub open spec fn added_calls(before: Seq<SourceCall>, after: Seq<SourceCall>) -> Seq<SourceCall> {
    after.skip(before.len() as int)
}

/// The record `after` keeps the record `before` and adds to it.
pub open spec fn extends(before: Seq<SourceCall>, after: Seq<SourceCall>) -> bool {
    &&& before.len() <= after.len()
    &&& after.take(before.len() as int) == before
}

/// A read offered `asked` bytes.
pub open spec fn is_read_of(call: SourceCall, asked: usize) -> bool {
    match call {
        SourceCall::Read(k, _) => k == asked,
        _ => false,
    }
}

/// A seek to the absolute position `position`.
pub open spec fn is_seek_to(call: SourceCall, position: u64) -> bool {
    match call {
        SourceCall::Seek(SeekFrom::Start(t), _) => t == position,
        _ => false,
    }
}

/// The error that a call returned, if it failed.
pub open spec fn call_error(call: SourceCall) -> Option<std::io::Error> {
    match call {
        SourceCall::Read(_, Err(e)) => Some(e),
        SourceCall::Seek(_, Err(e)) => Some(e),
        SourceCall::Size(Err(e)) => Some(e),
        _ => None,
    }
}

/// The count that a successful read returned.
pub open spec fn read_count_of(call: SourceCall) -> Option<usize> {
    match call {
        SourceCall::Read(_, Ok(n)) => Some(n),
        _ => None,
    }
}

/// The calls that bring a wrapped source, last known to stand at `known`, to
/// `position` and read `asked` bytes there: a seek to `position` unless the source is
/// known to be there, then one read, unless the seek failed.
pub open spec fn refill_calls(
    calls: Seq<SourceCall>,
    known: Option<u64>,
    position: u64,
    asked: usize,
) -> bool {
    if known == Some(position) {
        calls.len() == 1 && is_read_of(calls[0], asked)
    } else if calls.len() == 1 {
        is_seek_to(calls[0], position) && call_error(calls[0]) is Some
    } else {
        &&& calls.len() == 2
        &&& is_seek_to(calls[0], position)
        &&& call_error(calls[0]) is None
        &&& is_read_of(calls[1], asked)
    }
}

/// How many bytes a refill asks for: the window, or more when the read wants more.
pub open spec fn window_ask(window: usize, len: usize) -> usize {
    if window < len {
        len
    } else {
        window
    }
}

/// The smaller of two numbers.
pub open spec fn at_most(a: int, b: int) -> int {
    if a < b {
        a
    } else {
        b
    }
}

/// A successful read of `n` bytes at `position` from `content` into a buffer that
/// held `before` and holds `after`, leaving the stream at `next`.
pub open spec fn read_ok(
    content: Seq<u8>,
    position: u64,
    before: Seq<u8>,
    n: usize,
    after: Seq<u8>,
    next: u64,
) -> bool {
    &&& n <= before.len()
    &&& n > 0 ==> position + n <= content.len()
    &&& next == position + n
    &&& forall|i: int| 0 <= i < n ==> after[i] == content[position + i]
}

/// One call made on a byte source and what it returned: a read with the length of
/// the buffer offered, a seek with where it was asked to go, or a size.
pub enum SourceCall {
    Read(usize, Result<usize, std::io::Error>),
    Seek(SeekFrom, Result<u64, std::io::Error>),
    Size(Result<u64, std::io::Error>),
}

/// A synchronous random-access byte source.
///
/// A source that obeys the model is a fixed sequence of bytes and a position in it.
/// A read copies bytes from the position and moves past them; a seek moves the
/// position; the size is the length of the bytes. Any call may fail instead. A source
/// that does not say it obeys the model promises nothing about its bytes; every source
/// reads at most the bytes asked for.
pub trait ByteSource: Send {
    /// Whether the source follows the model of a byte sequence and a position.
    open spec fn obeys_source_model(&self) -> bool {
        false
    }

    /// Whether the source's internal state is consistent.
    open spec fn source_wf(&self) -> bool {
        true
    }

    /// The bytes of the stream.
    open spec fn source_content(&self) -> Seq<u8> {
        Seq::empty()
    }

    /// The current position in the stream.
    open spec fn source_position(&self) -> u64 {
        0
    }

    /// Whether the source keeps a record of the calls made on it.
    open spec fn records_calls(&self) -> bool {
        false
    }

    /// The calls made on the source so far and what each returned, for a source that
    /// keeps a record; each call adds one entry.
    open spec fn source_calls(&self) -> Seq<SourceCall> {
        Seq::empty()
    }

    fn read(&mut self, buf: &mut [u8]) -> (result: Result<usize, std::io::Error>)
        requires
            old(self).source_wf(),
        ensures
            final(self).source_wf(),
            final(self).obeys_source_model() == old(self).obeys_source_model(),
            final(buf)@.len() == old(buf)@.len(),
            result matches Ok(n) ==> n <= old(buf)@.len(),
            old(self).records_calls() ==> final(self).records_calls() && final(self).source_calls() == old(self).source_calls().push(
                SourceCall::Read(old(buf)@.len() as usize, result),
            ),
            old(self).obeys_source_model() ==> final(self).source_content() == old(
                self,
            ).source_content(),
            old(self).obeys_source_model() ==> (result matches Ok(n) ==> read_ok(
                old(self).source_content(),
                old(self).source_position(),
                old(buf)@,
                n,
                final(buf)@,
                final(self).source_position(),
            )),
    ;

    fn seek(&mut self, pos: SeekFrom) -> (result: Result<u64, std::io::Error>)
        requires
            old(self).source_wf(),
        ensures
            final(self).source_wf(),
            final(self).obeys_source_model() == old(self).obeys_source_model(),
            old(self).records_calls() ==> final(self).records_calls() && final(self).source_calls() == old(self).source_calls().push(SourceCall::Seek(pos, result)),
            old(self).obeys_source_model() ==> final(self).source_content() == old(
                self,
            ).source_content(),
            old(self).obeys_source_model() ==> (result matches Ok(p) ==> {
                let target = seek_target(
                    old(self).source_position() as int,
                    old(self).source_content().len() as int,
                    pos,
                );
                &&& final(self).source_position() == p
                &&& 0 <= target
                &&& target <= u64::MAX ==> p == target
            }),
    ;

    fn size(&mut self) -> (result: Result<u64, std::io::Error>)
        requires
            old(self).source_wf(),
        ensures
            final(self).source_wf(),
            final(self).obeys_source_model() == old(self).obeys_source_model(),
            old(self).records_calls() ==> final(self).records_calls() && final(self).source_calls() == old(self).source_calls().push(SourceCall::Size(result)),
            old(self).obeys_source_model() ==> final(self).source_content() == old(
                self,
            ).source_content(),
            old(self).obeys_source_model() ==> (result matches Ok(s) ==> {
                &&& s == old(self).source_content().len()
                &&& final(self).source_position() == old(self).source_position()
            }),
    ;
}

/// The bytes held by an in-memory cursor.
pub uninterp spec fn cursor_bytes(cursor: Cursor<Vec<u8>>) -> Seq<u8>;

/// The position of an in-memory cursor.
pub uninterp spec fn cursor_position(cursor: Cursor<Vec<u8>>) -> u64;

/// Calls `Read::read` on a cursor. The contract says what `Read` documents: a
/// successful read of `n` bytes fills the first `n` bytes of the buffer from the
/// cursor's position and advances it by `n`, and reads nothing only for an empty
/// buffer or at the end of the bytes; the bytes held do not change.
#[verifier::external_body]
fn cursor_read(cursor: &mut Cursor<Vec<u8>>, buf: &mut [u8]) -> (result: Result<
    usize,
    std::io::Error,
>)
    ensures
        cursor_bytes(*final(cursor)) == cursor_bytes(*old(cursor)),
        final(buf)@.len() == old(buf)@.len(),
        result matches Ok(n) ==> (n == 0 <==> (old(buf)@.len() == 0 || cursor_position(
            *old(cursor),
        ) >= cursor_bytes(*old(cursor)).len())),
        result matches Ok(n) ==> read_ok(
            cursor_bytes(*old(cursor)),
            cursor_position(*old(cursor)),
            old(buf)@,
            n,
            final(buf)@,
            cursor_position(*final(cursor)),
        ),
{
    std::io::Read::read(cursor, buf)
}

/// Calls `Seek::seek` on a cursor, converting the seek origin. The contract says what
/// `Seek` and `SeekFrom` document: a successful seek lands on the asked-for position,
/// which is not negative, and returns it; the bytes held do not change.
#[verifier::external_body]
fn cursor_seek(cursor: &mut Cursor<Vec<u8>>, pos: SeekFrom) -> (result: Result<
    u64,
    std::io::Error,
>)
    ensures
        cursor_bytes(*final(cursor)) == cursor_bytes(*old(cursor)),
        result matches Ok(p) ==> {
            let target = seek_target(
                cursor_position(*old(cursor)) as int,
                cursor_bytes(*old(cursor)).len() as int,
                pos,
            );
            &&& cursor_position(*final(cursor)) == p
            &&& 0 <= target
            &&& target <= u64::MAX ==> p == target
        },
{
    let from = match pos {
        SeekFrom::Start(offset) => std::io::SeekFrom::Start(offset),
        SeekFrom::End(delta) => std::io::SeekFrom::End(delta),
        SeekFrom::Current(delta) => std::io::SeekFrom::Current(delta),
    };
    std::io::Seek::seek(cursor, from)
}

/// Calls `Cursor::get_ref`, which gives the bytes that the cursor holds.
#[verifier::external_body]
fn cursor_get_ref(cursor: &Cursor<Vec<u8>>) -> (bytes: &Vec<u8>)
    ensures
        bytes@ == cursor_bytes(*cursor),
{
    cursor.get_ref()
}

impl ByteSource for Cursor<Vec<u8>> {
    open spec fn obeys_source_model(&self) -> bool {
        true
    }

    open spec fn source_content(&self) -> Seq<u8> {
        cursor_bytes(*self)
    }

    open spec fn source_position(&self) -> u64 {
        cursor_position(*self)
    }

    fn read(&mut self, buf: &mut [u8]) -> (result: Result<usize, std::io::Error>)
        ensures
            result matches Ok(n) ==> (n == 0 <==> (old(buf)@.len() == 0 || cursor_position(
                *old(self),
            ) >= cursor_bytes(*old(self)).len())),
    {
        cursor_read(self, buf)
    }

    fn seek(&mut self, pos: SeekFrom) -> (result: Result<u64, std::io::Error>) {
        cursor_seek(self, pos)
    }

    fn size(&mut self) -> (result: Result<u64, std::io::Error>)
        ensures
            result matches Ok(s) && s == cursor_bytes(*old(self)).len(),
            *final(self) == *old(self),
    {
        let len = cursor_get_ref(self).len();
        Ok(len as u64)
    }
}

/// The bytes that an in-memory cursor over a borrowed slice reads.
pub uninterp spec fn slice_cursor_bytes(cursor: Cursor<&[u8]>) -> Seq<u8>;

/// The position of an in-memory cursor over a borrowed slice.
pub uninterp spec fn slice_cursor_position(cursor: Cursor<&[u8]>) -> u64;

/// Calls `Read::read` on a cursor over a borrowed slice; the contract is that of
/// `cursor_read`.
#[verifier::external_body]
fn slice_cursor_read(cursor: &mut Cursor<&[u8]>, buf: &mut [u8]) -> (result: Result<
    usize,
    std::io::Error,
>)
    ensures
        slice_cursor_bytes(*final(cursor)) == slice_cursor_bytes(*old(cursor)),
        final(buf)@.len() == old(buf)@.len(),
        result matches Ok(n) ==> (n == 0 <==> (old(buf)@.len() == 0 || slice_cursor_position(
            *old(cursor),
        ) >= slice_cursor_bytes(*old(cursor)).len())),
        result matches Ok(n) ==> read_ok(
            slice_cursor_bytes(*old(cursor)),
            slice_cursor_position(*old(cursor)),
            old(buf)@,
            n,
            final(buf)@,
            slice_cursor_position(*final(cursor)),
        ),
{
    std::io::Read::read(cursor, buf)
}

/// Calls `Seek::seek` on a cursor over a borrowed slice, converting the seek origin;
/// the contract is that of `cursor_seek`.
#[verifier::external_body]
fn slice_cursor_seek(cursor: &mut Cursor<&[u8]>, pos: SeekFrom) -> (result: Result<
    u64,
    std::io::Error,
>)
    ensures
        slice_cursor_bytes(*final(cursor)) == slice_cursor_bytes(*old(cursor)),
        result matches Ok(p) ==> {
            let target = seek_target(
                slice_cursor_position(*old(cursor)) as int,
                slice_cursor_bytes(*old(cursor)).len() as int,
                pos,
            );
            &&& slice_cursor_position(*final(cursor)) == p
            &&& 0 <= target
            &&& target <= u64::MAX ==> p == target
        },
{
    let from = match pos {
        SeekFrom::Start(offset) => std::io::SeekFrom::Start(offset),
        SeekFrom::End(delta) => std::io::SeekFrom::End(delta),
        SeekFrom::Current(delta) => std::io::SeekFrom::Current(delta),
    };
    std::io::Seek::seek(cursor, from)
}

/// Calls `Cursor::get_ref` on a cursor over a borrowed slice, which gives the slice.
#[verifier::external_body]
fn slice_cursor_get_ref<'a>(cursor: &Cursor<&'a [u8]>) -> (bytes: &'a [u8])
    ensures
        bytes@ == slice_cursor_bytes(*cursor),
{
    cursor.get_ref()
}

impl<'a> ByteSource for Cursor<&'a [u8]> {
    open spec fn obeys_source_model(&self) -> bool {
        true
    }

    open spec fn source_content(&self) -> Seq<u8> {
        slice_cursor_bytes(*self)
    }

    open spec fn source_position(&self) -> u64 {
        slice_cursor_position(*self)
    }

    fn read(&mut self, buf: &mut [u8]) -> (result: Result<usize, std::io::Error>)
        ensures
            result matches Ok(n) ==> (n == 0 <==> (old(buf)@.len() == 0 || slice_cursor_position(
                *old(self),
            ) >= slice_cursor_bytes(*old(self)).len())),
    {
        slice_cursor_read(self, buf)
    }

    fn seek(&mut self, pos: SeekFrom) -> (result: Result<u64, std::io::Error>) {
        slice_cursor_seek(self, pos)
    }

    fn size(&mut self) -> (result: Result<u64, std::io::Error>)
        ensures
            result matches Ok(s) && s == slice_cursor_bytes(*old(self)).len(),
            *final(self) == *old(self),
    {
        let len = slice_cursor_get_ref(self).len();
        Ok(len as u64)
    }
}

/// Calls `std::io::Error::new` with the kind `InvalidInput` and the given message.
#[verifier::external_body]
fn invalid_input(message: &str) -> std::io::Error {
    std::io::Error::new(std::io::ErrorKind::InvalidInput, message.to_owned())
}

/// Calls `std::io::Error::other` with the given message.
#[verifier::external_body]
fn other_error(message: &str) -> std::io::Error {
    std::io::Error::other(message.to_owned())
}

/// Read-ahead window modelled on bmx's HTTP file reader.
///
/// A short read pulls a window; a seek that lands inside the window does not
/// issue another request.
pub struct ReadAhead<S> {
    inner: S,
    window: usize,
    buf: Vec<u8>,
    buf_pos: u64,
    buf_valid: usize,
    pos: u64,
    inner_pos: Option<u64>,
}

impl<S: ByteSource> ReadAhead<S> {
    /// The wrapped source.
    pub closed spec fn inner_source(&self) -> S {
        self.inner
    }

    /// The size of the window that a miss pulls.
    pub closed spec fn window_size(&self) -> usize {
        self.window
    }

    /// The stream offset of the bytes held in the window.
    pub closed spec fn window_start(&self) -> u64 {
        self.buf_pos
    }

    /// How many bytes the window holds.
    pub closed spec fn window_len(&self) -> usize {
        self.buf_valid
    }

    /// Whether a read at `position` is served from the window.
    pub open spec fn in_window(&self, position: u64) -> bool {
        self.window_start() <= position < self.window_start() + self.window_len()
    }

    /// The bytes that the window holds.
    pub closed spec fn window_bytes(&self) -> Seq<u8> {
        self.buf@.take(self.buf_valid as int)
    }

    /// How many bytes the latest refill asked of the wrapped source.
    pub closed spec fn window_request(&self) -> nat {
        self.buf@.len()
    }

    /// Where the wrapped source is known to stand, if that is known.
    pub closed spec fn inner_recorded(&self) -> Option<u64> {
        self.inner_pos
    }

    /// The same value with another wrapped source.
    pub closed spec fn with_inner(self, inner: S) -> Self {
        ReadAhead { inner, ..self }
    }

    /// The window lies within the stream positions; for a source that obeys the model,
    /// it holds the stream's bytes from its start, and the wrapped source is at the
    /// recorded position where one is recorded.
    closed spec fn consistent(&self) -> bool {
        &&& self.inner.source_wf()
        &&& self.buf_valid <= self.buf@.len()
        &&& self.buf_pos + self.buf_valid <= u64::MAX
        &&& self.inner.obeys_source_model() ==> {
            &&& self.buf_valid > 0 ==> self.buf_pos + self.buf_valid
                <= self.inner.source_content().len()
            &&& forall|i: int|
                0 <= i < self.buf_valid ==> self.buf@[i] == self.inner.source_content()[self.buf_pos
                    + i]
            &&& self.inner_pos matches Some(p) ==> p == self.inner.source_position()
        }
    }

    pub fn inner(&self) -> (inner: &S)
        ensures
            *inner == self.inner_source(),
    {
        &self.inner
    }

    pub fn inner_mut(&mut self) -> (inner: &mut S)
        ensures
            *inner == old(self).inner_source(),
            *final(self) == old(self).with_inner(*final(inner)),
    {
        &mut self.inner
    }

    /// Wraps `inner`, which is first sought to its start: one seek, and no read.
    pub fn new(inner: S, window: usize) -> (result: Result<Self, std::io::Error>)
        requires
            inner.source_wf(),
        ensures
            result matches Ok(source) ==> {
                &&& source.source_wf()
                &&& source.obeys_source_model() == inner.obeys_source_model()
                &&& inner.obeys_source_model() ==> source.source_content() == inner.source_content()
                    && source.source_position() == 0
                &&& source.window_size() == window
                &&& source.window_len() == 0
                &&& source.inner_recorded() == Some(source.source_position())
                &&& inner.records_calls() ==> source.inner_source().records_calls()
                    && source.inner_source().source_calls() == inner.source_calls().push(
                    SourceCall::Seek(
                        SeekFrom::Start(0),
                        Ok::<u64, std::io::Error>(source.source_position()),
                    ),
                )
            },
    {
        let mut inner = inner;
        let sought = inner.seek(SeekFrom::Start(0));
        Self::from_seek(inner, window, sought)
    }

    /// The read-ahead source over `inner` after the seek to its start returned
    /// `sought`: its error, or the source at the position that the seek reached, with
    /// an empty window.
    pub fn from_seek(inner: S, window: usize, sought: Result<u64, std::io::Error>) -> (result:
        Result<Self, std::io::Error>)
        requires
            inner.source_wf(),
            inner.obeys_source_model() ==> (sought matches Ok(q) ==> inner.source_position()
                == q),
        ensures
            sought matches Err(e) ==> (result matches Err(e2) && e2 == e),
            sought matches Ok(q) ==> (result matches Ok(source) && {
                &&& source.source_wf()
                &&& source.inner_source() == inner
                &&& source.source_position() == q
                &&& source.inner_recorded() == Some(q)
                &&& source.window_size() == window
                &&& source.window_len() == 0
            }),
    {
        match sought {
            Ok(pos) => Ok(
                ReadAhead {
                    inner,
                    window,
                    buf: Vec::new(),
                    buf_pos: 0,
                    buf_valid: 0,
                    pos,
                    inner_pos: Some(pos),
                },
            ),
            Err(error) => Err(error),
        }
    }

    /// Moves the wrapped source to the logical position unless it is known to be
    /// there already.
    fn sync_inner(&mut self) -> (result: Result<(), std::io::Error>)
        requires
            old(self).consistent(),
        ensures
            final(self).consistent(),
            final(self).inner.obeys_source_model() == old(self).inner.obeys_source_model(),
            old(self).inner.obeys_source_model() ==> final(self).inner.source_content() == old(
                self,
            ).inner.source_content(),
            final(self).pos == old(self).pos,
            final(self).window == old(self).window,
            final(self).buf_pos == old(self).buf_pos,
            final(self).buf_valid == old(self).buf_valid,
            result is Ok ==> final(self).inner_pos == Some(final(self).pos),
            result is Err ==> final(self).inner_pos is None,
            old(self).inner_pos == Some(old(self).pos) ==> result is Ok && *final(self) == *old(
                self,
            ),
            old(self).inner.records_calls() ==> final(self).inner.records_calls() && extends(
                old(self).inner.source_calls(),
                final(self).inner.source_calls(),
            ),
            old(self).inner.records_calls() && old(self).inner_pos != Some(old(self).pos) ==> {
                let fresh = added_calls(
                    old(self).inner.source_calls(),
                    final(self).inner.source_calls(),
                );
                &&& fresh.len() == 1
                &&& is_seek_to(fresh[0], old(self).pos)
                &&& (call_error(fresh[0]) is Some <==> result is Err)
                &&& call_error(fresh[0]) matches Some(e) ==> (result matches Err(e2) && e2 == e)
            },
    {
        let ghost calls0 = self.inner.source_calls();
        let ghost rec0 = self.inner.records_calls();
        let synced = match self.inner_pos {
            Some(p) => p == self.pos,
            None => false,
        };
        if !synced {
            let sought = self.inner.seek(SeekFrom::Start(self.pos));
            proof {
                if rec0 {
                    assert(added_calls(calls0, self.inner.source_calls()) =~= seq![
                        SourceCall::Seek(SeekFrom::Start(self.pos), sought),
                    ]);
                    assert(self.inner.source_calls().take(calls0.len() as int) =~= calls0);
                }
            }
            match sought {
                Ok(_) => {
                    self.inner_pos = Some(self.pos);
                },
                Err(error) => {
                    self.inner_pos = None;
                    return Err(error);
                },
            }
        } else {
            proof {
                assert(self.inner.source_calls().take(calls0.len() as int) =~= calls0);
            }
        }
        Ok(())
    }

    /// Copies to the front of `buf` the window's bytes from the logical position on, as
    /// many as fit, and moves past them.
    fn serve(&mut self, buf: &mut [u8]) -> (n: usize)
        requires
            old(self).consistent(),
            old(self).buf_pos <= old(self).pos <= old(self).buf_pos + old(self).buf_valid,
        ensures
            final(self).consistent(),
            n == at_most(
                old(self).buf_pos + old(self).buf_valid - old(self).pos,
                old(buf)@.len() as int,
            ),
            final(buf)@.len() == old(buf)@.len(),
            final(buf)@.take(n as int) == old(self).buf@.subrange(
                old(self).pos - old(self).buf_pos,
                old(self).pos - old(self).buf_pos + n,
            ),
            final(buf)@.skip(n as int) == old(buf)@.skip(n as int),
            old(self).inner.obeys_source_model() ==> forall|j: int|
                0 <= j < n ==> final(buf)@[j] == old(self).inner.source_content()[old(self).pos
                    + j],
            final(self).pos == old(self).pos + n,
            final(self).inner == old(self).inner,
            final(self).window == old(self).window,
            final(self).buf == old(self).buf,
            final(self).buf_pos == old(self).buf_pos,
            final(self).buf_valid == old(self).buf_valid,
            final(self).inner_pos == old(self).inner_pos,
    {
        let offset = (self.pos - self.buf_pos) as usize;
        let available = self.buf_valid - offset;
        let n = if available < buf.len() {
            available
        } else {
            buf.len()
        };
        let ghost before = buf@;
        let mut i: usize = 0;
        while i < n
            invariant
                self.consistent(),
                i <= n,
                offset + n <= self.buf_valid,
                n <= buf@.len(),
                buf@.len() == before.len(),
                self.pos == self.buf_pos + offset,
                forall|j: int| 0 <= j < i ==> buf@[j] == self.buf@[offset + j],
                forall|j: int| i <= j < buf@.len() ==> buf@[j] == before[j],
                self.inner.obeys_source_model() ==> forall|j: int|
                    0 <= j < i ==> buf@[j] == self.inner.source_content()[self.pos + j],
            decreases n - i,
        {
            buf[i] = self.buf[offset + i];
            i = i + 1;
        }
        assert(buf@.take(n as int) =~= self.buf@.subrange(offset as int, offset + n));
        assert(buf@.skip(n as int) =~= before.skip(n as int));
        self.pos = self.pos + n as u64;
        n
    }

    /// Refills the window at the logical position with at least `min_len` bytes asked.
    fn fill(&mut self, min_len: usize) -> (result: Result<usize, std::io::Error>)
        requires
            old(self).consistent(),
        ensures
            final(self).consistent(),
            final(self).inner.obeys_source_model() == old(self).inner.obeys_source_model(),
            old(self).inner.obeys_source_model() ==> final(self).inner.source_content() == old(
                self,
            ).inner.source_content(),
            final(self).pos == old(self).pos,
            final(self).window == old(self).window,
            result is Err ==> final(self).inner_pos is None,
            result matches Ok(n) ==> {
                &&& final(self).buf_pos == old(self).pos
                &&& final(self).buf_valid == n
                &&& final(self).inner_pos == Some((old(self).pos + n) as u64)
                &&& final(self).buf@.len() == if old(self).window < min_len {
                    min_len
                } else {
                    old(self).window
                }
                &&& n <= if old(self).window < min_len {
                    min_len
                } else {
                    old(self).window
                }
            },
            old(self).inner.records_calls() ==> final(self).inner.records_calls() && extends(
                old(self).inner.source_calls(),
                final(self).inner.source_calls(),
            ),
            old(self).inner.records_calls() ==> {
                let fresh = added_calls(
                    old(self).inner.source_calls(),
                    final(self).inner.source_calls(),
                );
                &&& refill_calls(
                    fresh,
                    old(self).inner_pos,
                    old(self).pos,
                    window_ask(old(self).window, min_len),
                )
                &&& call_error(fresh.last()) matches Some(e) ==> (result matches Err(e2) && e2
                    == e)
                &&& result matches Ok(n) ==> read_count_of(fresh.last()) == Some(n)
            },
    {
        let ghost calls0 = self.inner.source_calls();
        let ghost rec0 = self.inner.records_calls();
        let ghost known = self.inner_pos;
        let want = if self.window < min_len {
            min_len
        } else {
            self.window
        };
        match self.sync_inner() {
            Ok(()) => {},
            Err(error) => {
                proof {
                    if rec0 {
                        assert(added_calls(calls0, self.inner.source_calls()).last()
                            == added_calls(calls0, self.inner.source_calls())[0]);
                    }
                }
                return Err(error);
            },
        }
        let ghost calls1 = self.inner.source_calls();
        self.buf.resize(want, 0u8);
        let ghost content = self.inner.source_content();
        let ghost start = self.inner.source_position();
        let ghost before = self.buf@;
        let answer = self.inner.read(self.buf.as_mut_slice());
        proof {
            if rec0 {
                let fresh = added_calls(calls0, self.inner.source_calls());
                assert(self.inner.source_calls() == calls1.push(SourceCall::Read(want, answer)));
                if known == Some(self.pos) {
                    assert(calls1 =~= calls0);
                    assert(fresh =~= seq![SourceCall::Read(want, answer)]);
                } else {
                    let first = added_calls(calls0, calls1);
                    assert(calls1 =~= calls0 + first);
                    assert(fresh =~= first.push(SourceCall::Read(want, answer)));
                }
                assert(self.inner.source_calls().take(calls0.len() as int) =~= calls0);
            }
        }
        match answer {
            Ok(n) => {
                if n as u64 > u64::MAX - self.pos {
                    self.buf_valid = 0;
                    self.inner_pos = None;
                    return Err(other_error("read past the largest stream position"));
                }
                self.buf_valid = n;
                self.buf_pos = self.pos;
                self.inner_pos = Some(self.pos + n as u64);
                Ok(n)
            },
            Err(error) => {
                self.buf_valid = 0;
                self.inner_pos = None;
                Err(error)
            },
        }
    }
}

impl<S: ByteSource> ByteSource for ReadAhead<S> {
    closed spec fn obeys_source_model(&self) -> bool {
        self.inner.obeys_source_model()
    }

    closed spec fn source_wf(&self) -> bool {
        self.consistent()
    }

    closed spec fn source_content(&self) -> Seq<u8> {
        self.inner.source_content()
    }

    closed spec fn source_position(&self) -> u64 {
        self.pos
    }

    fn read(&mut self, buf: &mut [u8]) -> (result: Result<usize, std::io::Error>)
        ensures
            old(buf)@.len() == 0 ==> result == Ok::<usize, std::io::Error>(0)
                && *final(self) == *old(self),
            old(self).window_size() > 0 && old(buf)@.len() > 0 && old(self).in_window(
                old(self).source_position(),
            ) ==> {
                let available = old(self).window_start() + old(self).window_len()
                    - old(self).source_position();
                &&& final(self).inner_source() == old(self).inner_source()
                &&& result == Ok::<usize, std::io::Error>(
                    if available < old(buf)@.len() {
                        available as usize
                    } else {
                        old(buf)@.len() as usize
                    },
                )
            },
            result matches Ok(n) ==> final(self).source_position() == old(self).source_position()
                + n,
            old(self).window_size() > 0 && old(buf)@.len() > 0 && old(self).in_window(
                old(self).source_position(),
            ) ==> {
                &&& final(self).window_start() == old(self).window_start()
                &&& final(self).window_len() == old(self).window_len()
                &&& final(self).window_bytes() == old(self).window_bytes()
            },
            old(self).window_size() > 0 && old(buf)@.len() > 0 && !old(self).in_window(
                old(self).source_position(),
            ) ==> (result matches Ok(n) ==> {
                &&& final(self).window_start() == old(self).source_position()
                &&& n == at_most(final(self).window_len() as int, old(buf)@.len() as int)
                &&& final(self).window_request() == if old(self).window_size() < old(
                    buf,
                )@.len() {
                    old(buf)@.len() as nat
                } else {
                    old(self).window_size() as nat
                }
                &&& final(self).inner_recorded() == Some(
                    (old(self).source_position() + final(self).window_len()) as u64,
                )
                &&& final(self).window_len() <= final(self).window_request()
                &&& old(self).inner_source().records_calls() ==> read_count_of(
                    added_calls(
                        old(self).inner_source().source_calls(),
                        final(self).inner_source().source_calls(),
                    ).last(),
                ) == Some(final(self).window_len())
            }),
            old(self).window_size() > 0 && old(buf)@.len() > 0 ==> (result matches Ok(n) ==> {
                &&& final(buf)@.skip(n as int) == old(buf)@.skip(n as int)
                &&& final(buf)@.take(n as int) == final(self).window_bytes().subrange(
                    old(self).source_position() - final(self).window_start(),
                    old(self).source_position() - final(self).window_start() + n,
                )
            }),
            old(self).inner_source().records_calls() ==> final(self).inner_source().records_calls()
                && extends(
                old(self).inner_source().source_calls(),
                final(self).inner_source().source_calls(),
            ),
            old(self).inner_source().records_calls() && old(buf)@.len() > 0 && !(old(
                self,
            ).window_size() > 0 && old(self).in_window(old(self).source_position())) ==> {
                let fresh = added_calls(
                    old(self).inner_source().source_calls(),
                    final(self).inner_source().source_calls(),
                );
                let len = old(buf)@.len() as usize;
                let asked = if old(self).window_size() == 0 {
                    len
                } else {
                    window_ask(old(self).window_size(), len)
                };
                &&& refill_calls(
                    fresh,
                    old(self).inner_recorded(),
                    old(self).source_position(),
                    asked,
                )
                &&& call_error(fresh.last()) matches Some(e) ==> (result matches Err(e2) && e2
                    == e)
                &&& result matches Ok(n) ==> (read_count_of(fresh.last()) matches Some(m) && n
                    == if old(self).window_size() == 0 {
                    m as int
                } else {
                    at_most(m as int, len as int)
                })
            },
            old(self).window_size() == 0 && old(buf)@.len() > 0 ==> (result matches Ok(n) ==> {
                &&& final(self).inner_recorded() == Some((old(self).source_position() + n) as u64)
                &&& final(self).window_start() == old(self).window_start()
                &&& final(self).window_len() == old(self).window_len()
            }),
    {
        proof {
            let calls = self.inner.source_calls();
            assert(calls.take(calls.len() as int) =~= calls);
        }
        if buf.len() == 0 {
            return Ok(0);
        }
        if self.window == 0 {
            let ghost calls0 = self.inner.source_calls();
            let ghost rec0 = self.inner.records_calls();
            let ghost known = self.inner_pos;
            let ghost len = buf@.len() as usize;
            match self.sync_inner() {
                Ok(()) => {},
                Err(error) => {
                    proof {
                        if rec0 {
                            assert(added_calls(calls0, self.inner.source_calls()).last()
                                == added_calls(calls0, self.inner.source_calls())[0]);
                        }
                    }
                    return Err(error);
                },
            }
            let ghost calls1 = self.inner.source_calls();
            let answer = self.inner.read(buf);
            proof {
                if rec0 {
                    let fresh = added_calls(calls0, self.inner.source_calls());
                    assert(self.inner.source_calls() == calls1.push(SourceCall::Read(len, answer)));
                    if known == Some(self.pos) {
                        assert(calls1 =~= calls0);
                        assert(fresh =~= seq![SourceCall::Read(len, answer)]);
                    } else {
                        let first = added_calls(calls0, calls1);
                        assert(calls1 =~= calls0 + first);
                        assert(fresh =~= first.push(SourceCall::Read(len, answer)));
                    }
                    assert(self.inner.source_calls().take(calls0.len() as int) =~= calls0);
                }
            }
            match answer {
                Ok(n) => {
                    if n as u64 > u64::MAX - self.pos {
                        self.inner_pos = None;
                        return Err(other_error("read past the largest stream position"));
                    }
                    self.pos = self.pos + n as u64;
                    self.inner_pos = Some(self.pos);
                    return Ok(n);
                },
                Err(error) => {
                    self.inner_pos = None;
                    return Err(error);
                },
            }
        }
        if self.pos >= self.buf_pos && self.pos < self.buf_pos + self.buf_valid as u64 {
            let n = self.serve(buf);
            return Ok(n);
        }
        self.fill(buf.len())?;
        let n = self.serve(buf);
        Ok(n)
    }

    fn seek(&mut self, pos: SeekFrom) -> (result: Result<u64, std::io::Error>)
        ensures
            result matches Ok(p) ==> final(self).source_position() == p,
            old(self).obeys_source_model() || !(pos is End) ==> (result matches Ok(p) ==> p
                == seek_target(
                old(self).source_position() as int,
                old(self).source_content().len() as int,
                pos,
            ) as u64),
            result is Err ==> final(self).source_position() == old(self).source_position(),
            pos matches SeekFrom::Start(offset) ==> (result matches Ok(p) && p == offset),
            pos matches SeekFrom::Current(delta) ==> (result is Ok <==> old(
                self,
            ).source_position() + delta >= 0),
            pos matches SeekFrom::End(delta) ==> (old(self).obeys_source_model() && old(
                self,
            ).source_content().len() + delta < 0 ==> result is Err),
            !(pos is End) ==> final(self).inner_source() == old(self).inner_source(),
            result is Ok ==> final(self).inner_recorded() == old(self).inner_recorded(),
            old(self).inner_source().records_calls() ==> final(self).inner_source().records_calls()
                && extends(
                old(self).inner_source().source_calls(),
                final(self).inner_source().source_calls(),
            ),
            old(self).inner_source().records_calls() ==> (pos matches SeekFrom::End(delta) ==> {
                let fresh = added_calls(
                    old(self).inner_source().source_calls(),
                    final(self).inner_source().source_calls(),
                );
                &&& fresh.len() == 1
                &&& match fresh[0] {
                    SourceCall::Size(Ok(size)) => {
                        &&& size + delta >= 0 ==> (result matches Ok(p) && p == (size + delta) as u64)
                        &&& size + delta < 0 ==> result is Err
                    },
                    SourceCall::Size(Err(e)) => result matches Err(e2) && e2 == e,
                    _ => false,
                }
            }),
            final(self).window_start() == old(self).window_start(),
            final(self).window_len() == old(self).window_len(),
            final(self).window_size() == old(self).window_size(),
    {
        proof {
            let calls = self.inner.source_calls();
            assert(calls.take(calls.len() as int) =~= calls);
        }
        let target: u64 = match pos {
            SeekFrom::Start(offset) => offset,
            SeekFrom::Current(delta) => match offset_target(self.pos, delta) {
                Some(t) => t,
                None => {
                    return Err(invalid_input("seek before start of file"));
                },
            },
            SeekFrom::End(delta) => {
                let ghost calls0 = self.inner.source_calls();
                let ghost rec0 = self.inner.records_calls();
                let answer = self.inner.size();
                proof {
                    if rec0 {
                        assert(added_calls(calls0, self.inner.source_calls()) =~= seq![
                            SourceCall::Size(answer),
                        ]);
                        assert(self.inner.source_calls().take(calls0.len() as int) =~= calls0);
                    }
                }
                let size = match answer {
                    Ok(size) => size,
                    Err(error) => {
                        self.inner_pos = None;
                        return Err(error);
                    },
                };
                match offset_target(size, delta) {
                    Some(t) => t,
                    None => {
                        return Err(invalid_input("seek before start of file"));
                    },
                }
            },
        };
        self.pos = target;
        Ok(target)
    }

    fn size(&mut self) -> (result: Result<u64, std::io::Error>)
        ensures
            final(self).source_position() == old(self).source_position(),
            final(self).window_start() == old(self).window_start(),
            final(self).window_len() == old(self).window_len(),
            final(self).window_size() == old(self).window_size(),
            old(self).inner_source().records_calls() ==> final(self).inner_source().records_calls()
                && final(self).inner_source().source_calls() == old(
                self,
            ).inner_source().source_calls().push(SourceCall::Size(result)),
    {
        match self.inner.size() {
            Ok(size) => Ok(size),
            Err(error) => {
                self.inner_pos = None;
                Err(error)
            },
        }
    }
}

} // verus!
