use vstd::prelude::*;

use crate::source::{seek_target, SeekFrom};

verus! {

/// The bytes of a stream after `data` is written at `position`: later bytes are
/// overwritten, and a gap past the old end reads as zeros. Writing nothing changes
/// nothing.
pub open spec fn overwrite(content: Seq<u8>, position: int, data: Seq<u8>) -> Seq<u8> {
    let end = position + data.len();
    let len = if data.len() > 0 && content.len() < end {
        end
    } else {
        content.len() as int
    };
    Seq::new(
        len as nat,
        |i: int|
            if position <= i < end {
                data[i - position]
            } else if i < content.len() {
                content[i]
            } else {
                0u8
            },
    )
}

/// Writing `a` and then `b` right after it is writing `a + b`.
pub proof fn lemma_overwrite_then(content: Seq<u8>, position: int, a: Seq<u8>, b: Seq<u8>)
    requires
        0 <= position,
    ensures
        overwrite(overwrite(content, position, a), position + a.len(), b) == overwrite(
            content,
            position,
            a + b,
        ),
{
    let left = overwrite(overwrite(content, position, a), position + a.len(), b);
    let right = overwrite(content, position, a + b);
    if a.len() == 0 {
        assert(overwrite(content, position, a) =~= content);
        assert(a + b =~= b);
    }
    if b.len() == 0 {
        assert(a + b =~= a);
    }
    assert(left.len() == right.len());
    assert forall|i: int| 0 <= i < left.len() implies left[i] == right[i] by {
        if position <= i < position + a.len() {
            assert((a + b)[i - position] == a[i - position]);
        } else if position + a.len() <= i < position + a.len() + b.len() {
            assert((a + b)[i - position] == b[i - position - a.len()]);
        }
    }
    assert(left =~= right);
}

/// One call made on a byte sink and what it returned: a write with the length of the
/// bytes offered, a seek with where it was asked to go, or a tell.
pub enum SinkCall {
    Write(usize, Result<usize, std::io::Error>),
    Seek(SeekFrom, Result<u64, std::io::Error>),
    Tell(Result<u64, std::io::Error>),
}

/// How many bytes a call took: the count of a successful write, else none.
pub open spec fn took(call: SinkCall) -> int {
    match call {
        SinkCall::Write(_, Ok(t)) => t as int,
        _ => 0,
    }
}

/// How many bytes the calls took in all.
pub open spec fn taken(calls: Seq<SinkCall>) -> int
    decreases calls.len(),
{
    if calls.len() == 0 {
        0
    } else {
        taken(calls.drop_last()) + took(calls.last())
    }
}

/// The calls of a drain of `len` bytes that each took something: each write offered
/// the bytes that the writes before it had not taken.
pub open spec fn drain_calls(calls: Seq<SinkCall>, len: int) -> bool {
    forall|i: int|
        0 <= i < calls.len() ==> match #[trigger] calls[i] {
            SinkCall::Write(k, Ok(t)) => k == len - taken(calls.take(i)) && t > 0,
            _ => false,
        }
}

/// A call added to a record adds what it took.
proof fn lemma_taken_push(calls: Seq<SinkCall>, call: SinkCall)
    ensures
        taken(calls.push(call)) == taken(calls) + took(call),
{
    assert(calls.push(call).drop_last() =~= calls);
}

/// A synchronous byte sink that the writer streams an MXF file into.
///
/// A sink that obeys the model is a sequence of bytes written so far and a position
/// in it. A write puts bytes at the position and moves past them; a seek moves the
/// position; `tell` gives it. Any call may fail instead. Every sink takes at most the
/// bytes offered.
pub trait ByteSink: Send {
    /// Whether the sink follows the model of a byte sequence and a position; a sink
    /// that does not say so promises nothing about its bytes.
    open spec fn obeys_sink_model(&self) -> bool {
        false
    }

    /// Whether the sink's internal state is consistent.
    open spec fn sink_wf(&self) -> bool {
        true
    }

    /// The bytes written so far.
    open spec fn sink_content(&self) -> Seq<u8> {
        Seq::empty()
    }

    /// The current position.
    open spec fn sink_position(&self) -> u64 {
        0
    }

    /// Whether the sink keeps a record of the calls made on it.
    open spec fn records_sink_calls(&self) -> bool {
        false
    }

    /// The calls made on the sink so far and what each returned, for a sink that
    /// keeps a record; each write, seek or tell adds one entry.
    open spec fn sink_calls(&self) -> Seq<SinkCall> {
        Seq::empty()
    }

    fn write(&mut self, buf: &[u8]) -> (result: Result<usize, std::io::Error>)
        requires
            old(self).sink_wf(),
        ensures
            final(self).sink_wf(),
            final(self).obeys_sink_model() == old(self).obeys_sink_model(),
            result matches Ok(n) ==> n <= buf@.len(),
            old(self).records_sink_calls() ==> final(self).records_sink_calls() && final(self).sink_calls()
                == old(self).sink_calls().push(SinkCall::Write(buf@.len() as usize, result)),
            old(self).obeys_sink_model() ==> (result matches Ok(n) ==> {
                &&& final(self).sink_content() == overwrite(
                    old(self).sink_content(),
                    old(self).sink_position() as int,
                    buf@.take(n as int),
                )
                &&& final(self).sink_position() == old(self).sink_position() + n
            }),
    ;

    fn seek(&mut self, pos: SeekFrom) -> (result: Result<u64, std::io::Error>)
        requires
            old(self).sink_wf(),
        ensures
            final(self).sink_wf(),
            final(self).obeys_sink_model() == old(self).obeys_sink_model(),
            old(self).records_sink_calls() ==> final(self).records_sink_calls() && final(self).sink_calls()
                == old(self).sink_calls().push(SinkCall::Seek(pos, result)),
            old(self).obeys_sink_model() ==> final(self).sink_content() == old(self).sink_content(),
            old(self).obeys_sink_model() ==> (result matches Ok(p) ==> {
                let target = seek_target(
                    old(self).sink_position() as int,
                    old(self).sink_content().len() as int,
                    pos,
                );
                &&& final(self).sink_position() == p
                &&& 0 <= target
                &&& target <= u64::MAX ==> p == target
            }),
    ;

    fn tell(&mut self) -> (result: Result<u64, std::io::Error>)
        requires
            old(self).sink_wf(),
        ensures
            final(self).sink_wf(),
            final(self).obeys_sink_model() == old(self).obeys_sink_model(),
            old(self).records_sink_calls() ==> final(self).records_sink_calls() && final(self).sink_calls()
                == old(self).sink_calls().push(SinkCall::Tell(result)),
            old(self).obeys_sink_model() ==> final(self).sink_content() == old(self).sink_content(),
            old(self).obeys_sink_model() ==> final(self).sink_position() == old(self).sink_position(),
            old(self).obeys_sink_model() ==> (result matches Ok(p) ==> p == old(self).sink_position()),
    ;

    /// Whether the sink can seek backward; sinks are seekable unless they say otherwise.
    fn is_seekable(&self) -> (seekable: bool)
        default_ensures
            seekable,
    {
        true
    }
}

/// How a drain of a buffer into a sink ended.
#[derive(Clone, Copy, Debug, PartialEq, Eq, Structural)]
pub struct Drained {
    /// How many bytes the sink took.
    pub written: usize,
    /// Whether the drain stopped because a write took nothing.
    pub refused: bool,
}

/// One step of a drain: `written` bytes have gone in and the latest write took
/// `took` more. A write that took nothing ends the drain; otherwise the count grows.
pub fn drain_step(written: usize, took: usize, len: usize) -> (next: Option<usize>)
    requires
        written + took <= len,
    ensures
        took == 0 ==> next is None,
        took > 0 ==> next == Some((written + took) as usize),
{
    if took == 0 {
        None
    } else {
        Some(written + took)
    }
}

/// The record `after` keeps the record `before` and adds to it.
pub open spec fn keeps_calls(before: Seq<SinkCall>, after: Seq<SinkCall>) -> bool {
    &&& before.len() <= after.len()
    &&& after.take(before.len() as int) == before
}

/// The calls of a drain of `len` bytes that ended as `result`: writes that each took
/// something of what the writes before them had left, then, when the drain stopped
/// early, the write that took nothing or failed.
pub open spec fn drain_record(
    fresh: Seq<SinkCall>,
    len: int,
    result: Result<Drained, std::io::Error>,
) -> bool {
    match result {
        Ok(d) => if d.refused {
            &&& fresh.len() >= 1
            &&& drain_calls(fresh.drop_last(), len)
            &&& taken(fresh.drop_last()) == d.written
            &&& fresh.last() == SinkCall::Write(
                (len - d.written) as usize,
                Ok::<usize, std::io::Error>(0),
            )
        } else {
            &&& drain_calls(fresh, len)
            &&& taken(fresh) == d.written
        },
        Err(e) => {
            &&& fresh.len() >= 1
            &&& drain_calls(fresh.drop_last(), len)
            &&& fresh.last() == SinkCall::Write(
                (len - taken(fresh.drop_last())) as usize,
                Err::<usize, std::io::Error>(e),
            )
        },
    }
}

/// Writes `buf` to `sink` until all of it is written or a write takes nothing, each
/// write offered the part not yet written. It says how many bytes went in and whether
/// it stopped on a write that took nothing; a failed write's error is passed on. For a
/// sink that obeys the model, the bytes that went in are a prefix of `buf`, written
/// contiguously from the sink's position; for a sink that keeps a record of its calls,
/// the calls are exactly those of the drain.
pub fn write_available<K: ByteSink>(sink: &mut K, buf: &[u8]) -> (result: Result<
    Drained,
    std::io::Error,
>)
    requires
        old(sink).sink_wf(),
    ensures
        final(sink).sink_wf(),
        final(sink).obeys_sink_model() == old(sink).obeys_sink_model(),
        buf@.len() == 0 ==> (result == Ok::<Drained, std::io::Error>(
            Drained { written: 0, refused: false },
        ) && *final(sink) == *old(sink)),
        result matches Ok(d) ==> d.written <= buf@.len(),
        result matches Ok(d) ==> (d.refused <==> d.written < buf@.len()),
        old(sink).obeys_sink_model() ==> (result matches Ok(d) ==> {
            &&& final(sink).sink_content() == overwrite(
                old(sink).sink_content(),
                old(sink).sink_position() as int,
                buf@.take(d.written as int),
            )
            &&& final(sink).sink_position() == old(sink).sink_position() + d.written
        }),
        old(sink).records_sink_calls() ==> final(sink).records_sink_calls() && keeps_calls(
            old(sink).sink_calls(),
            final(sink).sink_calls(),
        ) && drain_record(
            final(sink).sink_calls().skip(old(sink).sink_calls().len() as int),
            buf@.len() as int,
            result,
        ),
{
    let ghost calls0 = sink.sink_calls();
    let ghost rec0 = sink.records_sink_calls();
    proof {
        assert(calls0.take(calls0.len() as int) =~= calls0);
        assert(calls0.skip(calls0.len() as int) =~= Seq::<SinkCall>::empty());
    }
    if buf.len() == 0 {
        return Ok(Drained { written: 0, refused: false });
    }
    let ghost obeys = sink.obeys_sink_model();
    let ghost start_content = sink.sink_content();
    let ghost start = sink.sink_position();
    let ghost len = buf@.len() as int;
    let mut written: usize = 0;
    proof {
        assert(buf@.take(0) =~= Seq::<u8>::empty());
        assert(overwrite(start_content, start as int, Seq::<u8>::empty()) =~= start_content);
    }
    while written < buf.len()
        invariant
            sink.sink_wf(),
            sink.obeys_sink_model() == obeys,
            obeys == old(sink).obeys_sink_model(),
            start_content == old(sink).sink_content(),
            start == old(sink).sink_position(),
            calls0 == old(sink).sink_calls(),
            rec0 == old(sink).records_sink_calls(),
            len == buf@.len(),
            written <= buf@.len(),
            obeys ==> sink.sink_content() == overwrite(
                start_content,
                start as int,
                buf@.take(written as int),
            ),
            obeys ==> sink.sink_position() == start + written,
            rec0 ==> {
                let fresh = sink.sink_calls().skip(calls0.len() as int);
                &&& sink.records_sink_calls()
                &&& keeps_calls(calls0, sink.sink_calls())
                &&& drain_calls(fresh, len)
                &&& taken(fresh) == written
            },
        decreases buf@.len() - written,
    {
        let rest = vstd::slice::slice_subrange(buf, written, buf.len());
        let ghost fresh = sink.sink_calls().skip(calls0.len() as int);
        let ghost calls1 = sink.sink_calls();
        let answer = sink.write(rest);
        let ghost call = SinkCall::Write(rest@.len() as usize, answer);
        proof {
            if rec0 {
                assert(sink.sink_calls() == calls1.push(call));
                assert(sink.sink_calls().skip(calls0.len() as int) =~= fresh.push(call));
                assert(sink.sink_calls().take(calls0.len() as int) =~= calls0);
                assert(fresh.push(call).drop_last() =~= fresh);
                assert(rest@.len() as usize == (len - taken(fresh)) as usize);
            }
        }
        let n = match answer {
            Ok(n) => n,
            Err(e) => {
                return Err(e);
            },
        };
        match drain_step(written, n, buf.len()) {
            None => {
                proof {
                    if obeys {
                        let c = overwrite(start_content, start as int, buf@.take(written as int));
                        assert(n == 0);
                        assert(rest@.take(n as int) =~= Seq::<u8>::empty());
                        assert(overwrite(c, start + written, Seq::<u8>::empty()) =~= c);
                    }
                }
                return Ok(Drained { written, refused: true });
            },
            Some(next) => {
                proof {
                    if obeys {
                        lemma_overwrite_then(
                            start_content,
                            start as int,
                            buf@.take(written as int),
                            rest@.take(n as int),
                        );
                        assert(buf@.take(written as int) + rest@.take(n as int) =~= buf@.take(
                            written + n,
                        ));
                    }
                    if rec0 {
                        let grown = fresh.push(call);
                        lemma_taken_push(fresh, call);
                        assert forall|i: int| 0 <= i < grown.len() implies match #[trigger] grown[i] {
                            SinkCall::Write(k, Ok(t)) => k == len - taken(grown.take(i)) && t > 0,
                            _ => false,
                        } by {
                            if i < fresh.len() {
                                assert(grown.take(i) =~= fresh.take(i));
                            } else {
                                assert(grown.take(i) =~= fresh);
                            }
                        }
                    }
                }
                written = next;
            },
        }
    }
    Ok(Drained { written, refused: false })
}

} // verus!
