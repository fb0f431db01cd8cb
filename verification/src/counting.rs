use vstd::prelude::*;

use std::sync::atomic::AtomicUsize;
use std::sync::atomic::Ordering;
use std::sync::Arc;

use crate::source::{read_call, ByteSource, SeekFrom, SourceCall};

verus! {

/// A byte source that records how many `read` calls were issued and how many bytes
/// they returned. It also keeps, as a record for proofs, every call made through it.
pub struct CountingSource<S> {
    inner: S,
    pub reads: Arc<AtomicUsize>,
    pub bytes: Arc<AtomicUsize>,
    calls: Ghost<Seq<SourceCall>>,
}

impl<S: ByteSource> CountingSource<S> {
    /// The wrapped source.
    pub closed spec fn inner_source(&self) -> S {
        self.inner
    }

    pub fn new(inner: S) -> (source: Self)
        ensures
            source.inner_source() == inner,
            source.source_calls() == Seq::<SourceCall>::empty(),
    {
        CountingSource {
            inner,
            reads: Arc::new(AtomicUsize::new(0)),
            bytes: Arc::new(AtomicUsize::new(0)),
            calls: Ghost(Seq::empty()),
        }
    }

    /// The number of `read` calls counted so far. The counter is shared through
    /// `reads`, so its value is not known here.
    pub fn read_count(&self) -> usize {
        self.reads.load(Ordering::SeqCst)
    }
}

impl<S: ByteSource> ByteSource for CountingSource<S> {
    open spec fn obeys_source_model(&self) -> bool {
        self.inner_source().obeys_source_model()
    }

    open spec fn source_wf(&self) -> bool {
        self.inner_source().source_wf()
    }

    open spec fn source_content(&self) -> Seq<u8> {
        self.inner_source().source_content()
    }

    open spec fn source_position(&self) -> u64 {
        self.inner_source().source_position()
    }

    open spec fn records_calls(&self) -> bool {
        true
    }

    closed spec fn source_calls(&self) -> Seq<SourceCall> {
        self.calls@
    }

    /// Forwards to the wrapped source: the wrapped source makes this same call and its
    /// answer is returned.
    fn read(&mut self, buf: &mut [u8]) -> (result: Result<usize, std::io::Error>)
        ensures
            old(self).inner_source().records_calls() ==> final(self).inner_source().records_calls(),
            old(self).inner_source().records_calls() ==> final(self).inner_source().source_calls()
                == old(self).inner_source().source_calls().push(
                read_call(old(buf)@.len(), result),
            ),
    {
        let len = buf.len();
        self.reads.fetch_add(1, Ordering::SeqCst);
        let answer = self.inner.read(buf);
        self.calls = Ghost(self.calls@.push(SourceCall::Read(len, answer)));
        let n = answer?;
        self.bytes.fetch_add(n, Ordering::SeqCst);
        Ok(n)
    }

    /// Forwards to the wrapped source: the wrapped source makes this same call and its
    /// answer is returned.
    fn seek(&mut self, pos: SeekFrom) -> (result: Result<u64, std::io::Error>)
        ensures
            old(self).inner_source().records_calls() ==> final(self).inner_source().records_calls(),
            old(self).inner_source().records_calls() ==> final(self).inner_source().source_calls()
                == old(self).inner_source().source_calls().push(SourceCall::Seek(pos, result)),
    {
        let answer = self.inner.seek(pos);
        self.calls = Ghost(self.calls@.push(SourceCall::Seek(pos, answer)));
        answer
    }

    /// Forwards to the wrapped source: the wrapped source makes this same call and its
    /// answer is returned.
    fn size(&mut self) -> (result: Result<u64, std::io::Error>)
        ensures
            old(self).inner_source().records_calls() ==> final(self).inner_source().records_calls(),
            old(self).inner_source().records_calls() ==> final(self).inner_source().source_calls()
                == old(self).inner_source().source_calls().push(SourceCall::Size(result)),
    {
        let answer = self.inner.size();
        self.calls = Ghost(self.calls@.push(SourceCall::Size(answer)));
        answer
    }
}

} // verus!
