//! The object-body stream bridge.
//!
//! An object body arrives as a sequence of byte chunks delivered by the
//! storage SDK. The bridge is a 1:1 pass-through with interface
//! translation only: a data chunk is yielded unchanged, a lower-level
//! transport failure is yielded once as an opaque [`TransportError`], and
//! completion ends the stream. [`BodyCollector`] models reading such a
//! stream to the end: the collected bytes are exactly the concatenation
//! of the chunks the source delivered.

use vstd::prelude::*;

use crate::errors::TransportError;

verus! {

#[verifier::external_type_specification]
#[verifier::external_body]
pub struct ExBytes(bytes::Bytes);

pub uninterp spec fn chunk_data(b: bytes::Bytes) -> Seq<u8>;

/// Relies on `bytes::Bytes::as_ref` (via `<[u8]>::to_vec`): a `Bytes`
/// value views as a byte slice, copied here into an owned vector.
#[verifier::external_body]
pub fn copy_chunk(b: &bytes::Bytes) -> (r: Vec<u8>)
    ensures
        r@ == chunk_data(*b),
{
    b.as_ref().to_vec()
}

/// Relies on `bytes::Bytes::len`: the number of bytes the chunk holds.
#[verifier::external_body]
pub fn chunk_len(b: &bytes::Bytes) -> (n: usize)
    ensures
        n == chunk_data(*b).len(),
{
    b.len()
}

/// One poll of the wrapped body stream, as the caller observed it.
pub enum BodyPoll {
    /// A data chunk arrived.
    Chunk(bytes::Bytes),
    /// The transport failed; the cause is kept as text.
    Fail(String),
    /// The body is complete.
    End,
}

/// What one poll of the bridged stream yields.
pub open spec fn spec_translate(p: BodyPoll) -> Option<Result<bytes::Bytes, TransportError>> {
    match p {
        BodyPoll::Chunk(b) => Some(Ok(b)),
        BodyPoll::Fail(c) => Some(Err(TransportError { cause: c })),
        BodyPoll::End => None,
    }
}

/// Translate one poll of the wrapped body stream: a chunk is passed
/// through unchanged, a transport failure becomes one opaque error that
/// preserves its cause, completion signals end-of-stream.
pub fn translate_poll(p: BodyPoll) -> (r: Option<Result<bytes::Bytes, TransportError>>)
    ensures
        r == spec_translate(p),
{
    match p {
        BodyPoll::Chunk(b) => Some(Ok(b)),
        BodyPoll::Fail(c) => Some(Err(TransportError { cause: c })),
        BodyPoll::End => None,
    }
}

/// The total length of a sequence of chunks.
pub open spec fn total_len(chunks: Seq<Seq<u8>>) -> nat
    decreases chunks.len(),
{
    if chunks.len() == 0 {
        0
    } else {
        chunks.first().len() + total_len(chunks.drop_first())
    }
}

proof fn lemma_flatten_len(chunks: Seq<Seq<u8>>)
    ensures
        chunks.flatten().len() == total_len(chunks),
    decreases chunks.len(),
{
    if chunks.len() > 0 {
        lemma_flatten_len(chunks.drop_first());
    }
}

/// Accumulates the chunks of an object body read to the end.
pub struct BodyCollector {
    data: Vec<u8>,
    chunks: Ghost<Seq<Seq<u8>>>,
}

impl BodyCollector {
    /// All bytes collected so far, in arrival order.
    pub closed spec fn bytes_read(self) -> Seq<u8> {
        self.data@
    }

    /// The chunks consumed so far, in arrival order.
    pub closed spec fn chunks_seen(self) -> Seq<Seq<u8>> {
        self.chunks@
    }

    /// The collector's invariant: the bytes read are exactly the
    /// concatenation of the chunks consumed.
    pub closed spec fn wf(self) -> bool {
        self.data@ == self.chunks@.flatten()
    }

    /// A fresh collector holding no bytes.
    pub fn new() -> (c: Self)
        ensures
            c.wf(),
            c.bytes_read() == Seq::<u8>::empty(),
            c.chunks_seen() == Seq::<Seq<u8>>::empty(),
    {
        let c = BodyCollector { data: Vec::new(), chunks: Ghost(Seq::empty()) };
        proof {
            assert(c.data@ =~= c.chunks@.flatten());
        }
        c
    }

    /// Consume one data chunk: its bytes are appended unchanged.
    pub fn push_chunk(&mut self, chunk: &bytes::Bytes)
        requires
            old(self).wf(),
            old(self).bytes_read().len() + chunk_data(*chunk).len() <= usize::MAX,
        ensures
            final(self).wf(),
            final(self).chunks_seen() == old(self).chunks_seen().push(chunk_data(*chunk)),
            final(self).bytes_read() == old(self).bytes_read() + chunk_data(*chunk),
    {
        let mut bytes = copy_chunk(chunk);
        self.data.append(&mut bytes);
        self.chunks = Ghost(self.chunks@.push(chunk_data(*chunk)));
        proof {
            broadcast use Seq::lemma_flatten_push;

            assert(self.data@ =~= self.chunks@.flatten());
        }
    }

    /// Consume one data chunk if its bytes still fit in memory; report
    /// whether it was consumed. On `false` the collector is unchanged
    /// and the chunk would have pushed the total past `usize::MAX`.
    pub fn push_chunk_checked(&mut self, chunk: &bytes::Bytes) -> (ok: bool)
        requires
            old(self).wf(),
        ensures
            final(self).wf(),
            ok == (old(self).bytes_read().len() + chunk_data(*chunk).len() <= usize::MAX),
            ok ==> final(self).chunks_seen() == old(self).chunks_seen().push(chunk_data(*chunk))
                && final(self).bytes_read() == old(self).bytes_read() + chunk_data(*chunk),
            !ok ==> final(self).chunks_seen() == old(self).chunks_seen(),
            !ok ==> final(self).bytes_read() == old(self).bytes_read(),
    {
        let n = chunk_len(chunk);
        if self.data.len() <= usize::MAX - n {
            self.push_chunk(chunk);
            true
        } else {
            false
        }
    }

    /// The number of bytes collected so far.
    pub fn byte_count(&self) -> (n: usize)
        ensures
            n == self.bytes_read().len(),
    {
        self.data.len()
    }

    /// Hand the collected bytes out.
    pub fn into_bytes(self) -> (v: Vec<u8>)
        ensures
            v@ == self.bytes_read(),
    {
        self.data
    }
}

/// Law: an object body read to the end round-trips byte for byte — the
/// collected contents equal the concatenation of the delivered chunks,
/// and their count is the total length of those chunks.
pub proof fn lemma_body_round_trip(c: BodyCollector)
    requires
        c.wf(),
    ensures
        c.bytes_read() == c.chunks_seen().flatten(),
        c.bytes_read().len() == total_len(c.chunks_seen()),
{
    lemma_flatten_len(c.chunks_seen());
}

} // verus!
