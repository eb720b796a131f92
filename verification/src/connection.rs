//! The read buffer of an ECR connection: what arrives from the socket is
//! collected here and handed on, whole and in order.
//!
//! Reading from the socket is done by the caller; this type decides what a
//! read means: more data, a clean end of the stream, or a reset.

use vstd::prelude::*;
use bytes::BytesMut;
use crate::buf::{bytes_of, opt_bytes_of, buffer_with_capacity, buffer_len, buffer_is_empty, buffer_split_to, buffer_extend};

verus! {

/// What a read from the socket amounts to.
pub enum ReadOutcome {
    /// Bytes arrived and were buffered: look for data again.
    ReadMore,
    /// The peer closed the stream with nothing left in the buffer.
    Closed,
    /// The peer closed the stream in the middle of buffered data.
    Reset,
}

/// The buffer that collects bytes read from an ECR connection.
pub struct ReadBuffer {
    buffer: BytesMut,
}

impl View for ReadBuffer {
    type V = Seq<u8>;

    closed spec fn view(&self) -> Seq<u8> {
        bytes_of(self.buffer)
    }
}

/// The buffer and the data handed out when `parse_data` is called on a
/// buffer holding `buf`: everything buffered is handed out, if there is any.
pub open spec fn parse_step(buf: Seq<u8>) -> (Seq<u8>, Option<Seq<u8>>) {
    if buf.len() > 0 {
        (Seq::empty(), Some(buf))
    } else {
        (buf, None)
    }
}

/// The buffer and the outcome after a read that returned `chunk` on a buffer
/// holding `buf`; an empty chunk is the end of the stream.
pub open spec fn read_step(buf: Seq<u8>, chunk: Seq<u8>) -> (Seq<u8>, ReadOutcome) {
    if chunk.len() == 0 {
        if buf.len() == 0 {
            (buf, ReadOutcome::Closed)
        } else {
            (buf, ReadOutcome::Reset)
        }
    } else {
        (buf + chunk, ReadOutcome::ReadMore)
    }
}

impl ReadBuffer {
    /// An empty buffer, with room for 4 KiB before it grows.
    pub fn new() -> (rb: ReadBuffer)
        ensures
            rb@ == Seq::<u8>::empty(),
    {
        ReadBuffer { buffer: buffer_with_capacity(4 * 1024) }
    }

    /// The number of bytes buffered.
    pub fn len(&self) -> (n: usize)
        ensures
            n == self@.len(),
    {
        buffer_len(&self.buffer)
    }

    /// Hands out all the buffered bytes at once, or `None` when there are
    /// none.
    pub fn parse_data(&mut self) -> (data: Option<BytesMut>)
        ensures
            (final(self)@, opt_bytes_of(data)) == parse_step(old(self)@),
    {
        if !buffer_is_empty(&self.buffer) {
            let len: usize = buffer_len(&self.buffer);
            let data = buffer_split_to(&mut self.buffer, len);
            assert(bytes_of(data) =~= old(self)@);
            assert(final(self)@ =~= Seq::<u8>::empty());
            Some(data)
        } else {
            None
        }
    }

    /// Takes in what one read from the socket returned: bytes are buffered;
    /// an empty read is the end of the stream, clean when nothing is
    /// buffered and a reset otherwise.
    pub fn on_read(&mut self, chunk: &[u8]) -> (outcome: ReadOutcome)
        requires
            old(self)@.len() + chunk@.len() <= isize::MAX,
        ensures
            (final(self)@, outcome) == read_step(old(self)@, chunk@),
    {
        if chunk.len() == 0 {
            if buffer_is_empty(&self.buffer) {
                ReadOutcome::Closed
            } else {
                ReadOutcome::Reset
            }
        } else {
            buffer_extend(&mut self.buffer, chunk);
            ReadOutcome::ReadMore
        }
    }
}

/// Whatever the buffer held, once `parse_data` has run it is empty, so the
/// end of the stream that follows is a clean close, never a reset.
pub proof fn lemma_end_after_parse_is_clean(buf: Seq<u8>)
    ensures
        read_step(parse_step(buf).0, Seq::empty()).1 == ReadOutcome::Closed,
        parse_step(buf).0.len() == 0,
{
}

/// Bytes are forwarded unchanged and in order: a read of a non-empty chunk
/// followed by `parse_data` hands out what was buffered followed by the
/// chunk, and leaves the buffer empty.
pub proof fn lemma_read_then_parse_delivers(buf: Seq<u8>, chunk: Seq<u8>)
    requires
        chunk.len() > 0,
    ensures
        read_step(buf, chunk).1 == ReadOutcome::ReadMore,
        parse_step(read_step(buf, chunk).0) == (Seq::<u8>::empty(), Some(buf + chunk)),
{
}

/// After a delivery, the next read of a non-empty chunk is handed out as
/// exactly that chunk.
pub proof fn lemma_delivery_is_the_chunk(buf: Seq<u8>, chunk: Seq<u8>)
    requires
        chunk.len() > 0,
    ensures
        parse_step(read_step(parse_step(buf).0, chunk).0).1 == Some(chunk),
{
    assert(Seq::<u8>::empty() + chunk =~= chunk);
}

/// A whole run of reads on one connection, from a buffer holding `buf`:
/// `parse_data` is called, and whenever it hands out nothing, the next chunk
/// of `chunks` is read and passed to `on_read`, until the stream ends or the
/// chunks run out (as successive calls of a connection's `read_data` do).
/// Gives the data handed out, in order, and how the run ended (`None` when
/// the chunks ran out first).
pub open spec fn read_session(buf: Seq<u8>, chunks: Seq<Seq<u8>>) -> (
    Seq<Seq<u8>>,
    Option<ReadOutcome>,
)
    decreases chunks.len(), buf.len(),
{
    match parse_step(buf).1 {
        Some(d) => {
            let rest = read_session(parse_step(buf).0, chunks);
            (seq![d] + rest.0, rest.1)
        },
        None => {
            if chunks.len() == 0 {
                (Seq::empty(), None)
            } else {
                let after = read_step(parse_step(buf).0, chunks[0]);
                match after.1 {
                    ReadOutcome::ReadMore => read_session(after.0, chunks.drop_first()),
                    _ => (Seq::empty(), Some(after.1)),
                }
            }
        },
    }
}

/// No byte is lost, repeated or reordered over a whole connection: when the
/// peer sends non-empty chunks and then closes (an empty read), everything
/// handed out, joined in order, is what was buffered followed by everything
/// read; no piece handed out is empty; and the run ends in a clean close.
/// From a new (empty) buffer, the joined data is exactly the bytes read.
pub proof fn lemma_stream_delivered_whole(buf: Seq<u8>, chunks: Seq<Seq<u8>>)
    requires
        chunks.len() > 0,
        chunks.last().len() == 0,
        forall|i: int| 0 <= i < chunks.len() - 1 ==> #[trigger] chunks[i].len() > 0,
    ensures
        read_session(buf, chunks).0.flatten() == buf + chunks.flatten(),
        buf.len() == 0 ==> read_session(buf, chunks).0.flatten() == chunks.flatten(),
        read_session(buf, chunks).1 == Some(ReadOutcome::Closed),
        forall|i: int|
            0 <= i < read_session(buf, chunks).0.len() ==> #[trigger] read_session(
                buf,
                chunks,
            ).0[i].len() > 0,
    decreases chunks.len(), buf.len(),
{
    let out = read_session(buf, chunks);
    if buf.len() > 0 {
        let empty = Seq::<u8>::empty();
        lemma_stream_delivered_whole(empty, chunks);
        let rest = read_session(empty, chunks);
        assert(out.0 == seq![buf] + rest.0);
        assert((seq![buf] + rest.0).drop_first() =~= rest.0);
        assert((seq![buf] + rest.0).flatten() == buf + rest.0.flatten());
        assert(empty + chunks.flatten() =~= chunks.flatten());
        assert forall|i: int| 0 <= i < out.0.len() implies #[trigger] out.0[i].len() > 0 by {
            if i > 0 {
                assert(out.0[i] == rest.0[i - 1]);
            }
        }
    } else if chunks.len() == 1 {
        assert(chunks.drop_first() =~= Seq::<Seq<u8>>::empty());
        assert(chunks.flatten() == chunks[0] + chunks.drop_first().flatten());
        assert(chunks.flatten() =~= Seq::<u8>::empty());
        assert(buf + chunks.flatten() =~= Seq::<u8>::empty());
    } else {
        let tail = chunks.drop_first();
        assert(tail.last() == chunks.last());
        assert forall|i: int| 0 <= i < tail.len() - 1 implies #[trigger] tail[i].len() > 0 by {
            assert(tail[i] == chunks[i + 1]);
        }
        assert(chunks[0].len() > 0);
        lemma_stream_delivered_whole(buf + chunks[0], tail);
        assert(buf + chunks[0] =~= chunks[0]);
        assert(chunks.flatten() == chunks[0] + tail.flatten());
    }
}

/// Nothing is dropped silently at the end of a stream: an empty read gives
/// a clean close exactly when no byte is buffered, a reset exactly when some
/// are, and leaves the buffer as it was; a non-empty read never ends the
/// stream and keeps every buffered byte ahead of the new ones.
pub proof fn lemma_read_keeps_every_byte(buf: Seq<u8>, chunk: Seq<u8>)
    ensures
        chunk.len() == 0 ==> read_step(buf, chunk).0 == buf,
        chunk.len() == 0 ==> (read_step(buf, chunk).1 == ReadOutcome::Closed <==> buf.len() == 0),
        chunk.len() == 0 ==> (read_step(buf, chunk).1 == ReadOutcome::Reset <==> buf.len() > 0),
        chunk.len() > 0 ==> read_step(buf, chunk).1 == ReadOutcome::ReadMore,
        chunk.len() > 0 ==> read_step(buf, chunk).0.subrange(0, buf.len() as int) == buf,
        chunk.len() > 0 ==> read_step(buf, chunk).0.subrange(
            buf.len() as int,
            read_step(buf, chunk).0.len() as int,
        ) == chunk,
        parse_step(buf).1 is Some <==> buf.len() > 0,
        parse_step(buf).1 matches Some(d) ==> d == buf && parse_step(buf).0.len() == 0,
{
    if chunk.len() > 0 {
        let after = buf + chunk;
        assert(after.subrange(0, buf.len() as int) =~= buf);
        assert(after.subrange(buf.len() as int, after.len() as int) =~= chunk);
    }
}

} // verus!
