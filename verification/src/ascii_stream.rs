//! Buffered reading and writing of ASCII strings, line by line.
//!
//! A line is the bytes up to a line feed. The line feed ends the line and is
//! not part of it, and neither is a carriage return that stands right before
//! the line feed. What is left when the stream ends is the last line.

use std::io::{Read, Write};
use vstd::prelude::*;
use crate::ascii_channel::{
    ends_at_first, fill_some, fill_to_end, fill_until, send_flush, send_some, Sink, Source,
};
use crate::ascii_common::ReadLineResult;
use crate::ascii_consts::{CR, LF};
use crate::ascii_string::AsciiString;

verus! {

/// The line inside a chunk that was read up to a line feed: the chunk without
/// the line feed at its end and without a carriage return right before that
/// line feed. A chunk that does not end in a line feed is the line itself.
pub open spec fn line_content(chunk: Seq<u8>) -> Seq<u8> {
    if chunk.len() > 0 && chunk.last() == LF {
        let body = chunk.drop_last();
        if body.len() > 0 && body.last() == CR {
            body.drop_last()
        } else {
            body
        }
    } else {
        chunk
    }
}

/// Turns the chunk that a read up to a line feed has put into `buf` into the
/// line that it holds, and tells how the read ended: an empty chunk means that
/// the stream is at its end, any other chunk is a line, which may be empty.
pub fn take_line(buf: &mut AsciiString) -> (r: ReadLineResult)
    ensures
        old(buf)@.len() == 0 ==> r is EOF && final(buf)@ == old(buf)@,
        old(buf)@.len() > 0 ==> r == ReadLineResult::Success(line_content(old(buf)@).len() as usize)
            && final(buf)@ == line_content(old(buf)@),
{
    let result = buf.len();
    if result > 0 {
        if buf[result - 1] == LF {
            buf.pop();
            if result > 1 && buf[result - 2] == CR {
                buf.pop();
            }
        }
        ReadLineResult::Success(buf.len())
    } else {
        ReadLineResult::EOF
    }
}

/// Tells how the reading of a line ended, from the outcome of the read up to
/// a line feed and the chunk that it has put into `buf`. A failed read is an
/// `Error` with the cause of the failure, whatever the cause is, and `buf`
/// stays as it is. After a read that went well, the chunk decides: see
/// `take_line`.
pub fn line_outcome(read: Result<usize, std::io::Error>, buf: &mut AsciiString) -> (r:
    ReadLineResult)
    ensures
        read matches Err(cause) ==> r == ReadLineResult::Error(cause) && final(buf)@ == old(
            buf,
        )@,
        read is Ok && old(buf)@.len() == 0 ==> r is EOF && final(buf)@ == old(buf)@,
        read is Ok && old(buf)@.len() > 0 ==> r == ReadLineResult::Success(
            line_content(old(buf)@).len() as usize,
        ) && final(buf)@ == line_content(old(buf)@),
{
    match read {
        Ok(_) => take_line(buf),
        Err(cause) => ReadLineResult::Error(cause),
    }
}

/// A line that was written with a line end reads back as it was: with a
/// carriage return and a line feed behind it always, and with a line feed
/// alone where the line does not itself end in a carriage return.
pub proof fn lemma_written_line_reads_back(line: Seq<u8>)
    ensures
        line_content(line + seq![CR, LF]) == line,
        !(line.len() > 0 && line.last() == CR) ==> line_content(line + seq![LF]) == line,
        line.len() > 0 ==> line_content(line) == line || line.last() == LF,
{
    let crlf = line + seq![CR, LF];
    assert(crlf.drop_last() =~= line + seq![CR]);
    assert(crlf.drop_last().drop_last() =~= line);
    let lf = line + seq![LF];
    assert(lf.drop_last() =~= line);
}

/// A line never holds a line feed where the chunk it comes from holds one at
/// most at its end, and it is a front part of the chunk.
pub proof fn lemma_line_has_no_line_feed(chunk: Seq<u8>)
    requires
        ends_at_first(chunk, LF),
    ensures
        !line_content(chunk).contains(LF),
        line_content(chunk).len() <= chunk.len(),
        line_content(chunk).is_prefix_of(chunk),
{
    let line = line_content(chunk);
    assert forall|i: int| 0 <= i < line.len() implies line[i] != LF by {
        assert(line[i] == chunk[i]);
    }
}

/// A buffered reader which reads data as ascii characters.
///
/// The reads that look for a byte and the read to the end go on after a read
/// of the stream that was interrupted, as the buffered source does. Every
/// other failure of the stream ends the call, which hands the cause on. The
/// bytes that a failed call had read by then are lost to the caller.
#[verifier::reject_recursive_types(R)]
pub struct AsciiStreamReader<R> {
    source: Source<R>,
}

impl<R: Read> AsciiStreamReader<R> {
    /// The bytes that the reader has taken from the stream so far, in order,
    /// line ends included.
    pub closed spec fn taken(&self) -> Seq<u8> {
        self.source.given()
    }

    /// The bytes that a call has added to what was taken before it.
    pub open spec fn chunk_since(&self, before: &Self) -> Seq<u8> {
        self.taken().skip(before.taken().len() as int)
    }

    /// The number of bytes that the internal buffer was made to hold.
    pub closed spec fn limit(&self) -> nat {
        self.source.limit()
    }

    /// Creates a new AsciiStreamReader with a default 8KB buffer capacity.
    pub fn new(inner: R) -> (reader: Self)
        ensures
            reader.taken() == Seq::<u8>::empty(),
    {
        Self { source: Source::new(inner) }
    }

    /// Creates a new AsciiStreamReader with the specified buffer capacity.
    pub fn with_capacity(capacity: usize, inner: R) -> (reader: Self)
        requires
            capacity <= isize::MAX,
        ensures
            reader.taken() == Seq::<u8>::empty(),
            reader.limit() == capacity,
    {
        Self { source: Source::with_capacity(capacity, inner) }
    }

    /// Returns the number of bytes the internal buffer can hold: the
    /// capacity that the reader was made with.
    pub fn capacity(&self) -> (n: usize)
        ensures
            n == self.limit(),
    {
        self.source.capacity()
    }

    /// Reads the next line of ascii characters into the specified
    /// AsciiString. The line terminator is discarded, and the returned
    /// `Success` value is the number of bytes pushed to the AsciiString, not
    /// the number of bytes read. A value of 0 means an empty line, not the
    /// end of the stream. How the call ends is what `line_outcome` makes of
    /// the read up to the line feed.
    pub fn read_line(&mut self, buf: &mut AsciiString) -> (r: ReadLineResult)
        ensures
            final(self).limit() == old(self).limit(),
            old(self).taken().is_prefix_of(final(self).taken()),
            match r {
                ReadLineResult::Success(n) => {
                    &&& final(self).chunk_since(old(self)).len() > 0
                    &&& ends_at_first(final(self).chunk_since(old(self)), LF)
                    &&& final(buf)@ == line_content(final(self).chunk_since(old(self)))
                    &&& n == final(buf)@.len()
                    &&& !final(buf)@.contains(LF)
                },
                ReadLineResult::EOF => {
                    &&& final(self).taken() == old(self).taken()
                    &&& final(buf)@.len() == 0
                },
                ReadLineResult::Error(_) => final(buf)@.len() == 0,
            },
    {
        let result = self.read_until(LF, buf);
        proof {
            if result is Ok {
                assert(self.chunk_since(old(self)) =~= buf@);
                lemma_line_has_no_line_feed(buf@);
            }
        }
        line_outcome(result, buf)
    }

    /// Reads until the specified byte is encountered, or EOF is reached, into
    /// the specified AsciiString. The specified byte is included in the
    /// AsciiString.
    pub fn read_until(&mut self, byte: u8, buf: &mut AsciiString) -> (r: Result<
        usize,
        std::io::Error,
    >)
        ensures
            final(self).limit() == old(self).limit(),
            match r {
                Ok(n) => {
                    &&& final(self).taken() == old(self).taken() + final(buf)@
                    &&& n == final(buf)@.len()
                    &&& ends_at_first(final(buf)@, byte)
                },
                Err(_) => {
                    &&& old(self).taken().is_prefix_of(final(self).taken())
                    &&& final(buf)@.len() == 0
                },
            },
    {
        buf.clear();
        let mut vec = Vec::new();
        let result = fill_until(&mut self.source, byte, &mut vec);
        if result.is_ok() {
            *buf = AsciiString::from(vec);
        }
        result
    }

    /// Reads until EOF is reached, into the specified AsciiString.
    pub fn read_to_end(&mut self, buf: &mut AsciiString) -> (r: Result<usize, std::io::Error>)
        ensures
            final(self).limit() == old(self).limit(),
            match r {
                Ok(n) => {
                    &&& final(self).taken() == old(self).taken() + final(buf)@
                    &&& n == final(buf)@.len()
                },
                Err(_) => {
                    &&& old(self).taken().is_prefix_of(final(self).taken())
                    &&& final(buf)@.len() == 0
                },
            },
    {
        buf.clear();
        let mut vec = Vec::new();
        let result = fill_to_end(&mut self.source, &mut vec);
        if result.is_ok() {
            *buf = AsciiString::from(vec);
        }
        result
    }

    /// Reads up to the specified number of bytes into the specified
    /// AsciiString, in one read of the stream: fewer may come, and none at
    /// the end of the stream.
    pub fn read_bytes(&mut self, buf: &mut AsciiString, len: usize) -> (r: Result<
        usize,
        std::io::Error,
    >)
        requires
            len <= isize::MAX,
        ensures
            final(self).limit() == old(self).limit(),
            match r {
                Ok(n) => {
                    &&& final(self).taken() == old(self).taken() + final(buf)@
                    &&& n == final(buf)@.len()
                    &&& n <= len
                },
                Err(_) => {
                    &&& final(self).taken() == old(self).taken()
                    &&& final(buf)@.len() == 0
                },
            },
    {
        buf.clear();
        let mut vec = vec![0u8; len];
        let result = fill_some(&mut self.source, vec.as_mut_slice());
        match result {
            Ok(count) => {
                vec.truncate(count);
                *buf = AsciiString::from(vec);
                Ok(count)
            },
            Err(err) => Err(err),
        }
    }
}

/// `io::Error::new` with the kind `WriteZero`: the error of a channel that
/// takes no byte of a slice that holds some.
#[verifier::external_body]
fn write_zero() -> std::io::Error {
    std::io::Error::new(std::io::ErrorKind::WriteZero, "failed to write the buffered data")
}

/// Tells how far the sending of `total` bytes has come after one write of
/// the bytes from the place `done` on, from the outcome of that write. A
/// count moves the place on by that many bytes. A count of zero is an error:
/// the stream takes nothing. An error of the stream is handed on as it is,
/// whatever its kind: no write is tried again.
pub fn after_send(done: usize, total: usize, outcome: Result<usize, std::io::Error>) -> (next:
    Result<usize, std::io::Error>)
    requires
        done < total,
        outcome matches Ok(n) ==> n <= total - done,
    ensures
        outcome matches Ok(n) ==> (n > 0 ==> next == Ok::<usize, std::io::Error>(
            (done + n) as usize,
        )),
        outcome matches Ok(n) ==> (n == 0 ==> next is Err),
        outcome matches Err(cause) ==> next == Err::<usize, std::io::Error>(cause),
{
    match outcome {
        Ok(count) => {
            if count == 0 {
                Err(write_zero())
            } else {
                Ok(done + count)
            }
        },
        Err(cause) => Err(cause),
    }
}

/// The capacity of the buffer of a writer that was made without one.
pub const DEFAULT_CAPACITY: usize = 8192;

/// A buffered writer that writes ascii characters to an underlying stream.
///
/// What is written to the writer is kept in a buffer and handed to the
/// stream when the buffer is full, on `flush` and on `into_inner`. The bytes
/// reach the stream in the order in which they were written, each of them
/// once. A writer that is dropped does not write its buffer out: what it
/// still holds is lost, so call `flush` or `into_inner` before the writer
/// goes. An error of the stream ends the call, which hands it on; no write
/// is tried again, also not one that was interrupted.
pub struct AsciiStreamWriter<W> {
    sink: Sink<W>,
    pending: Vec<u8>,
    limit: usize,
}

/// What `into_inner` hands back where the buffer could not be written out:
/// the stream, the bytes that it has not taken, and the error that it gave.
#[derive(Debug)]
pub struct IntoInnerFailure<W> {
    pub inner: W,
    pub unwritten: Vec<u8>,
    pub error: std::io::Error,
}

/// Makes the result of `into_inner` from the stream, from what the buffer
/// still holds and from the outcome of writing the buffer out: the stream
/// where that went well, and else the stream together with the bytes left
/// and the error.
pub fn hand_back<W>(inner: W, rest: Vec<u8>, outcome: Result<(), std::io::Error>) -> (r: Result<
    W,
    IntoInnerFailure<W>,
>)
    ensures
        outcome is Ok ==> r is Ok && r->Ok_0 == inner,
        outcome matches Err(cause) ==> r is Err && r->Err_0.inner == inner && r->Err_0.unwritten@
            == rest@ && r->Err_0.error == cause,
{
    match outcome {
        Ok(()) => Ok(inner),
        Err(error) => Err(IntoInnerFailure { inner, unwritten: rest, error }),
    }
}

/// Hands `bytes` to the sink, front first, in as many writes as the stream
/// takes them in, and tells how many bytes the stream took before it had
/// taken them all or a write failed. Each write is given the bytes that the
/// stream has not taken yet, and `after_send` says how it goes on from the
/// outcome.
fn send_all<W: Write>(sink: &mut Sink<W>, bytes: &[u8]) -> (r: (usize, Result<(), std::io::Error>))
    ensures
        r.0 <= bytes@.len(),
        final(sink).taken() == old(sink).taken() + bytes@.take(r.0 as int),
        r.1 is Ok ==> r.0 == bytes@.len(),
        bytes@.len() == 0 ==> r.1 is Ok && *final(sink) == *old(sink),
{
    let n = bytes.len();
    let mut done: usize = 0;
    assert(bytes@.take(0) =~= Seq::<u8>::empty());
    while done < n
        invariant
            n == bytes@.len(),
            done <= n,
            done == 0 ==> *sink == *old(sink),
            sink.taken() == old(sink).taken() + bytes@.take(done as int),
        decreases n - done,
    {
        let part = vstd::slice::slice_subrange(bytes, done, n);
        let outcome = send_some(sink, part);
        proof {
            if let Ok(count) = outcome {
                assert(bytes@.take(done as int) + part@.take(count as int) =~= bytes@.take(
                    done + count,
                ));
            }
        }
        match after_send(done, n, outcome) {
            Ok(next) => {
                done = next;
            },
            Err(cause) => {
                return (done, Err(cause));
            },
        }
    }
    (done, Ok(()))
}

impl<W> AsciiStreamWriter<W> {
    /// The bytes that the stream has taken from this writer so far, in
    /// order.
    pub closed spec fn sent(&self) -> Seq<u8> {
        self.sink.taken()
    }

    /// The bytes that the writer holds in its buffer, in order: written, and
    /// not yet handed to the stream.
    pub closed spec fn pending(&self) -> Seq<u8> {
        self.pending@
    }

    /// All that was written to this writer so far, in order: what the stream
    /// has taken, and then what the buffer holds.
    pub open spec fn written(&self) -> Seq<u8> {
        self.sent() + self.pending()
    }

    /// The number of bytes that the buffer can hold.
    pub closed spec fn limit(&self) -> nat {
        self.limit as nat
    }

    /// The stream that the writer wraps, as it now is.
    pub closed spec fn stream(&self) -> W {
        self.sink.stream()
    }

    /// Whether the buffer has room for `n` more bytes beside what it holds,
    /// and would not be full to its limit by them alone. Such bytes the
    /// writer takes into the buffer without a call of the stream, so the
    /// stream cannot make the write fail.
    pub open spec fn has_room(&self, n: nat) -> bool {
        self.pending().len() + n <= self.limit() && n < self.limit()
    }

    /// Returns the number of bytes the internal buffer can hold.
    pub fn capacity(&self) -> (n: usize)
        ensures
            n == self.limit(),
    {
        self.limit
    }
}

impl<W: Write> AsciiStreamWriter<W> {
    /// Creates a new AsciiStreamWriter with a default 8KB buffer capacity.
    pub fn new(inner: W) -> (writer: Self)
        ensures
            writer.sent() == Seq::<u8>::empty(),
            writer.pending() == Seq::<u8>::empty(),
            writer.limit() == DEFAULT_CAPACITY,
            writer.stream() == inner,
    {
        Self::with_capacity(DEFAULT_CAPACITY, inner)
    }

    /// Creates a new AsciiStreamWriter with the specified buffer capacity.
    pub fn with_capacity(capacity: usize, inner: W) -> (writer: Self)
        requires
            capacity <= isize::MAX,
        ensures
            writer.sent() == Seq::<u8>::empty(),
            writer.pending() == Seq::<u8>::empty(),
            writer.limit() == capacity,
            writer.stream() == inner,
    {
        Self { sink: Sink::new(inner), pending: Vec::with_capacity(capacity), limit: capacity }
    }

    /// Hands what the buffer holds to the stream, without flushing the
    /// stream. What the stream has taken leaves the buffer, also where it
    /// did not take all: nothing that was written is lost or handed over
    /// twice. Where the call goes well the buffer is empty, and the stream
    /// has taken all that was written. An empty buffer is drained without a
    /// call of the stream, and so without fail.
    pub fn drain(&mut self) -> (r: Result<(), std::io::Error>)
        ensures
            final(self).written() == old(self).written(),
            final(self).limit() == old(self).limit(),
            old(self).sent().is_prefix_of(final(self).sent()),
            r is Ok ==> final(self).pending() == Seq::<u8>::empty() && final(self).sent() == old(
                self,
            ).written(),
            old(self).pending().len() == 0 ==> {
                &&& r is Ok
                &&& final(self).sent() == old(self).sent()
                &&& final(self).stream() == old(self).stream()
            },
    {
        let (done, result) = send_all(&mut self.sink, self.pending.as_slice());
        let rest = self.pending.split_off(done);
        self.pending = rest;
        assert(final(self).written() =~= old(self).written());
        assert(old(self).pending().len() == 0 ==> final(self).sent() =~= old(self).sent());
        result
    }

    /// Takes `bytes` into the buffer, or hands them to the stream where the
    /// buffer cannot hold them. The buffer is handed to the stream first
    /// where it has no room for them.
    fn put(&mut self, bytes: &[u8]) -> (r: Result<(), std::io::Error>)
        ensures
            final(self).limit() == old(self).limit(),
            old(self).sent().is_prefix_of(final(self).sent()),
            old(self).written().is_prefix_of(final(self).written()),
            final(self).written().is_prefix_of(old(self).written() + bytes@),
            r is Ok ==> final(self).written() == old(self).written() + bytes@,
            old(self).has_room(bytes@.len()) ==> {
                &&& r is Ok
                &&& final(self).sent() == old(self).sent()
                &&& final(self).pending() == old(self).pending() + bytes@
                &&& final(self).stream() == old(self).stream()
            },
    {
        if self.pending.len() > self.limit || bytes.len() > self.limit - self.pending.len() {
            match self.drain() {
                Ok(()) => {},
                Err(error) => {
                    return Err(error);
                },
            }
        }
        if bytes.len() >= self.limit {
            assert(self.pending@.len() == 0);
            let (done, result) = send_all(&mut self.sink, bytes);
            proof {
                assert(bytes@.take(bytes@.len() as int) == bytes@);
                assert(bytes@.take(done as int).is_prefix_of(bytes@));
            }
            result
        } else {
            self.pending.extend_from_slice(bytes);
            assert(final(self).written() =~= old(self).written() + bytes@);
            Ok(())
        }
    }

    /// Writes the entire AsciiString to the stream.
    pub fn write(&mut self, buf: &AsciiString) -> (r: Result<(), std::io::Error>)
        ensures
            final(self).limit() == old(self).limit(),
            old(self).sent().is_prefix_of(final(self).sent()),
            old(self).written().is_prefix_of(final(self).written()),
            final(self).written().is_prefix_of(old(self).written() + buf@),
            r is Ok ==> final(self).written() == old(self).written() + buf@,
            old(self).has_room(buf@.len()) || buf@.len() == 0 ==> {
                &&& r is Ok
                &&& final(self).sent() == old(self).sent()
                &&& final(self).pending() == old(self).pending() + buf@
                &&& final(self).stream() == old(self).stream()
            },
    {
        let (a, b) = buf.as_slices();
        let mut result = Ok(());
        if !a.is_empty() {
            result = self.put(a);
        }
        if result.is_ok() && !b.is_empty() {
            result = self.put(b);
        }
        proof {
            if old(self).has_room(buf@.len()) || buf@.len() == 0 {
                assert(a@.len() + b@.len() == buf@.len());
                assert(final(self).pending() =~= old(self).pending() + buf@);
            }
        }
        result
    }

    /// Writes the entire AsciiString to the stream, followed by a newline.
    pub fn write_line(&mut self, buf: &AsciiString) -> (r: Result<(), std::io::Error>)
        ensures
            final(self).limit() == old(self).limit(),
            old(self).sent().is_prefix_of(final(self).sent()),
            old(self).written().is_prefix_of(final(self).written()),
            final(self).written().is_prefix_of(old(self).written() + buf@ + seq![LF]),
            r is Ok ==> final(self).written() == old(self).written() + buf@ + seq![LF],
            old(self).has_room(buf@.len() + 1) ==> {
                &&& r is Ok
                &&& final(self).sent() == old(self).sent()
                &&& final(self).pending() == old(self).pending() + buf@ + seq![LF]
                &&& final(self).stream() == old(self).stream()
            },
    {
        match self.write(buf) {
            Ok(()) => {},
            Err(error) => {
                return Err(error);
            },
        }
        let end = [LF];
        self.put(end.as_slice())
    }

    /// Writes the entire AsciiString to the stream, followed by a carriage
    /// return and a newline.
    pub fn write_line_crlf(&mut self, buf: &AsciiString) -> (r: Result<(), std::io::Error>)
        ensures
            final(self).limit() == old(self).limit(),
            old(self).sent().is_prefix_of(final(self).sent()),
            old(self).written().is_prefix_of(final(self).written()),
            final(self).written().is_prefix_of(old(self).written() + buf@ + seq![CR, LF]),
            r is Ok ==> final(self).written() == old(self).written() + buf@ + seq![CR, LF],
            old(self).has_room(buf@.len() + 2) ==> {
                &&& r is Ok
                &&& final(self).sent() == old(self).sent()
                &&& final(self).pending() == old(self).pending() + buf@ + seq![CR, LF]
                &&& final(self).stream() == old(self).stream()
            },
    {
        match self.write(buf) {
            Ok(()) => {},
            Err(error) => {
                return Err(error);
            },
        }
        let end = [CR, LF];
        self.put(end.as_slice())
    }

    /// Flushes the internal buffer, writing all buffered bytes to the
    /// underlying stream, and then flushes the stream. Where the call goes
    /// well, the stream has taken all that was written. Where it fails, the
    /// bytes that the stream has not taken stay in the buffer.
    pub fn flush(&mut self) -> (r: Result<(), std::io::Error>)
        ensures
            final(self).written() == old(self).written(),
            final(self).limit() == old(self).limit(),
            old(self).sent().is_prefix_of(final(self).sent()),
            r is Ok ==> final(self).sent() == old(self).written() && final(self).pending()
                == Seq::<u8>::empty(),
    {
        match self.drain() {
            Ok(()) => {},
            Err(error) => {
                return Err(error);
            },
        }
        assert(self.written() =~= self.sent());
        send_flush(&mut self.sink)
    }

    /// Unwraps this AsciiStreamWriter, returning the underlying writer. The
    /// call is `drain` and then `hand_back`: the buffer is written out, and
    /// the stream comes back alone where that went well, and with the bytes
    /// that it has not taken and the error where it did not.
    ///
    /// The stream that comes back no longer has a record, so what it has
    /// taken is stated here only through `Sink::has_taken`, which binds this
    /// function and tells nothing of a stream by itself. A caller that needs
    /// the fact calls `drain` first, which states it of the writer, and then
    /// this function, which hands an empty buffer's stream back as it is.
    pub fn into_inner(self) -> (r: Result<W, IntoInnerFailure<W>>)
        ensures
            self.pending().len() == 0 ==> r is Ok && r->Ok_0 == self.stream(),
            r is Ok ==> Sink::has_taken(r->Ok_0, self.written()),
            r is Err ==> {
                &&& r->Err_0.unwritten@.len() <= self.pending().len()
                &&& r->Err_0.unwritten@ == self.pending().skip(
                    self.pending().len() - r->Err_0.unwritten@.len(),
                )
                &&& Sink::has_taken(
                    r->Err_0.inner,
                    self.written().take(self.written().len() - r->Err_0.unwritten@.len()),
                )
            },
    {
        let mut writer = self;
        let result = writer.drain();
        proof {
            let gone = writer.sent().len() - self.sent().len();
            assert(writer.sent() + writer.pending() == self.sent() + self.pending());
            assert(writer.sent().len() + writer.pending().len() == self.sent().len()
                + self.pending().len());
            assert(writer.pending() =~= self.pending().skip(gone)) by {
                assert forall|i: int| 0 <= i < writer.pending().len() implies writer.pending()[i]
                    == self.pending()[gone + i] by {
                    assert((writer.sent() + writer.pending())[writer.sent().len() + i]
                        == writer.pending()[i]);
                    assert((self.sent() + self.pending())[self.sent().len() + gone + i]
                        == self.pending()[gone + i]);
                }
            }
            assert(writer.sent() =~= self.written().take(
                self.written().len() - writer.pending().len(),
            ));
        }
        let AsciiStreamWriter { sink, pending, limit: _ } = writer;
        let inner = sink.into_stream();
        hand_back(inner, pending, result)
    }
}

} // verus!
