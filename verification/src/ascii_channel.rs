//! The two ends of the streams: a buffered source and a sink, each with the
//! record of the bytes that have gone through it.
//!
//! The records are written by the calls of the stream alone: what a read has
//! brought is added to the record of the source, what a write has taken is
//! added to the record of the sink. Nothing else changes them, so what the
//! reader and the writer say of the records is said of the calls.

use std::io::{BufRead, BufReader, Read, Write};
use vstd::prelude::*;

verus! {

/// `std::io::BufReader`, the buffered source of a reader. It is carried
/// through, never looked into.
#[verifier::external_type_specification]
#[verifier::external_body]
#[verifier::reject_recursive_types(R)]
pub struct ExBufReader<R: ?Sized>(BufReader<R>);

/// Whether `byte` occurs in `chunk` at most in the last place: what a read
/// that stops at the first `byte` can bring.
pub open spec fn ends_at_first(chunk: Seq<u8>, byte: u8) -> bool {
    forall|i: int| 0 <= i < chunk.len() - 1 ==> chunk[i] != byte
}

/// `BufReader::new`: wraps the source. Nothing is read yet.
pub assume_specification<R: Read>[ BufReader::<R>::new ](inner: R) -> BufReader<R>;

/// `BufReader::with_capacity`: wraps the source. The call allocates the
/// buffer and panics where that is more than `isize::MAX` bytes, which the
/// `requires` leaves out.
pub assume_specification<R: Read>[ BufReader::<R>::with_capacity ](
    capacity: usize,
    inner: R,
) -> BufReader<R>
    requires
        capacity <= isize::MAX,
;

/// `BufReader::capacity`: some number, of which nothing is stated. A source
/// asks for it once, when it is made with the default capacity, and keeps
/// it.
pub assume_specification<R: ?Sized>[ BufReader::<R>::capacity ](reader: &BufReader<R>) -> usize;

/// A buffered source of bytes, with the capacity that its buffer was made
/// with and the record of what it has given.
#[verifier::reject_recursive_types(R)]
pub struct Source<R> {
    inner: BufReader<R>,
    limit: usize,
    given: Ghost<Seq<u8>>,
}

impl<R> Source<R> {
    /// The bytes that the reads of this source have brought so far, in
    /// order.
    pub closed spec fn given(&self) -> Seq<u8> {
        self.given@
    }

    /// The number of bytes that the buffer was made to hold: the capacity
    /// that the source was made with.
    pub closed spec fn limit(&self) -> nat {
        self.limit as nat
    }

    /// Returns the number of bytes the buffer can hold.
    pub fn capacity(&self) -> (n: usize)
        ensures
            n == self.limit(),
    {
        self.limit
    }
}

impl<R: Read> Source<R> {
    /// Wraps a stream in a buffer of the default capacity, whatever that
    /// is. Nothing has been read from it.
    pub fn new(inner: R) -> (source: Self)
        ensures
            source.given() == Seq::<u8>::empty(),
    {
        let inner = BufReader::new(inner);
        let limit = inner.capacity();
        Self { inner, limit, given: Ghost(Seq::empty()) }
    }

    /// Wraps a stream in a buffer of the given capacity. Nothing has been
    /// read from it.
    pub fn with_capacity(capacity: usize, inner: R) -> (source: Self)
        requires
            capacity <= isize::MAX,
        ensures
            source.given() == Seq::<u8>::empty(),
            source.limit() == capacity,
    {
        Self {
            inner: BufReader::with_capacity(capacity, inner),
            limit: capacity,
            given: Ghost(Seq::empty()),
        }
    }
}

/// `BufRead::read_until` into an empty vector. The call leaves the capacity
/// that the source keeps alone. The bytes that the call has
/// read are in the vector afterwards, also where it ends in an error. On
/// success the count is their number, and the delimiter, where it was found,
/// is the last of them. The call reads on after a read that was interrupted.
#[verifier::external_body]
pub(crate) fn fill_until<R: Read>(source: &mut Source<R>, byte: u8, chunk: &mut Vec<u8>) -> (r:
    Result<usize, std::io::Error>)
    requires
        old(chunk)@.len() == 0,
    ensures
        final(source).limit() == old(source).limit(),
        final(source).given() == old(source).given() + final(chunk)@,
        r matches Ok(n) ==> n == final(chunk)@.len() && ends_at_first(final(chunk)@, byte),
{
    source.inner.read_until(byte, chunk)
}

/// `Read::read_to_end` into an empty vector. The call leaves the capacity
/// that the source keeps alone. The bytes that the call has
/// read are in the vector afterwards, also where it ends in an error. On
/// success the count is their number. The call reads on after a read that
/// was interrupted.
#[verifier::external_body]
pub(crate) fn fill_to_end<R: Read>(source: &mut Source<R>, chunk: &mut Vec<u8>) -> (r: Result<
    usize,
    std::io::Error,
>)
    requires
        old(chunk)@.len() == 0,
    ensures
        final(source).limit() == old(source).limit(),
        final(source).given() == old(source).given() + final(chunk)@,
        r matches Ok(n) ==> n == final(chunk)@.len(),
{
    source.inner.read_to_end(chunk)
}

/// `Read::read` into a slice. The slice keeps its length, as every slice
/// does, and the call leaves the capacity that the source keeps alone. On
/// success the count is at most that length, and the bytes that the
/// call has read are that many at the front of the slice. On an error no
/// byte was read.
#[verifier::external_body]
pub(crate) fn fill_some<R: Read>(source: &mut Source<R>, space: &mut [u8]) -> (r: Result<
    usize,
    std::io::Error,
>)
    ensures
        final(space)@.len() == old(space)@.len(),
        final(source).limit() == old(source).limit(),
        match r {
            Ok(n) => n <= old(space)@.len() && final(source).given() == old(source).given()
                + final(space)@.take(n as int),
            Err(_) => final(source).given() == old(source).given(),
        },
{
    source.inner.read(space)
}

/// A sink of bytes, with the record of what it has taken.
pub struct Sink<W> {
    inner: W,
    taken: Ghost<Seq<u8>>,
}

impl<W> Sink<W> {
    /// The bytes that the writes to this sink have handed over so far, in
    /// order.
    pub closed spec fn taken(&self) -> Seq<u8> {
        self.taken@
    }

    /// The stream behind the sink, as it now is.
    pub closed spec fn stream(&self) -> W {
        self.inner
    }

    /// Whether `stream` is the stream behind some sink whose record is
    /// `bytes`.
    ///
    /// The predicate binds the code that makes it true, not the stream: a
    /// function outside this file comes by a sink only through `new` and
    /// changes its record only through a write, so it can show the predicate
    /// of a stream only by having written those bytes to it. Of a stream
    /// taken by itself it tells nothing, since some sink with any record can
    /// be thought of for any stream. What a stream has taken is told by the
    /// record of the sink that still holds it: see `taken`.
    pub open spec fn has_taken(stream: W, bytes: Seq<u8>) -> bool {
        exists|sink: Sink<W>| #[trigger] sink.stream() == stream && sink.taken() == bytes
    }

    /// Makes a sink of a stream. It has taken nothing.
    pub fn new(inner: W) -> (sink: Self)
        ensures
            sink.taken() == Seq::<u8>::empty(),
            sink.stream() == inner,
    {
        Self { inner, taken: Ghost(Seq::empty()) }
    }

    /// Gives the stream back.
    pub fn into_stream(self) -> (stream: W)
        ensures
            stream == self.stream(),
            Self::has_taken(stream, self.taken()),
    {
        assert(self.stream() == self.inner && self.taken() == self.taken());
        self.inner
    }
}

/// `Write::write`. On success the count is at most the length of the slice,
/// and the stream has taken that many bytes from the front of the slice. On
/// an error it has taken none.
#[verifier::external_body]
pub(crate) fn send_some<W: Write>(sink: &mut Sink<W>, bytes: &[u8]) -> (r: Result<
    usize,
    std::io::Error,
>)
    ensures
        match r {
            Ok(n) => n <= bytes@.len() && final(sink).taken() == old(sink).taken() + bytes@.take(
                n as int,
            ),
            Err(_) => final(sink).taken() == old(sink).taken(),
        },
{
    sink.inner.write(bytes)
}

/// `Write::flush`. The call hands no bytes over, so the record stays; of the
/// outcome nothing is stated.
#[verifier::external_body]
pub(crate) fn send_flush<W: Write>(sink: &mut Sink<W>) -> (r: Result<(), std::io::Error>)
    ensures
        final(sink).taken() == old(sink).taken(),
{
    sink.inner.flush()
}

} // verus!
