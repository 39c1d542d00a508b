//! The ASCII string: a growable, double-ended sequence of bytes, each of which
//! stands for one character of the extended ASCII page.

use std::collections::vec_deque::{Iter, IterMut};
use std::collections::VecDeque;
use std::fmt::Display;
use std::ops::{Index, IndexMut};
use vstd::prelude::*;
use vstd::std_specs::cmp::PartialEqSpecImpl;
use vstd::std_specs::convert::{FromSpecImpl, TryFromSpecImpl};
use vstd::std_specs::iter::IteratorSpec;
use vstd::std_specs::vecdeque::VecDequeAdditionalSpecFns;
use vstd::string::{to_string_from_display_ensures, StringExecFns};
use crate::ascii_consts::SPACE;
use crate::ascii_group::{classify_all, AsciiGroupIter};
use crate::ascii_traits::{is_not_ascii_message, CharToAsciiOrd};
use crate::ascii_translators::{
    ascii_ord_to_char, char_to_ord, is_mapped, lemma_char_round_trip, ord_to_char,
};

verus! {

/// The text of a sequence of bytes: the character of each byte, in order.
pub open spec fn text_of(bytes: Seq<u8>) -> Seq<char> {
    bytes.map_values(|b: u8| ord_to_char(b))
}

/// Whether every character of a text has a byte.
pub open spec fn all_mapped(text: Seq<char>) -> bool {
    forall|i: int| 0 <= i < text.len() ==> is_mapped(#[trigger] text[i])
}

/// The bytes of a text, with `fallback` in the place of each character that
/// has no byte.
pub open spec fn lossy_bytes_of(text: Seq<char>, fallback: u8) -> Seq<u8> {
    text.map_values(
        |c: char|
            match char_to_ord(c) {
                Some(o) => o,
                None => fallback,
            },
    )
}

/// The bytes of a text in which every character has a byte.
pub open spec fn bytes_of(text: Seq<char>) -> Seq<u8>
    recommends
        all_mapped(text),
{
    lossy_bytes_of(text, 0)
}

/// Whether `i` is the place of the first character of `text` that has no
/// byte.
pub open spec fn is_first_unmapped(text: Seq<char>, i: int) -> bool {
    &&& 0 <= i < text.len()
    &&& !is_mapped(text[i])
    &&& forall|j: int| 0 <= j < i ==> is_mapped(#[trigger] text[j])
}

/// Whether `msg` is the text that reports the character `c`, found at the
/// place `inx` of a text, as having no byte. Both are written as their
/// `Display` shows them.
pub open spec fn is_non_ascii_at_message(c: char, inx: usize, msg: Seq<char>) -> bool {
    exists|shown: String, place: String|
        {
            &&& #[trigger] to_string_from_display_ensures::<char>(&c, shown)
            &&& #[trigger] to_string_from_display_ensures::<usize>(&inx, place)
            &&& msg == "Non-ASCII character \""@ + shown@ + "\" found at index "@ + place@
        }
}

/// Whether `msg` is the text that reports the single character `c` as having
/// no byte.
pub open spec fn is_non_ascii_message(c: char, msg: Seq<char>) -> bool {
    exists|shown: String|
        {
            &&& #[trigger] to_string_from_display_ensures::<char>(&c, shown)
            &&& msg == "Non-ASCII character \""@ + shown@ + "\" found"@
        }
}

/// Whether a sequence of bytes is in ascending order.
pub open spec fn ascending(bytes: Seq<u8>) -> bool {
    forall|i: int, j: int| 0 <= i <= j < bytes.len() ==> bytes[i] <= bytes[j]
}

/// `std::collections::vec_deque::IterMut`, the iterator that hands out the
/// bytes of a deque for writing. It is carried through, never looked into.
#[verifier::external_type_specification]
#[verifier::external_body]
#[verifier::reject_recursive_types(T)]
pub struct ExIterMut<'a, T: 'a>(IterMut<'a, T>);

/// `String::push`: the string grows by the one character at its end.
pub assume_specification[ String::push ](s: &mut String, c: char)
    ensures
        final(s)@ == old(s)@.push(c),
;

/// `VecDeque::capacity`: the deque has room for at least what it holds. The
/// number itself is the allocator's business.
#[verifier::external_body]
fn deque_capacity(d: &VecDeque<u8>) -> (n: usize)
    ensures
        n >= d@.len(),
{
    d.capacity()
}

/// `VecDeque::reserve_exact`: the contents stay as they are. The call panics
/// where the new capacity would pass `isize::MAX` bytes, which the `requires`
/// leaves out.
#[verifier::external_body]
fn deque_reserve_exact(d: &mut VecDeque<u8>, additional: usize)
    requires
        old(d)@.len() + additional <= isize::MAX,
    ensures
        final(d)@ == old(d)@,
{
    d.reserve_exact(additional)
}

/// `VecDeque::shrink_to_fit`: the contents stay as they are.
#[verifier::external_body]
fn deque_shrink_to_fit(d: &mut VecDeque<u8>)
    ensures
        final(d)@ == old(d)@,
{
    d.shrink_to_fit()
}

/// `VecDeque::shrink_to`: the contents stay as they are.
#[verifier::external_body]
fn deque_shrink_to(d: &mut VecDeque<u8>, min_capacity: usize)
    ensures
        final(d)@ == old(d)@,
{
    d.shrink_to(min_capacity)
}

/// `VecDeque::make_contiguous`: the slice that comes back holds the whole
/// contents in order, and what is written through it is what the deque holds
/// afterwards.
#[verifier::external_body]
fn deque_contiguous(d: &mut VecDeque<u8>) -> (s: &mut [u8])
    ensures
        s@ == old(d)@,
        final(d)@ == final(s)@,
{
    d.make_contiguous()
}

/// `VecDeque::as_slices`: the two slices, one after the other, are the
/// contents in order.
#[verifier::external_body]
fn deque_slices(d: &VecDeque<u8>) -> (halves: (&[u8], &[u8]))
    ensures
        halves.0@ + halves.1@ == d@,
{
    d.as_slices()
}

/// `VecDeque::iter_mut`: the iterator hands out each byte for writing, so of
/// the deque afterwards only its length is known.
#[verifier::external_body]
fn deque_iter_mut<'a>(d: &'a mut VecDeque<u8>) -> (it: IterMut<'a, u8>)
    ensures
        final(d)@.len() == old(d)@.len(),
{
    d.iter_mut()
}

/// `IndexMut::index_mut` of `VecDeque`: the reference stands for the byte at
/// `index`, and the deque afterwards differs from the one before only there.
/// The call panics where `index` is out of bounds, which the `requires`
/// leaves out.
#[verifier::external_body]
fn deque_slot(d: &mut VecDeque<u8>, index: usize) -> (slot: &mut u8)
    requires
        index < old(d)@.len(),
    ensures
        *slot == old(d)@[index as int],
        final(d)@ == old(d)@.update(index as int, *final(slot)),
{
    d.index_mut(index)
}

/// `From<Vec<u8>>` of `VecDeque`: the same bytes in the same order.
#[verifier::external_body]
fn deque_from_vec(v: Vec<u8>) -> (d: VecDeque<u8>)
    ensures
        d@ == v@,
{
    VecDeque::from(v)
}

/// `From<VecDeque<u8>>` of `Vec`: the same bytes in the same order.
#[verifier::external_body]
fn vec_from_deque(d: VecDeque<u8>) -> (v: Vec<u8>)
    ensures
        v@ == d@,
{
    Vec::from(d)
}

/// `sort_unstable` of a slice: the slice afterwards is in ascending order and
/// holds each byte as often as before.
#[verifier::external_body]
fn sort_bytes(s: &mut [u8])
    ensures
        ascending(final(s)@),
        final(s)@.to_multiset() == old(s)@.to_multiset(),
{
    s.sort_unstable()
}

/// Writes the report of a character without a byte, found at the place `inx`.
fn non_ascii_at(character: char, inx: usize) -> (msg: String)
    ensures
        is_non_ascii_at_message(character, inx, msg@),
{
    let shown = character.to_string();
    let place = inx.to_string();
    let mut msg = String::from_str("Non-ASCII character \"");
    msg.append(shown.as_str());
    msg.append("\" found at index ");
    msg.append(place.as_str());
    msg
}

/// Translates a text to its bytes, or reports the first character of it that
/// has no byte.
fn text_to_bytes(value: &str) -> (r: Result<VecDeque<u8>, String>)
    ensures
        all_mapped(value@) ==> r is Ok && r->Ok_0@ == bytes_of(value@),
        !all_mapped(value@) ==> r is Err && exists|i: int|
            is_first_unmapped(value@, i) && is_non_ascii_at_message(
                value@[i],
                i as usize,
                r->Err_0@,
            ),
{
    let mut bytes: VecDeque<u8> = VecDeque::with_capacity(value.len());
    for character in it: value.chars()
        invariant
            it.seq() == value@,
            bytes@ == bytes_of(value@.take(it.index())),
            all_mapped(value@.take(it.index())),
    {
        let ghost done = it.index();
        match character.ascii_ord() {
            Some(byte) => {
                bytes.push_back(byte);
                assert(value@.take(done + 1) == value@.take(done).push(character));
                assert(bytes_of(value@.take(done).push(character)) == bytes_of(
                    value@.take(done),
                ).push(byte));
            },
            None => {
                let inx = bytes.len();
                assert(is_first_unmapped(value@, done)) by {
                    assert forall|j: int| 0 <= j < done implies is_mapped(
                        #[trigger] value@[j],
                    ) by {
                        assert(value@.take(done)[j] == value@[j]);
                    }
                }
                return Err(non_ascii_at(character, inx));
            },
        }
    }
    assert(value@.take(value@.len() as int) == value@);
    Ok(bytes)
}

/// A String like struct that contains ASCII and Extended ASCII characters.
///
/// Because it accepts Extended ASCII, all u8 values are accepted.
#[derive(Debug, Hash, Ord)]
pub struct AsciiString {
    bytes: VecDeque<u8>,
}

impl View for AsciiString {
    type V = Seq<u8>;

    /// The bytes that the string holds, front to back.
    closed spec fn view(&self) -> Seq<u8> {
        self.bytes@
    }
}

/// Two ascending sequences that hold each byte equally often are the same
/// sequence.
pub proof fn lemma_ascending_unique(a: Seq<u8>, b: Seq<u8>)
    requires
        ascending(a),
        ascending(b),
        a.to_multiset() == b.to_multiset(),
    ensures
        a == b,
{
    let leq = |x: u8, y: u8| x <= y;
    assert(vstd::relations::total_ordering(leq));
    assert(vstd::relations::sorted_by(a, leq));
    assert(vstd::relations::sorted_by(b, leq));
    vstd::seq_lib::lemma_sorted_unique(a, b, leq);
}

impl AsciiString {
    /// Creates a new empty `AsciiString` with the given capacity.
    pub fn with_capacity(capacity: usize) -> (s: Self)
        requires
            capacity <= isize::MAX,
        ensures
            s@ == Seq::<u8>::empty(),
    {
        Self { bytes: VecDeque::with_capacity(capacity) }
    }

    /// Creates a new empty `AsciiString`.
    pub fn new() -> (s: Self)
        ensures
            s@ == Seq::<u8>::empty(),
    {
        Self { bytes: VecDeque::new() }
    }

    /// Returns the length of the `AsciiString` in bytes.
    pub fn len(&self) -> (n: usize)
        ensures
            n == self@.len(),
    {
        self.bytes.len()
    }

    /// Returns true if the `AsciiString` contains no bytes.
    pub fn is_empty(&self) -> (b: bool)
        ensures
            b == (self@.len() == 0),
    {
        self.bytes.len() == 0
    }

    /// Pushes a char or byte onto the end of the `AsciiString`.
    pub fn push<T: CharToAsciiOrd>(&mut self, value: T)
        requires
            value.ord_spec() is Some,
        ensures
            final(self)@ == old(self)@.push(value.ord_spec()->0),
    {
        self.bytes.push_back(value.ascii_ord_unchecked());
    }

    /// Pushes a char or byte onto the end of the `AsciiString`, or reports
    /// that it is not ASCII and leaves the string as it is.
    pub fn try_push<T: CharToAsciiOrd + Display>(&mut self, value: T) -> (r: Result<(), String>)
        ensures
            match value.ord_spec() {
                Some(o) => r is Ok && final(self)@ == old(self)@.push(o),
                None => r is Err && final(self)@ == old(self)@ && is_not_ascii_message(
                    &value,
                    r->Err_0@,
                ),
            },
    {
        match value.try_ascii_ord() {
            Ok(o) => {
                self.bytes.push_back(o);
                Ok(())
            },
            Err(msg) => Err(msg),
        }
    }

    /// Pops a byte from the end of the `AsciiString`.
    pub fn pop(&mut self) -> (r: Option<u8>)
        ensures
            old(self)@.len() == 0 ==> r is None && final(self)@ == old(self)@,
            old(self)@.len() > 0 ==> r == Some(old(self)@.last()) && final(self)@ == old(
                self,
            )@.drop_last(),
    {
        self.bytes.pop_back()
    }

    /// Pushes a char or byte onto the front of the `AsciiString`.
    pub fn push_front<T: CharToAsciiOrd>(&mut self, value: T)
        requires
            value.ord_spec() is Some,
        ensures
            final(self)@ == seq![value.ord_spec()->0] + old(self)@,
    {
        self.bytes.push_front(value.ascii_ord_unchecked());
    }

    /// Pushes a char or byte onto the front of the `AsciiString`, or reports
    /// that it is not ASCII and leaves the string as it is.
    pub fn try_push_front<T: CharToAsciiOrd + Display>(&mut self, value: T) -> (r: Result<
        (),
        String,
    >)
        ensures
            match value.ord_spec() {
                Some(o) => r is Ok && final(self)@ == seq![o] + old(self)@,
                None => r is Err && final(self)@ == old(self)@ && is_not_ascii_message(
                    &value,
                    r->Err_0@,
                ),
            },
    {
        match value.try_ascii_ord() {
            Ok(o) => {
                self.bytes.push_front(o);
                Ok(())
            },
            Err(msg) => Err(msg),
        }
    }

    /// Pops a byte from the front of the `AsciiString`.
    pub fn pop_front(&mut self) -> (r: Option<u8>)
        ensures
            old(self)@.len() == 0 ==> r is None && final(self)@ == old(self)@,
            old(self)@.len() > 0 ==> r == Some(old(self)@.first()) && final(self)@ == old(
                self,
            )@.drop_first(),
    {
        self.bytes.pop_front()
    }

    /// Pushes a char onto the end of the `AsciiString`.
    pub fn push_char(&mut self, character: char)
        requires
            is_mapped(character),
        ensures
            final(self)@ == old(self)@.push(char_to_ord(character)->0),
    {
        self.bytes.push_back(character.ascii_ord_unchecked());
    }

    /// Pushes a char onto the end of the `AsciiString`, or reports that it is
    /// not ASCII and leaves the string as it is.
    pub fn try_push_char(&mut self, character: char) -> (r: Result<(), String>)
        ensures
            match char_to_ord(character) {
                Some(o) => r is Ok && final(self)@ == old(self)@.push(o),
                None => r is Err && final(self)@ == old(self)@ && is_not_ascii_message(
                    &character,
                    r->Err_0@,
                ),
            },
    {
        match character.try_ascii_ord() {
            Ok(o) => {
                self.bytes.push_back(o);
                Ok(())
            },
            Err(msg) => Err(msg),
        }
    }

    /// Pushes a char onto the front of the `AsciiString`.
    pub fn push_front_char(&mut self, character: char)
        requires
            is_mapped(character),
        ensures
            final(self)@ == seq![char_to_ord(character)->0] + old(self)@,
    {
        self.bytes.push_front(character.ascii_ord_unchecked());
    }

    /// Pushes a char onto the front of the `AsciiString`, or reports that it
    /// is not ASCII and leaves the string as it is.
    pub fn try_push_front_char(&mut self, character: char) -> (r: Result<(), String>)
        ensures
            match char_to_ord(character) {
                Some(o) => r is Ok && final(self)@ == seq![o] + old(self)@,
                None => r is Err && final(self)@ == old(self)@ && is_not_ascii_message(
                    &character,
                    r->Err_0@,
                ),
            },
    {
        match character.try_ascii_ord() {
            Ok(o) => {
                self.bytes.push_front(o);
                Ok(())
            },
            Err(msg) => Err(msg),
        }
    }

    /// Pops a char from the end of the `AsciiString`.
    pub fn pop_char(&mut self) -> (r: Option<char>)
        ensures
            old(self)@.len() == 0 ==> r is None && final(self)@ == old(self)@,
            old(self)@.len() > 0 ==> r == Some(ord_to_char(old(self)@.last())) && final(self)@
                == old(self)@.drop_last(),
    {
        match self.bytes.pop_back() {
            Some(byte) => Some(ascii_ord_to_char(byte)),
            None => None,
        }
    }

    /// Pops a char from the front of the `AsciiString`.
    pub fn pop_front_char(&mut self) -> (r: Option<char>)
        ensures
            old(self)@.len() == 0 ==> r is None && final(self)@ == old(self)@,
            old(self)@.len() > 0 ==> r == Some(ord_to_char(old(self)@.first())) && final(self)@
                == old(self)@.drop_first(),
    {
        match self.bytes.pop_front() {
            Some(byte) => Some(ascii_ord_to_char(byte)),
            None => None,
        }
    }

    /// Pushes a string onto the end of the `AsciiString`.
    pub fn push_str(&mut self, string: &str)
        requires
            all_mapped(string@),
        ensures
            final(self)@ == old(self)@ + bytes_of(string@),
    {
        let mut tail = text_to_bytes(string).unwrap();
        self.bytes.append(&mut tail);
    }

    /// Pushes a string onto the end of the `AsciiString`, or reports the
    /// first character of it that is not ASCII and leaves the `AsciiString`
    /// as it is.
    pub fn try_push_str(&mut self, string: &str) -> (r: Result<(), String>)
        ensures
            all_mapped(string@) ==> r is Ok && final(self)@ == old(self)@ + bytes_of(string@),
            !all_mapped(string@) ==> r is Err && final(self)@ == old(self)@ && exists|i: int|
                is_first_unmapped(string@, i) && is_non_ascii_at_message(
                    string@[i],
                    i as usize,
                    r->Err_0@,
                ),
    {
        match text_to_bytes(string) {
            Ok(tail) => {
                let mut tail = tail;
                self.bytes.append(&mut tail);
                Ok(())
            },
            Err(msg) => Err(msg),
        }
    }

    /// Pushes a string onto the end of the `AsciiString`, replacing non
    /// ASCII/Extended ASCII characters with a space.
    pub fn push_str_lossy(&mut self, string: &str)
        ensures
            final(self)@ == old(self)@ + lossy_bytes_of(string@, SPACE),
    {
        self.push_str_lossy_with(string, SPACE);
    }

    /// Pushes a string onto the end of the `AsciiString`, replacing non
    /// ASCII/Extended ASCII characters with the byte `fallback`.
    pub fn push_str_lossy_with(&mut self, string: &str, fallback: u8)
        ensures
            final(self)@ == old(self)@ + lossy_bytes_of(string@, fallback),
    {
        let str_len = string.len();
        let my_remaining_capacity = self.remaining_capacity();
        if str_len > my_remaining_capacity {
            self.bytes.reserve(str_len - my_remaining_capacity);
        }
        for character in it: string.chars()
            invariant
                it.seq() == string@,
                self.bytes@ == old(self).bytes@ + lossy_bytes_of(
                    string@.take(it.index()),
                    fallback,
                ),
        {
            let ghost done = it.index();
            let byte = character.ascii_ord_or(fallback);
            self.bytes.push_back(byte);
            assert(string@.take(done + 1) == string@.take(done).push(character));
            assert(lossy_bytes_of(string@.take(done).push(character), fallback)
                == lossy_bytes_of(string@.take(done), fallback).push(byte));
            assert(self.bytes@ == old(self).bytes@ + lossy_bytes_of(
                string@.take(done + 1),
                fallback,
            ));
        }
        assert(string@.take(string@.len() as int) == string@);
    }

    /// Pushes an `AsciiString` onto the end of the `AsciiString`.
    pub fn push_ascii_string(&mut self, string: &AsciiString)
        ensures
            final(self)@ == old(self)@ + string@,
    {
        let mut tail = string.bytes.clone();
        assert(tail@ =~= string.bytes@);
        self.bytes.append(&mut tail);
    }

    /// Returns a char iterator over the `AsciiString`.
    pub fn iter_ascii(&self) -> (it: AsciiCharIter<'_>)
        ensures
            it.rest() == text_of(self@),
            IteratorSpec::decrease(&it) is Some,
    {
        AsciiCharIter::new(&self.bytes)
    }

    /// Clears the `AsciiString`, removing all bytes.
    pub fn clear(&mut self)
        ensures
            final(self)@ == Seq::<u8>::empty(),
    {
        self.bytes.clear();
    }

    /// Truncates the `AsciiString` to the given length.
    pub fn truncate(&mut self, len: usize)
        ensures
            final(self)@ == (if len <= old(self)@.len() {
                old(self)@.take(len as int)
            } else {
                old(self)@
            }),
    {
        self.bytes.truncate(len);
    }

    /// Returns the capacity of the `AsciiString` in bytes.
    pub fn capacity(&self) -> (n: usize)
        ensures
            n >= self@.len(),
    {
        deque_capacity(&self.bytes)
    }

    /// Returns the number of bytes remaining to full capacity.
    pub fn remaining_capacity(&self) -> (n: usize)
        ensures
            n + self@.len() <= usize::MAX,
    {
        deque_capacity(&self.bytes) - self.bytes.len()
    }

    /// Reserves capacity for at least `additional` more bytes to be inserted
    /// in the given `AsciiString`.
    pub fn reserve(&mut self, additional: usize)
        requires
            old(self)@.len() + additional <= isize::MAX,
        ensures
            final(self)@ == old(self)@,
    {
        self.bytes.reserve(additional);
    }

    /// Reserves the minimum capacity for exactly `additional` more bytes to
    /// be inserted in the given `AsciiString`.
    pub fn reserve_exact(&mut self, additional: usize)
        requires
            old(self)@.len() + additional <= isize::MAX,
        ensures
            final(self)@ == old(self)@,
    {
        deque_reserve_exact(&mut self.bytes, additional);
    }

    /// Shrinks the capacity of the `AsciiString` to match its length.
    pub fn shrink_to_fit(&mut self)
        ensures
            final(self)@ == old(self)@,
    {
        deque_shrink_to_fit(&mut self.bytes);
    }

    /// Shrinks the capacity of the `AsciiString` to the given value.
    pub fn shrink_to(&mut self, min_capacity: usize)
        ensures
            final(self)@ == old(self)@,
    {
        deque_shrink_to(&mut self.bytes, min_capacity);
    }

    /// Returns a byte slice of the `AsciiString`.
    pub fn as_bytes(&mut self) -> (s: &[u8])
        ensures
            s@ == old(self)@,
            final(self)@ == old(self)@,
    {
        let whole = deque_contiguous(&mut self.bytes);
        &*whole
    }

    /// Returns a mutable byte slice of the `AsciiString`.
    pub fn as_bytes_mut(&mut self) -> (s: &mut [u8])
        ensures
            s@ == old(self)@,
            final(self)@ == final(s)@,
    {
        deque_contiguous(&mut self.bytes)
    }

    /// Returns the two slices that the bytes are stored in, the front one
    /// first.
    pub fn as_slices(&self) -> (halves: (&[u8], &[u8]))
        ensures
            halves.0@ + halves.1@ == self@,
    {
        deque_slices(&self.bytes)
    }

    /// Sorts the `AsciiString` in place.
    pub fn sort(&mut self)
        ensures
            ascending(final(self)@),
            final(self)@.to_multiset() == old(self)@.to_multiset(),
            ascending(old(self)@) ==> final(self)@ == old(self)@,
    {
        let whole = deque_contiguous(&mut self.bytes);
        sort_bytes(whole);
        proof {
            if ascending(old(self)@) {
                lemma_ascending_unique(self@, old(self)@);
            }
        }
    }

    /// Returns true if the `AsciiString` contains the given char or byte.
    pub fn contains<T: CharToAsciiOrd>(&self, value: T) -> (found: bool)
        requires
            value.ord_spec() is Some,
        ensures
            found == self@.contains(value.ord_spec()->0),
    {
        let wanted = value.ascii_ord_unchecked();
        let n = self.bytes.len();
        let mut i: usize = 0;
        while i < n
            invariant
                n == self.bytes@.len(),
                i <= n,
                Some(wanted) == value.ord_spec(),
                forall|k: int| 0 <= k < i ==> self.bytes@[k] != wanted,
            decreases n - i,
        {
            if self.bytes[i] == wanted {
                assert(self@[i as int] == wanted);
                return true;
            }
            i += 1;
        }
        false
    }

    /// Returns a u8 iterator over the `AsciiString`.
    pub fn iter(&self) -> (it: Iter<'_, u8>)
        ensures
            IteratorSpec::remaining(&it) == self@.as_ref(),
            IteratorSpec::decrease(&it) is Some,
            IteratorSpec::initial_value_relation(&it, &it),
    {
        self.bytes.iter()
    }

    /// Returns a mutable u8 iterator over the `AsciiString`.
    pub fn iter_mut(&mut self) -> (it: IterMut<'_, u8>)
        ensures
            final(self)@.len() == old(self)@.len(),
    {
        deque_iter_mut(&mut self.bytes)
    }

    /// Returns an AsciiGroup iterator over the `AsciiString`.
    pub fn iter_ascii_group(&self) -> (it: AsciiGroupIter<'_>)
        ensures
            it.rest() == classify_all(self@),
            IteratorSpec::decrease(&it) is Some,
    {
        AsciiGroupIter::new(&self.bytes)
    }

    /// Returns the text of the `AsciiString`: the character of each byte, in
    /// order.
    pub fn to_string(&self) -> (text: String)
        ensures
            text@ == text_of(self@),
    {
        let n = self.bytes.len();
        let mut text = String::new();
        let mut i: usize = 0;
        while i < n
            invariant
                n == self.bytes@.len(),
                i <= n,
                text@ == text_of(self.bytes@.take(i as int)),
            decreases n - i,
        {
            text.push(ascii_ord_to_char(self.bytes[i]));
            assert(self.bytes@.take(i + 1) == self.bytes@.take(i as int).push(self.bytes@[i as int]));
            i += 1;
        }
        assert(self.bytes@.take(n as int) == self.bytes@);
        text
    }
}

impl Default for AsciiString {
    fn default() -> (s: Self)
        ensures
            s@ == Seq::<u8>::empty(),
    {
        Self { bytes: VecDeque::new() }
    }
}

impl Clone for AsciiString {
    fn clone(&self) -> (s: Self)
        ensures
            s@ == self@,
    {
        let bytes = self.bytes.clone();
        assert(bytes@ =~= self.bytes@);
        Self { bytes }
    }
}

impl PartialEq for AsciiString {
    fn eq(&self, other: &Self) -> (r: bool) {
        let n = self.bytes.len();
        if n != other.bytes.len() {
            return false;
        }
        let mut i: usize = 0;
        while i < n
            invariant
                n == self.bytes@.len(),
                n == other.bytes@.len(),
                i <= n,
                self.bytes@.take(i as int) == other.bytes@.take(i as int),
            decreases n - i,
        {
            if self.bytes[i] != other.bytes[i] {
                return false;
            }
            assert(self.bytes@.take(i + 1) == self.bytes@.take(i as int).push(self.bytes@[i as int]));
            assert(other.bytes@.take(i + 1) == other.bytes@.take(i as int).push(
                other.bytes@[i as int],
            ));
            i += 1;
        }
        assert(self.bytes@.take(n as int) == self.bytes@);
        assert(other.bytes@.take(n as int) == other.bytes@);
        true
    }
}

impl PartialEqSpecImpl for AsciiString {
    open spec fn obeys_eq_spec() -> bool {
        true
    }

    /// Two strings are equal where they hold the same bytes in the same
    /// order.
    open spec fn eq_spec(&self, other: &Self) -> bool {
        self@ == other@
    }
}

impl Eq for AsciiString {

}

impl Index<usize> for AsciiString {
    type Output = u8;

    fn index(&self, index: usize) -> (byte: &u8)
        ensures
            *byte == self@[index as int],
    {
        &self.bytes[index]
    }
}

impl vstd::std_specs::core::IndexSpecImpl<usize> for AsciiString {
    open spec fn index_req(&self, index: &usize) -> bool {
        *index < self@.len()
    }
}

impl IndexMut<usize> for AsciiString {
    fn index_mut(&mut self, index: usize) -> (slot: &mut u8)
        requires
            index < old(self)@.len(),
        ensures
            *slot == old(self)@[index as int],
            final(self)@ == old(self)@.update(index as int, *final(slot)),
    {
        deque_slot(&mut self.bytes, index)
    }
}

/// An iterator over the characters of the bytes of a deque, front to back.
pub struct AsciiCharIter<'a> {
    bytes: &'a VecDeque<u8>,
    pos: usize,
}

impl<'a> AsciiCharIter<'a> {
    #[verifier::type_invariant]
    closed spec fn in_range(self) -> bool {
        self.pos <= self.bytes@.len()
    }

    /// The characters that the iterator has not yielded yet, in order.
    pub closed spec fn rest(self) -> Seq<char> {
        text_of(self.bytes@.subrange(self.pos as int, self.bytes@.len() as int))
    }

    /// The iterator that stands before the first byte of `bytes`.
    pub closed spec fn over(bytes: &'a VecDeque<u8>) -> AsciiCharIter<'a> {
        AsciiCharIter { bytes, pos: 0 }
    }

    /// Starts an iteration over the characters of `bytes`.
    #[verifier::when_used_as_spec(over)]
    pub fn new(bytes: &'a VecDeque<u8>) -> (it: AsciiCharIter<'a>)
        ensures
            it == Self::over(bytes),
            it.rest() == text_of(bytes@),
            IteratorSpec::decrease(&it) is Some,
            IteratorSpec::initial_value_relation(&it, &Self::over(bytes)),
    {
        assert(bytes@.subrange(0, bytes@.len() as int) == bytes@);
        AsciiCharIter { bytes, pos: 0 }
    }
}

impl<'a> Iterator for AsciiCharIter<'a> {
    type Item = char;

    fn next(&mut self) -> (ret: Option<char>) {
        proof {
            use_type_invariant(&*self);
        }
        if self.pos < self.bytes.len() {
            let ghost before = self.bytes@.subrange(self.pos as int, self.bytes@.len() as int);
            let character = ascii_ord_to_char(self.bytes[self.pos]);
            self.pos = self.pos + 1;
            assert(self.bytes@.subrange(self.pos as int, self.bytes@.len() as int)
                == before.drop_first());
            assert(text_of(before.drop_first()) == text_of(before).drop_first());
            Some(character)
        } else {
            None
        }
    }
}

impl<'a> vstd::std_specs::iter::IteratorSpecImpl for AsciiCharIter<'a> {
    open spec fn obeys_prophetic_iter_laws(&self) -> bool {
        true
    }

    open spec fn remaining(&self) -> Seq<char> {
        self.rest()
    }

    open spec fn will_return_none(&self) -> bool {
        true
    }

    closed spec fn decrease(&self) -> Option<nat> {
        Some((self.bytes@.len() - self.pos) as nat)
    }

    open spec fn initial_value_relation(&self, init: &Self) -> bool {
        init.rest() == self.rest()
    }

    open spec fn peek(&self, index: int) -> Option<char> {
        if 0 <= index < self.rest().len() {
            Some(self.rest()[index])
        } else {
            None
        }
    }
}

} // verus!

verus! {

/// Writes the report of a single character without a byte.
fn non_ascii(character: char) -> (msg: String)
    ensures
        is_non_ascii_message(character, msg@),
{
    let shown = character.to_string();
    let mut msg = String::from_str("Non-ASCII character \"");
    msg.append(shown.as_str());
    msg.append("\" found");
    msg
}

/// Copies the bytes of a slice into a new deque.
fn deque_of_slice(value: &[u8]) -> (bytes: VecDeque<u8>)
    ensures
        bytes@ == value@,
{
    let n = value.len();
    let mut bytes: VecDeque<u8> = VecDeque::with_capacity(n);
    let mut i: usize = 0;
    while i < n
        invariant
            n == value@.len(),
            i <= n,
            bytes@ == value@.take(i as int),
        decreases n - i,
    {
        bytes.push_back(value[i]);
        assert(value@.take(i + 1) == value@.take(i as int).push(value@[i as int]));
        i += 1;
    }
    assert(value@.take(n as int) == value@);
    bytes
}

impl From<AsciiString> for String {
    /// The text of the string: the character of each byte, in order.
    fn from(value: AsciiString) -> (r: Self)
        ensures
            r@ == text_of(value@),
    {
        value.to_string()
    }
}

impl FromSpecImpl<AsciiString> for String {
    /// What `from` gives is stated by `from` itself, over the views.
    open spec fn obeys_from_spec() -> bool {
        false
    }

    open spec fn from_spec(value: AsciiString) -> Self {
        arbitrary()
    }
}

impl From<&AsciiString> for String {
    /// The text of the string: the character of each byte, in order.
    fn from(value: &AsciiString) -> (r: Self)
        ensures
            r@ == text_of(value@),
    {
        value.to_string()
    }
}

impl FromSpecImpl<&AsciiString> for String {
    /// What `from` gives is stated by `from` itself, over the views.
    open spec fn obeys_from_spec() -> bool {
        false
    }

    open spec fn from_spec(value: &AsciiString) -> Self {
        arbitrary()
    }
}

impl From<&AsciiString> for AsciiString {
    /// An independent copy of the string.
    fn from(value: &AsciiString) -> (r: Self)
        ensures
            r@ == value@,
    {
        value.clone()
    }
}

impl FromSpecImpl<&AsciiString> for AsciiString {
    /// What `from` gives is stated by `from` itself, over the views.
    open spec fn obeys_from_spec() -> bool {
        false
    }

    open spec fn from_spec(value: &AsciiString) -> Self {
        arbitrary()
    }
}

impl From<&AsciiString> for Vec<u8> {
    /// The bytes of the string, in order.
    fn from(value: &AsciiString) -> (r: Self)
        ensures
            r@ == value@,
    {
        vec_from_deque(value.clone().bytes)
    }
}

impl FromSpecImpl<&AsciiString> for Vec<u8> {
    /// What `from` gives is stated by `from` itself, over the views.
    open spec fn obeys_from_spec() -> bool {
        false
    }

    open spec fn from_spec(value: &AsciiString) -> Self {
        arbitrary()
    }
}

impl From<AsciiString> for Vec<u8> {
    /// The bytes of the string, in order.
    fn from(value: AsciiString) -> (r: Self)
        ensures
            r@ == value@,
    {
        vec_from_deque(value.bytes)
    }
}

impl FromSpecImpl<AsciiString> for Vec<u8> {
    /// What `from` gives is stated by `from` itself, over the views.
    open spec fn obeys_from_spec() -> bool {
        false
    }

    open spec fn from_spec(value: AsciiString) -> Self {
        arbitrary()
    }
}

impl From<&AsciiString> for VecDeque<u8> {
    /// The bytes of the string, in order.
    fn from(value: &AsciiString) -> (r: Self)
        ensures
            r@ == value@,
    {
        value.clone().bytes
    }
}

impl FromSpecImpl<&AsciiString> for VecDeque<u8> {
    /// What `from` gives is stated by `from` itself, over the views.
    open spec fn obeys_from_spec() -> bool {
        false
    }

    open spec fn from_spec(value: &AsciiString) -> Self {
        arbitrary()
    }
}

impl From<AsciiString> for VecDeque<u8> {
    /// The bytes of the string, in order.
    fn from(value: AsciiString) -> (r: Self)
        ensures
            r@ == value@,
    {
        value.bytes
    }
}

impl FromSpecImpl<AsciiString> for VecDeque<u8> {
    /// What `from` gives is stated by `from` itself, over the views.
    open spec fn obeys_from_spec() -> bool {
        false
    }

    open spec fn from_spec(value: AsciiString) -> Self {
        arbitrary()
    }
}

impl From<&AsciiString> for Vec<char> {
    /// The characters of the string, in order.
    fn from(value: &AsciiString) -> (r: Self)
        ensures
            r@ == text_of(value@),
    {
        let n = value.bytes.len();
        let mut out = Vec::<char>::with_capacity(n);
        let mut i: usize = 0;
        while i < n
            invariant
                n == value.bytes@.len(),
                i <= n,
                out@ == text_of(value.bytes@.take(i as int)),
            decreases n - i,
        {
            out.push(ascii_ord_to_char(value.bytes[i]));
            assert(value.bytes@.take(i + 1) == value.bytes@.take(i as int).push(
                value.bytes@[i as int],
            ));
            i += 1;
        }
        assert(value.bytes@.take(n as int) == value.bytes@);
        out
    }
}

impl FromSpecImpl<&AsciiString> for Vec<char> {
    /// What `from` gives is stated by `from` itself, over the views.
    open spec fn obeys_from_spec() -> bool {
        false
    }

    open spec fn from_spec(value: &AsciiString) -> Self {
        arbitrary()
    }
}

impl From<AsciiString> for Vec<char> {
    /// The characters of the string, in order.
    fn from(value: AsciiString) -> (r: Self)
        ensures
            r@ == text_of(value@),
    {
        let n = value.bytes.len();
        let mut out = Vec::<char>::with_capacity(n);
        let mut i: usize = 0;
        while i < n
            invariant
                n == value.bytes@.len(),
                i <= n,
                out@ == text_of(value.bytes@.take(i as int)),
            decreases n - i,
        {
            out.push(ascii_ord_to_char(value.bytes[i]));
            assert(value.bytes@.take(i + 1) == value.bytes@.take(i as int).push(
                value.bytes@[i as int],
            ));
            i += 1;
        }
        assert(value.bytes@.take(n as int) == value.bytes@);
        out
    }
}

impl FromSpecImpl<AsciiString> for Vec<char> {
    /// What `from` gives is stated by `from` itself, over the views.
    open spec fn obeys_from_spec() -> bool {
        false
    }

    open spec fn from_spec(value: AsciiString) -> Self {
        arbitrary()
    }
}

impl From<&AsciiString> for VecDeque<char> {
    /// The characters of the string, in order.
    fn from(value: &AsciiString) -> (r: Self)
        ensures
            r@ == text_of(value@),
    {
        let n = value.bytes.len();
        let mut out = VecDeque::<char>::with_capacity(n);
        let mut i: usize = 0;
        while i < n
            invariant
                n == value.bytes@.len(),
                i <= n,
                out@ == text_of(value.bytes@.take(i as int)),
            decreases n - i,
        {
            out.push_back(ascii_ord_to_char(value.bytes[i]));
            assert(value.bytes@.take(i + 1) == value.bytes@.take(i as int).push(
                value.bytes@[i as int],
            ));
            i += 1;
        }
        assert(value.bytes@.take(n as int) == value.bytes@);
        out
    }
}

impl FromSpecImpl<&AsciiString> for VecDeque<char> {
    /// What `from` gives is stated by `from` itself, over the views.
    open spec fn obeys_from_spec() -> bool {
        false
    }

    open spec fn from_spec(value: &AsciiString) -> Self {
        arbitrary()
    }
}

impl From<AsciiString> for VecDeque<char> {
    /// The characters of the string, in order.
    fn from(value: AsciiString) -> (r: Self)
        ensures
            r@ == text_of(value@),
    {
        let n = value.bytes.len();
        let mut out = VecDeque::<char>::with_capacity(n);
        let mut i: usize = 0;
        while i < n
            invariant
                n == value.bytes@.len(),
                i <= n,
                out@ == text_of(value.bytes@.take(i as int)),
            decreases n - i,
        {
            out.push_back(ascii_ord_to_char(value.bytes[i]));
            assert(value.bytes@.take(i + 1) == value.bytes@.take(i as int).push(
                value.bytes@[i as int],
            ));
            i += 1;
        }
        assert(value.bytes@.take(n as int) == value.bytes@);
        out
    }
}

impl FromSpecImpl<AsciiString> for VecDeque<char> {
    /// What `from` gives is stated by `from` itself, over the views.
    open spec fn obeys_from_spec() -> bool {
        false
    }

    open spec fn from_spec(value: AsciiString) -> Self {
        arbitrary()
    }
}

impl From<VecDeque<u8>> for AsciiString {
    /// The string that holds the given bytes: every byte stands for a character.
    fn from(value: VecDeque<u8>) -> (r: Self)
        ensures
            r@ == value@,
    {
        Self { bytes: value }
    }
}

impl FromSpecImpl<VecDeque<u8>> for AsciiString {
    /// What `from` gives is stated by `from` itself, over the views.
    open spec fn obeys_from_spec() -> bool {
        false
    }

    open spec fn from_spec(value: VecDeque<u8>) -> Self {
        arbitrary()
    }
}

impl From<Vec<u8>> for AsciiString {
    /// The string that holds the given bytes: every byte stands for a character.
    fn from(value: Vec<u8>) -> (r: Self)
        ensures
            r@ == value@,
    {
        Self { bytes: deque_from_vec(value) }
    }
}

impl FromSpecImpl<Vec<u8>> for AsciiString {
    /// What `from` gives is stated by `from` itself, over the views.
    open spec fn obeys_from_spec() -> bool {
        false
    }

    open spec fn from_spec(value: Vec<u8>) -> Self {
        arbitrary()
    }
}

impl From<&[u8]> for AsciiString {
    /// The string that holds the given bytes: every byte stands for a character.
    fn from(value: &[u8]) -> (r: Self)
        ensures
            r@ == value@,
    {
        Self { bytes: deque_of_slice(value) }
    }
}

impl FromSpecImpl<&[u8]> for AsciiString {
    /// What `from` gives is stated by `from` itself, over the views.
    open spec fn obeys_from_spec() -> bool {
        false
    }

    open spec fn from_spec(value: &[u8]) -> Self {
        arbitrary()
    }
}

impl TryFrom<String> for AsciiString {
    type Error = String;

    fn try_from(value: String) -> (r: Result<Self, String>)
        ensures
            all_mapped(value@) ==> r is Ok && r->Ok_0@ == bytes_of(value@),
            !all_mapped(value@) ==> r is Err && exists|i: int|
                is_first_unmapped(value@, i) && is_non_ascii_at_message(
                    value@[i],
                    i as usize,
                    r->Err_0@,
                ),
    {
        match text_to_bytes(value.as_str()) {
            Ok(bytes) => Ok(Self { bytes }),
            Err(msg) => Err(msg),
        }
    }
}

impl TryFromSpecImpl<String> for AsciiString {
    /// What `try_from` gives is stated by `try_from` itself, over the views.
    open spec fn obeys_try_from_spec() -> bool {
        false
    }

    open spec fn try_from_spec(value: String) -> Result<Self, String> {
        arbitrary()
    }
}

impl TryFrom<&str> for AsciiString {
    type Error = String;

    fn try_from(value: &str) -> (r: Result<Self, String>)
        ensures
            all_mapped(value@) ==> r is Ok && r->Ok_0@ == bytes_of(value@),
            !all_mapped(value@) ==> r is Err && exists|i: int|
                is_first_unmapped(value@, i) && is_non_ascii_at_message(
                    value@[i],
                    i as usize,
                    r->Err_0@,
                ),
    {
        match text_to_bytes(value) {
            Ok(bytes) => Ok(Self { bytes }),
            Err(msg) => Err(msg),
        }
    }
}

impl TryFromSpecImpl<&str> for AsciiString {
    /// What `try_from` gives is stated by `try_from` itself, over the views.
    open spec fn obeys_try_from_spec() -> bool {
        false
    }

    open spec fn try_from_spec(value: &str) -> Result<Self, String> {
        arbitrary()
    }
}

impl TryFrom<&String> for AsciiString {
    type Error = String;

    fn try_from(value: &String) -> (r: Result<Self, String>)
        ensures
            all_mapped(value@) ==> r is Ok && r->Ok_0@ == bytes_of(value@),
            !all_mapped(value@) ==> r is Err && exists|i: int|
                is_first_unmapped(value@, i) && is_non_ascii_at_message(
                    value@[i],
                    i as usize,
                    r->Err_0@,
                ),
    {
        match text_to_bytes(value.as_str()) {
            Ok(bytes) => Ok(Self { bytes }),
            Err(msg) => Err(msg),
        }
    }
}

impl TryFromSpecImpl<&String> for AsciiString {
    /// What `try_from` gives is stated by `try_from` itself, over the views.
    open spec fn obeys_try_from_spec() -> bool {
        false
    }

    open spec fn try_from_spec(value: &String) -> Result<Self, String> {
        arbitrary()
    }
}

impl TryFrom<char> for AsciiString {
    type Error = String;

    fn try_from(value: char) -> (r: Result<Self, String>)
        ensures
            match char_to_ord(value) {
                Some(o) => r is Ok && r->Ok_0@ == seq![o],
                None => r is Err && is_non_ascii_message(value, r->Err_0@),
            },
    {
        match value.ascii_ord() {
            Some(byte) => {
                let mut bytes: VecDeque<u8> = VecDeque::with_capacity(1);
                bytes.push_back(byte);
                Ok(Self { bytes })
            },
            None => Err(non_ascii(value)),
        }
    }
}

impl TryFromSpecImpl<char> for AsciiString {
    /// What `try_from` gives is stated by `try_from` itself, over the views.
    open spec fn obeys_try_from_spec() -> bool {
        false
    }

    open spec fn try_from_spec(value: char) -> Result<Self, String> {
        arbitrary()
    }
}

impl TryFrom<&char> for AsciiString {
    type Error = String;

    fn try_from(value: &char) -> (r: Result<Self, String>)
        ensures
            match char_to_ord(*value) {
                Some(o) => r is Ok && r->Ok_0@ == seq![o],
                None => r is Err && is_non_ascii_message(*value, r->Err_0@),
            },
    {
        match (*value).ascii_ord() {
            Some(byte) => {
                let mut bytes: VecDeque<u8> = VecDeque::with_capacity(1);
                bytes.push_back(byte);
                Ok(Self { bytes })
            },
            None => Err(non_ascii((*value))),
        }
    }
}

impl TryFromSpecImpl<&char> for AsciiString {
    /// What `try_from` gives is stated by `try_from` itself, over the views.
    open spec fn obeys_try_from_spec() -> bool {
        false
    }

    open spec fn try_from_spec(value: &char) -> Result<Self, String> {
        arbitrary()
    }
}

/// A string turned into text and the text turned back into a string is the
/// string again: every byte has a character, and that character has the byte.
pub proof fn lemma_text_round_trip(bytes: Seq<u8>)
    ensures
        all_mapped(text_of(bytes)),
        bytes_of(text_of(bytes)) == bytes,
{
    assert(bytes_of(text_of(bytes)) =~= bytes);
}

/// A text of mapped characters turned into bytes and the bytes turned back
/// into text is the text again.
pub proof fn lemma_bytes_round_trip(text: Seq<char>)
    requires
        all_mapped(text),
    ensures
        text_of(bytes_of(text)) == text,
{
    assert forall|i: int| 0 <= i < text.len() implies text_of(bytes_of(text))[i] == text[i] by {
        assert(is_mapped(text[i]));
        lemma_char_round_trip(text[i]);
        assert(bytes_of(text)[i] == char_to_ord(text[i])->0);
    }
    assert(text_of(bytes_of(text)) =~= text);
}

/// Where every character of a text has a byte, the lossy translation is the
/// exact one, whatever the fallback.
pub proof fn lemma_lossy_is_exact(text: Seq<char>, fallback: u8)
    requires
        all_mapped(text),
    ensures
        lossy_bytes_of(text, fallback) == bytes_of(text),
{
    assert forall|i: int| 0 <= i < text.len() implies lossy_bytes_of(text, fallback)[i]
        == bytes_of(text)[i] by {
        assert(is_mapped(text[i]));
    }
    assert(lossy_bytes_of(text, fallback) =~= bytes_of(text));
}

} // verus!
