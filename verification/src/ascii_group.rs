//! Classification of bytes into the four groups of the page.

use std::collections::VecDeque;
use vstd::prelude::*;
use vstd::std_specs::iter::IteratorSpec;
use vstd::std_specs::vecdeque::VecDequeAdditionalSpecFns;
use crate::ascii_consts::{
    ASCII_CTRL_PRINTABLES, ASCII_EXTENDED_FIRST, ASCII_PRINTABLE_FIRST, ASCII_PRINTABLE_LAST, CR,
    HT, LF,
};
use crate::ascii_translators::{ascii_ord_to_char, ord_to_char};

verus! {

/// Enum representing the group an ASCII char belongs to.
#[derive(Debug, PartialEq, Eq, Hash, Structural)]
pub enum AsciiGroup {
    NonPrintableCtrl(u8),
    PrintableCtrl(u8),
    Printable(u8),
    Extended(u8),
}

/// Whether a byte is one of the control bytes that are conventionally
/// rendered.
pub open spec fn is_ctrl_printable(b: u8) -> bool {
    b == HT || b == LF || b == CR
}

/// The group of a byte. The rendered control bytes come first, then the
/// visible range, then the upper half; what is left is a control byte that is
/// not rendered.
pub open spec fn classify(b: u8) -> AsciiGroup {
    if is_ctrl_printable(b) {
        AsciiGroup::PrintableCtrl(b)
    } else if ASCII_PRINTABLE_FIRST <= b <= ASCII_PRINTABLE_LAST {
        AsciiGroup::Printable(b)
    } else if ASCII_EXTENDED_FIRST <= b {
        AsciiGroup::Extended(b)
    } else {
        AsciiGroup::NonPrintableCtrl(b)
    }
}

/// The groups of a sequence of bytes, one for each byte, in order.
pub open spec fn classify_all(bytes: Seq<u8>) -> Seq<AsciiGroup> {
    bytes.map_values(|b: u8| classify(b))
}

/// Tells whether `c` is one of the rendered control bytes.
fn in_ctrl_printables(c: u8) -> (found: bool)
    ensures
        found == is_ctrl_printable(c),
{
    let set = ASCII_CTRL_PRINTABLES;
    let mut i: usize = 0;
    while i < 3
        invariant
            i <= 3,
            set == ASCII_CTRL_PRINTABLES,
            forall|k: int| 0 <= k < i ==> set@[k] != c,
        decreases 3 - i,
    {
        if set[i] == c {
            return true;
        }
        i += 1;
    }
    false
}

impl AsciiGroup {
    /// The byte that the group was made for.
    pub open spec fn byte(self) -> u8 {
        match self {
            AsciiGroup::NonPrintableCtrl(v) => v,
            AsciiGroup::PrintableCtrl(v) => v,
            AsciiGroup::Printable(v) => v,
            AsciiGroup::Extended(v) => v,
        }
    }

    /// Classifies a byte.
    pub fn new(c: &u8) -> (g: Self)
        ensures
            g == classify(*c),
            g.byte() == *c,
    {
        if in_ctrl_printables(*c) {
            Self::PrintableCtrl(*c)
        } else if ASCII_PRINTABLE_FIRST <= *c && *c <= ASCII_PRINTABLE_LAST {
            Self::Printable(*c)
        } else if ASCII_EXTENDED_FIRST <= *c {
            Self::Extended(*c)
        } else {
            Self::NonPrintableCtrl(*c)
        }
    }

    /// Returns the byte inside the group.
    pub fn as_byte(&self) -> (b: u8)
        ensures
            b == self.byte(),
    {
        match self {
            AsciiGroup::NonPrintableCtrl(v) => *v,
            AsciiGroup::PrintableCtrl(v) => *v,
            AsciiGroup::Printable(v) => *v,
            AsciiGroup::Extended(v) => *v,
        }
    }

    /// Returns the character of the byte inside the group.
    pub fn as_char(&self) -> (c: char)
        ensures
            c == ord_to_char(self.byte()),
    {
        ascii_ord_to_char(self.as_byte())
    }

    pub fn is_non_printable_ctrl(&self) -> (b: bool)
        ensures
            b == (*self is NonPrintableCtrl),
    {
        matches!(self, AsciiGroup::NonPrintableCtrl(_))
    }

    pub fn is_printable_ctrl(&self) -> (b: bool)
        ensures
            b == (*self is PrintableCtrl),
    {
        matches!(self, AsciiGroup::PrintableCtrl(_))
    }

    pub fn is_printable(&self) -> (b: bool)
        ensures
            b == (*self is Printable),
    {
        matches!(self, AsciiGroup::Printable(_))
    }

    pub fn is_extended(&self) -> (b: bool)
        ensures
            b == (*self is Extended),
    {
        matches!(self, AsciiGroup::Extended(_))
    }
}

impl Clone for AsciiGroup {
    fn clone(&self) -> (g: Self)
        ensures
            g == *self,
    {
        match self {
            AsciiGroup::NonPrintableCtrl(v) => AsciiGroup::NonPrintableCtrl(*v),
            AsciiGroup::PrintableCtrl(v) => AsciiGroup::PrintableCtrl(*v),
            AsciiGroup::Printable(v) => AsciiGroup::Printable(*v),
            AsciiGroup::Extended(v) => AsciiGroup::Extended(*v),
        }
    }
}

/// Every byte is in exactly one group, the group keeps the byte, and each
/// group is the set of bytes that its rule names.
pub proof fn lemma_groups_partition(b: u8)
    ensures
        classify(b).byte() == b,
        classify(b) is PrintableCtrl <==> is_ctrl_printable(b),
        classify(b) is Printable <==> 0x20 <= b <= 0x7E,
        classify(b) is Extended <==> 0x80 <= b,
        classify(b) is NonPrintableCtrl <==> (b < 0x20 || b == 0x7F) && !is_ctrl_printable(b),
{
}

/// An iterator over the groups of the bytes of a deque, front to back.
pub struct AsciiGroupIter<'a> {
    bytes: &'a VecDeque<u8>,
    pos: usize,
}

impl<'a> AsciiGroupIter<'a> {
    #[verifier::type_invariant]
    closed spec fn in_range(self) -> bool {
        self.pos <= self.bytes@.len()
    }

    /// The groups that the iterator has not yielded yet, in order.
    pub closed spec fn rest(self) -> Seq<AsciiGroup> {
        classify_all(self.bytes@.subrange(self.pos as int, self.bytes@.len() as int))
    }

    /// The iterator that stands before the first byte of `bytes`.
    pub closed spec fn over(bytes: &'a VecDeque<u8>) -> AsciiGroupIter<'a> {
        AsciiGroupIter { bytes, pos: 0 }
    }

    /// Starts an iteration over the groups of `bytes`.
    #[verifier::when_used_as_spec(over)]
    pub fn new(bytes: &'a VecDeque<u8>) -> (it: AsciiGroupIter<'a>)
        ensures
            it == Self::over(bytes),
            it.rest() == classify_all(bytes@),
            IteratorSpec::decrease(&it) is Some,
            IteratorSpec::initial_value_relation(&it, &Self::over(bytes)),
    {
        assert(bytes@.subrange(0, bytes@.len() as int) == bytes@);
        AsciiGroupIter { bytes, pos: 0 }
    }
}

impl<'a> Iterator for AsciiGroupIter<'a> {
    type Item = AsciiGroup;

    fn next(&mut self) -> (ret: Option<AsciiGroup>) {
        proof {
            use_type_invariant(&*self);
        }
        if self.pos < self.bytes.len() {
            let ghost before = self.bytes@.subrange(self.pos as int, self.bytes@.len() as int);
            let group = AsciiGroup::new(&self.bytes[self.pos]);
            self.pos = self.pos + 1;
            assert(self.bytes@.subrange(self.pos as int, self.bytes@.len() as int)
                == before.drop_first());
            assert(classify_all(before.drop_first()) == classify_all(before).drop_first());
            Some(group)
        } else {
            None
        }
    }
}

impl<'a> vstd::std_specs::iter::IteratorSpecImpl for AsciiGroupIter<'a> {
    open spec fn obeys_prophetic_iter_laws(&self) -> bool {
        true
    }

    open spec fn remaining(&self) -> Seq<AsciiGroup> {
        self.rest()
    }

    open spec fn will_return_none(&self) -> bool {
        true
    }

    closed spec fn decrease(&self) -> Option<nat> {
        Some((self.bytes@.len() - self.pos) as nat)
    }

    open spec fn initial_value_relation(&self, init: &Self) -> bool {
        init.rest() == self.rest()
    }

    open spec fn peek(&self, index: int) -> Option<AsciiGroup> {
        if 0 <= index < self.rest().len() {
            Some(self.rest()[index])
        } else {
            None
        }
    }
}

} // verus!
